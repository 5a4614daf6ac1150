//! The records that the rest of the library works on.
use vstd::prelude::*;

verus! {

/// A peer: a stable identifier and a name for display.
#[derive(Clone, Debug)]
pub struct PeerIdentity {
    pub id: String,
    pub name: String,
}

/// An annotated tag as read from one peer's namespace: the tag object's
/// id, the tag's name, its message (absent for a lightweight tag) and the
/// commit it points at.
#[derive(Clone, Debug)]
pub struct TagRef {
    pub id: String,
    pub name: String,
    pub message: Option<String>,
    pub target: String,
}

/// A proposal, as decoded from a tag found under `peer`'s namespace.
#[derive(Clone, Debug)]
pub struct Patch {
    pub id: String,
    pub peer: PeerIdentity,
    pub title: String,
    pub description: String,
    pub target_commit: String,
    pub source_ref_name: String,
}

/// The mathematical value of a [`Patch`].
pub struct PatchModel {
    pub id: Seq<char>,
    pub peer_id: Seq<char>,
    pub peer_name: Seq<char>,
    pub title: Seq<char>,
    pub description: Seq<char>,
    pub target_commit: Seq<char>,
    pub source_ref_name: Seq<char>,
}

impl View for Patch {
    type V = PatchModel;

    open spec fn view(&self) -> PatchModel {
        PatchModel {
            id: self.id@,
            peer_id: self.peer.id@,
            peer_name: self.peer.name@,
            title: self.title@,
            description: self.description@,
            target_commit: self.target_commit@,
            source_ref_name: self.source_ref_name@,
        }
    }
}

impl PeerIdentity {
    /// A copy of this identity.
    pub fn duplicate(&self) -> (r: PeerIdentity)
        ensures
            r.id@ == self.id@,
            r.name@ == self.name@,
    {
        PeerIdentity { id: self.id.clone(), name: self.name.clone() }
    }
}

impl Patch {
    /// A copy of this proposal.
    pub fn duplicate(&self) -> (r: Patch)
        ensures
            r@ == self@,
    {
        Patch {
            id: self.id.clone(),
            peer: self.peer.duplicate(),
            title: self.title.clone(),
            description: self.description.clone(),
            target_commit: self.target_commit.clone(),
            source_ref_name: self.source_ref_name.clone(),
        }
    }
}

/// The models of a sequence of proposals.
pub open spec fn models(v: Seq<Patch>) -> Seq<PatchModel> {
    v.map_values(|p: Patch| p@)
}

/// Whether a proposal's target commit has reached the default branch.
#[derive(PartialEq, Eq, Structural, Clone, Copy, Debug)]
pub enum PatchState {
    Open,
    Merged,
}

/// Why a tag could not be read as a proposal.
#[derive(PartialEq, Eq, Structural, Clone, Copy, Debug)]
pub enum DecodeError {
    /// The name lacks the proposal prefix, or the tag carries no message.
    MalformedTag,
}

/// Why a proposal could not be classified.
#[derive(PartialEq, Eq, Structural, Clone, Copy, Debug)]
pub enum ClassifyError {
    /// The default branch has no local tip.
    UnresolvedReference,
}

} // verus!
