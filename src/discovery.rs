//! Finding the proposals of a project across the local peer and the peers
//! it tracks, and narrowing them down by state.
use vstd::prelude::*;
use crate::codec::{decode, decode_model};
use crate::graph::{state_of, state_or_open, tip_model, CommitGraph, CommitGraphModel};
use crate::types::{models, Patch, PatchModel, PatchState, PeerIdentity, TagRef};

verus! {

/// The proposal tags read from one peer's namespace, or `None` where that
/// namespace could not be read.
pub struct PeerTags {
    pub peer: PeerIdentity,
    pub tags: Option<Vec<TagRef>>,
}

/// The proposals that `tags`, found under `peer`'s namespace, decode to, in
/// their order; tags that do not decode are passed over.
pub open spec fn decoded(tags: Seq<TagRef>, peer: PeerIdentity) -> Seq<PatchModel>
    decreases tags.len(),
{
    if tags.len() == 0 {
        Seq::empty()
    } else {
        decoded(tags.drop_last(), peer) + match decode_model(tags.last(), peer) {
            Some(p) => seq![p],
            None => Seq::empty(),
        }
    }
}

/// The proposals of one peer: none where its namespace could not be read.
pub open spec fn patches_of(pt: PeerTags) -> Seq<PatchModel> {
    match pt.tags {
        Some(v) => decoded(v@, pt.peer),
        None => Seq::empty(),
    }
}

/// The proposals of the remote peers, in their order, leaving out the peer
/// whose id is `local_id`.
pub open spec fn from_remotes(local_id: Seq<char>, remotes: Seq<PeerTags>) -> Seq<PatchModel>
    decreases remotes.len(),
{
    if remotes.len() == 0 {
        Seq::empty()
    } else {
        from_remotes(local_id, remotes.drop_last()) + if remotes.last().peer.id@ == local_id {
            Seq::<PatchModel>::empty()
        } else {
            patches_of(remotes.last())
        }
    }
}

/// The proposals among `ps` whose state is `state`, in their order.
pub open spec fn with_state(
    g: CommitGraphModel,
    tip: Option<Seq<char>>,
    ps: Seq<PatchModel>,
    state: PatchState,
) -> Seq<PatchModel>
    decreases ps.len(),
{
    if ps.len() == 0 {
        Seq::empty()
    } else {
        with_state(g, tip, ps.drop_last(), state) + if state_or_open(
            g,
            ps.last().target_commit,
            tip,
        ) == state {
            seq![ps.last()]
        } else {
            Seq::<PatchModel>::empty()
        }
    }
}

/// Appends to `out` the proposals that `tags`, found under `peer`'s
/// namespace, decode to.
pub fn collect_tags(out: &mut Vec<Patch>, tags: &Vec<TagRef>, peer: &PeerIdentity)
    ensures
        models(final(out)@) == models(old(out)@) + decoded(tags@, *peer),
{
    let ghost start = models(out@);
    let mut i: usize = 0;
    assert(start =~= start + decoded(tags@.subrange(0, 0), *peer));
    while i < tags.len()
        invariant
            i <= tags@.len(),
            models(out@) == start + decoded(tags@.subrange(0, i as int), *peer),
        decreases tags@.len() - i,
    {
        let ghost before = models(out@);
        let r = decode(&tags[i], peer);
        assert(tags@.subrange(0, i + 1).drop_last() =~= tags@.subrange(0, i as int));
        match r {
            Ok(p) => {
                out.push(p);
                assert(models(out@) =~= before + seq![p@]);
            },
            Err(_) => {},
        }
        i = i + 1;
    }
    assert(tags@.subrange(0, tags@.len() as int) =~= tags@);
}

/// Appends to `out` the proposals of one peer.
pub fn collect_peer(out: &mut Vec<Patch>, pt: &PeerTags)
    ensures
        models(final(out)@) == models(old(out)@) + patches_of(*pt),
{
    match &pt.tags {
        Some(tags) => collect_tags(out, tags, &pt.peer),
        None => {
            assert(models(out@) =~= models(out@) + patches_of(*pt));
        },
    }
}

/// All proposals visible to the local peer: its own first, then those of
/// each remote peer other than itself, in the order given. A remote
/// namespace that could not be read adds nothing and stops nothing.
pub fn discover(local: &PeerIdentity, local_tags: &Vec<TagRef>, remotes: &Vec<PeerTags>) -> (r: Vec<
    Patch,
>)
    ensures
        models(r@) == decoded(local_tags@, *local) + from_remotes(local.id@, remotes@),
{
    let mut out: Vec<Patch> = Vec::new();
    collect_tags(&mut out, local_tags, local);
    assert(models(out@) =~= decoded(local_tags@, *local) + from_remotes(local.id@, remotes@.subrange(0, 0)));
    let mut i: usize = 0;
    while i < remotes.len()
        invariant
            i <= remotes@.len(),
            models(out@) == decoded(local_tags@, *local) + from_remotes(
                local.id@,
                remotes@.subrange(0, i as int),
            ),
        decreases remotes@.len() - i,
    {
        let pt = &remotes[i];
        assert(remotes@.subrange(0, i + 1).drop_last() =~= remotes@.subrange(0, i as int));
        if pt.peer.id != local.id {
            collect_peer(&mut out, pt);
        }
        assert(models(out@) =~= decoded(local_tags@, *local) + from_remotes(
            local.id@,
            remotes@.subrange(0, i + 1),
        ));
        i = i + 1;
    }
    assert(remotes@.subrange(0, remotes@.len() as int) =~= remotes@);
    out
}

/// The proposals of `patches` whose state in `view` is `state`; where the
/// default branch has no local tip every proposal counts as `Open`.
pub fn filter_by_state(
    view: &CommitGraph,
    default_branch_tip: &Option<String>,
    patches: &Vec<Patch>,
    state: PatchState,
) -> (r: Vec<Patch>)
    requires
        view@.wf(),
    ensures
        models(r@) == with_state(view@, tip_model(default_branch_tip), models(patches@), state),
{
    let ghost tip = tip_model(default_branch_tip);
    let mut out: Vec<Patch> = Vec::new();
    let mut i: usize = 0;
    while i < patches.len()
        invariant
            view@.wf(),
            tip == tip_model(default_branch_tip),
            i <= patches@.len(),
            models(out@) == with_state(view@, tip, models(patches@.subrange(0, i as int)), state),
        decreases patches@.len() - i,
    {
        let ghost before = models(out@);
        assert(models(patches@.subrange(0, i + 1)).drop_last() =~= models(
            patches@.subrange(0, i as int),
        ));
        assert(models(patches@.subrange(0, i + 1)).last() == patches@[i as int]@);
        if state_of(view, &patches[i], default_branch_tip) == state {
            let p = patches[i].duplicate();
            out.push(p);
            assert(models(out@) =~= before + seq![p@]);
        } else {
            assert(models(out@) =~= before + Seq::<PatchModel>::empty());
        }
        i = i + 1;
    }
    assert(patches@.subrange(0, patches@.len() as int) =~= patches@);
    out
}

/// A remote peer whose namespace could not be read takes nothing from the
/// result: discovery over all remote peers gives exactly what it gives
/// with that peer left out.
pub proof fn lemma_unreadable_peer_skipped(local_id: Seq<char>, remotes: Seq<PeerTags>, i: int)
    requires
        0 <= i < remotes.len(),
        remotes[i].tags is None,
    ensures
        from_remotes(local_id, remotes) == from_remotes(local_id, remotes.remove(i)),
    decreases remotes.len(),
{
    if i == remotes.len() - 1 {
        assert(remotes.remove(i) =~= remotes.drop_last());
        assert(from_remotes(local_id, remotes) =~= from_remotes(local_id, remotes.drop_last()));
    } else {
        lemma_unreadable_peer_skipped(local_id, remotes.drop_last(), i);
        assert(remotes.remove(i).drop_last() =~= remotes.drop_last().remove(i));
        assert(remotes.remove(i).last() == remotes.last());
    }
}

/// The proposals visible to the local peer whose state is `state`.
pub fn list_by_state(
    view: &CommitGraph,
    default_branch_tip: &Option<String>,
    local: &PeerIdentity,
    local_tags: &Vec<TagRef>,
    remotes: &Vec<PeerTags>,
    state: PatchState,
) -> (r: Vec<Patch>)
    requires
        view@.wf(),
    ensures
        models(r@) == with_state(
            view@,
            tip_model(default_branch_tip),
            decoded(local_tags@, *local) + from_remotes(local.id@, remotes@),
            state,
        ),
{
    let all = discover(local, local_tags, remotes);
    filter_by_state(view, default_branch_tip, &all, state)
}

/// What a listing shows of one proposal.
pub struct PatchRow {
    /// The proposal's title.
    pub title: String,
    /// The display name of the peer that the proposal was found under.
    pub opened_by: String,
    /// Whether that peer is the local one.
    pub you: bool,
    /// The id of the proposal's tag.
    pub id: String,
}

/// The row that shows `patch` to the peer whose id is `local_id`.
pub fn row(patch: &Patch, local_id: &String) -> (r: PatchRow)
    ensures
        r.title@ == patch.title@,
        r.opened_by@ == patch.peer.name@,
        r.you == (patch.peer.id@ == local_id@),
        r.id@ == patch.id@,
{
    PatchRow {
        title: patch.title.clone(),
        opened_by: patch.peer.name.clone(),
        you: patch.peer.id == *local_id,
        id: patch.id.clone(),
    }
}

} // verus!
