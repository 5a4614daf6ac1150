//! Classification through the repository's own ancestry query, for when no
//! commit view has been loaded.
use vstd::prelude::*;
use crate::types::{ClassifyError, Patch, PatchState};

verus! {

#[verifier::external_type_specification]
#[verifier::external_body]
pub struct ExRepository(git2::Repository);

/// Relies on git2's `Oid::from_str` and `Repository::graph_descendant_of`:
/// whether commit `commit` descends from commit `ancestor`, both given in
/// hex, or `None` where an id does not parse or the query fails. What comes
/// back depends on the repository's contents, so nothing is promised of it.
#[verifier::external_body]
fn graph_descendant_of(repo: &git2::Repository, commit: &str, ancestor: &str) -> (r: Option<bool>) {
    let commit = git2::Oid::from_str(commit).ok()?;
    let ancestor = git2::Oid::from_str(ancestor).ok()?;
    repo.graph_descendant_of(commit, ancestor).ok()
}

/// The state of a proposal pointing at `target` while the default branch
/// points at `tip`, given the store's answer to whether `tip` descends from
/// `target` (`None` where it gave none).
pub open spec fn state_from_answer(target: Seq<char>, tip: Seq<char>, tip_descends: Option<bool>) -> PatchState {
    if target == tip || tip_descends == Some(true) {
        PatchState::Merged
    } else {
        PatchState::Open
    }
}

/// Decides the state of `patch` from the store's answer to whether the
/// default branch tip `tip` descends from the proposal's target.
pub fn decide_state(patch: &Patch, tip: &String, tip_descends: Option<bool>) -> (r: PatchState)
    ensures
        r == state_from_answer(patch.target_commit@, tip@, tip_descends),
{
    if patch.target_commit == *tip {
        PatchState::Merged
    } else {
        match tip_descends {
            Some(true) => PatchState::Merged,
            _ => PatchState::Open,
        }
    }
}

/// The state of `patch` in `repo`, asking the repository whether the
/// default branch tip descends from the proposal's target.
pub fn classify_in_store(repo: &git2::Repository, patch: &Patch, default_branch_tip: &Option<String>) -> (r:
    Result<PatchState, ClassifyError>)
    ensures
        default_branch_tip is None ==> r == Err::<PatchState, ClassifyError>(
            ClassifyError::UnresolvedReference,
        ),
        default_branch_tip is Some ==> r is Ok,
        default_branch_tip is Some && default_branch_tip->0@ == patch.target_commit@ ==> r
            == Ok::<PatchState, ClassifyError>(PatchState::Merged),
        default_branch_tip is Some ==> exists|answer: Option<bool>|
            r == Ok::<PatchState, ClassifyError>(
                #[trigger] state_from_answer(patch.target_commit@, default_branch_tip->0@, answer),
            ),
{
    match default_branch_tip {
        None => Err(ClassifyError::UnresolvedReference),
        Some(tip) => {
            let answer = graph_descendant_of(repo, tip.as_str(), patch.target_commit.as_str());
            Ok(decide_state(patch, tip, answer))
        },
    }
}

} // verus!
