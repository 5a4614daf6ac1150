//! Publishing a proposal: three steps run strictly in order (create the tag
//! locally, push the tag, push the branch), where the first failure ends the
//! run and names the step that failed. The caller performs each step and
//! reports back whether it succeeded.
use vstd::prelude::*;
use crate::codec::{encode, message_of, tag_name_of};

verus! {

/// The step of a publication that failed.
#[derive(PartialEq, Eq, Structural, Clone, Copy, Debug)]
pub enum PublishError {
    /// The tag could not be created locally; nothing was distributed.
    TagCreationFailed,
    /// The tag exists locally but was not pushed.
    TagPushFailed,
    /// The tag was pushed but the branch was not.
    BranchPushFailed,
}

/// Where a publication stands.
#[derive(PartialEq, Eq, Structural, Clone, Copy, Debug)]
pub enum Stage {
    CreatingTag,
    PushingTag,
    PushingBranch,
    Published,
    Failed(PublishError),
}

/// What the caller is to do next.
#[derive(Debug)]
pub enum PublishAction {
    /// Create the annotated tag `name` with `message` at the branch tip.
    CreateTag { name: String, message: String },
    /// Push the tag `name` to the project's remote.
    PushTag { name: String },
    /// Push the branch `branch` to the project's remote.
    PushBranch { branch: String },
    /// Every step succeeded.
    Done,
    /// A step failed; nothing more is to be done.
    Failed(PublishError),
}

/// The stage that follows `stage` once its step has `succeeded` or not.
pub open spec fn next_stage(stage: Stage, succeeded: bool) -> Stage {
    match stage {
        Stage::CreatingTag => if succeeded {
            Stage::PushingTag
        } else {
            Stage::Failed(PublishError::TagCreationFailed)
        },
        Stage::PushingTag => if succeeded {
            Stage::PushingBranch
        } else {
            Stage::Failed(PublishError::TagPushFailed)
        },
        Stage::PushingBranch => if succeeded {
            Stage::Published
        } else {
            Stage::Failed(PublishError::BranchPushFailed)
        },
        Stage::Published => Stage::Published,
        Stage::Failed(e) => Stage::Failed(e),
    }
}

/// One publication of a proposal from branch `branch`.
pub struct Publication {
    pub branch: String,
    pub tag_name: String,
    pub message: String,
    pub stage: Stage,
}

impl Publication {
    /// A publication of the proposal with `title` and `description` from
    /// branch `branch`, about to create its tag.
    pub fn new(branch: &str, title: &str, description: &str) -> (r: Publication)
        requires
            title@.len() > 0,
        ensures
            r.branch@ == branch@,
            r.tag_name@ == tag_name_of(branch@),
            r.message@ == message_of(title@, description@),
            r.stage == Stage::CreatingTag,
    {
        let (tag_name, message) = encode(branch, title, description);
        Publication { branch: String::from_str(branch), tag_name, message, stage: Stage::CreatingTag }
    }

    /// The step that the current stage asks for.
    pub fn action(&self) -> (r: PublishAction)
        ensures
            self.stage == Stage::CreatingTag ==> (r matches PublishAction::CreateTag { name, message }
                && name@ == self.tag_name@ && message@ == self.message@),
            self.stage == Stage::PushingTag ==> (r matches PublishAction::PushTag { name } && name@
                == self.tag_name@),
            self.stage == Stage::PushingBranch ==> (r matches PublishAction::PushBranch { branch }
                && branch@ == self.branch@),
            self.stage == Stage::Published ==> r is Done,
            self.stage is Failed ==> (r matches PublishAction::Failed(e) && self.stage
                == Stage::Failed(e)),
    {
        match self.stage {
            Stage::CreatingTag => PublishAction::CreateTag {
                name: self.tag_name.clone(),
                message: self.message.clone(),
            },
            Stage::PushingTag => PublishAction::PushTag { name: self.tag_name.clone() },
            Stage::PushingBranch => PublishAction::PushBranch { branch: self.branch.clone() },
            Stage::Published => PublishAction::Done,
            Stage::Failed(e) => PublishAction::Failed(e),
        }
    }

    /// Records whether the step of the current stage succeeded.
    pub fn record(&mut self, succeeded: bool)
        ensures
            final(self).stage == next_stage(old(self).stage, succeeded),
            final(self).branch == old(self).branch,
            final(self).tag_name == old(self).tag_name,
            final(self).message == old(self).message,
    {
        self.stage = match self.stage {
            Stage::CreatingTag => if succeeded {
                Stage::PushingTag
            } else {
                Stage::Failed(PublishError::TagCreationFailed)
            },
            Stage::PushingTag => if succeeded {
                Stage::PushingBranch
            } else {
                Stage::Failed(PublishError::TagPushFailed)
            },
            Stage::PushingBranch => if succeeded {
                Stage::Published
            } else {
                Stage::Failed(PublishError::BranchPushFailed)
            },
            Stage::Published => Stage::Published,
            Stage::Failed(e) => Stage::Failed(e),
        };
    }

    /// The result of the publication once it has ended: `Ok` when every
    /// step succeeded, else the step that failed; `None` while a step is
    /// still to run.
    pub fn outcome(&self) -> (r: Option<Result<(), PublishError>>)
        ensures
            self.stage == Stage::Published ==> r == Some(Ok::<(), PublishError>(())),
            self.stage is Failed ==> r == Some(Err::<(), PublishError>(self.stage->Failed_0)),
            (self.stage == Stage::CreatingTag || self.stage == Stage::PushingTag || self.stage
                == Stage::PushingBranch) ==> r is None,
    {
        match self.stage {
            Stage::Published => Some(Ok(())),
            Stage::Failed(e) => Some(Err(e)),
            _ => None,
        }
    }
}

/// Steps run in order and a failure is final: from the start, a run whose
/// outcomes are `a`, `b`, `c` publishes exactly when all three succeed, and
/// otherwise stops at the first step that failed.
pub proof fn lemma_first_failure_ends(a: bool, b: bool, c: bool, d: bool)
    ensures
        ({
            let s = next_stage(next_stage(next_stage(Stage::CreatingTag, a), b), c);
            &&& (s == Stage::Published <==> (a && b && c))
            &&& (!a ==> s == Stage::Failed(PublishError::TagCreationFailed))
            &&& (a && !b ==> s == Stage::Failed(PublishError::TagPushFailed))
            &&& (a && b && !c ==> s == Stage::Failed(PublishError::BranchPushFailed))
            &&& next_stage(s, d) == s
        }),
{
}

} // verus!
