//! What a progress display shows for each stage of a run. The display only
//! watches: nothing here decides how the run goes on.

use crate::orchestrator::{stage_of, Stage, State, StateView};
use vstd::prelude::*;
use vstd::string::StringExecFns;

verus! {

/// The label of the stages that are shown while they are worked on.
pub open spec fn label_of(stage: Stage) -> Option<Seq<char>> {
    match stage {
        Stage::EnsureRemote => Some("Checking remote"@),
        Stage::CollectDiff => Some("Getting git diff"@),
        Stage::CollectCommits => Some("Getting commit messages"@),
        Stage::ResolveIssue => Some("Checking linked issue"@),
        Stage::GenerateDescription => Some("Generating PR description"@),
        Stage::Publish => Some("Creating pull request"@),
        _ => None,
    }
}

/// What is shown for a stage that has ended.
pub open spec fn finished_text(label: Seq<char>, succeeded: bool) -> Seq<char> {
    if succeeded {
        label + " Done"@
    } else {
        label + " Failed"@
    }
}

impl Stage {
    /// The label shown while the stage is worked on, for the stages that are
    /// shown.
    pub fn label(&self) -> (r: Option<&'static str>)
        ensures
            r matches Some(label) ==> label_of(*self) == Some(label@),
            r is None ==> label_of(*self) is None,
    {
        match self {
            Stage::EnsureRemote => Some("Checking remote"),
            Stage::CollectDiff => Some("Getting git diff"),
            Stage::CollectCommits => Some("Getting commit messages"),
            Stage::ResolveIssue => Some("Checking linked issue"),
            Stage::GenerateDescription => Some("Generating PR description"),
            Stage::Publish => Some("Creating pull request"),
            _ => None,
        }
    }
}

/// The message for a stage that has ended: its label, and how it ended.
pub fn finish_message(label: &str, succeeded: bool) -> (r: String)
    ensures
        r@ == finished_text(label@, succeeded),
{
    if succeeded {
        label.to_owned().concat(" Done")
    } else {
        label.to_owned().concat(" Failed")
    }
}

/// What a progress display is told of a run.
#[derive(Clone, Copy, Debug, PartialEq, Eq, Structural)]
pub enum Notice {
    /// Work on the stage has begun.
    Started(Stage),
    /// The stage has done its work.
    Succeeded(Stage),
    /// The stage has failed, and the run with it.
    Failed(Stage),
}

/// What there is to tell after a step that began in the stage `before` and
/// led to the state `after`: the failure of a stage, or the success of the
/// stage that the run has left and the start of the one it has entered, or
/// nothing while the run stays in its stage.
pub open spec fn notices_of(before: Stage, after: StateView) -> Seq<Notice> {
    match after {
        StateView::Failed(failure) => seq![Notice::Failed(failure.stage)],
        StateView::Done => if before == Stage::Done {
            Seq::empty()
        } else {
            seq![Notice::Succeeded(before)]
        },
        _ => if stage_of(after) == before {
            Seq::empty()
        } else {
            seq![Notice::Succeeded(before), Notice::Started(stage_of(after))]
        },
    }
}

/// Lists what a progress display is to be told after a step.
pub fn notices(before: Stage, after: &State) -> (r: Vec<Notice>)
    ensures
        r@ == notices_of(before, after@),
{
    let mut told: Vec<Notice> = Vec::new();
    match after {
        State::Failed(failure) => {
            told.push(Notice::Failed(failure.stage));
        },
        State::Done => {
            if before != Stage::Done {
                told.push(Notice::Succeeded(before));
            }
        },
        _ => {
            let now = after.stage();
            if now != before {
                told.push(Notice::Succeeded(before));
                told.push(Notice::Started(now));
            }
        },
    }
    told
}

} // verus!
