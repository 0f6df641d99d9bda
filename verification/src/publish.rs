//! The pull request: what is asked of the hosting platform, and how its answer
//! is judged.

use crate::error::{outcome, Error, ErrorView, PublishError, PublishErrorView};
use crate::probe::{succeeded, Command, CommandOutput, CommandOutputView, CommandView, BASE_BRANCH};
use crate::text::texts;
use vstd::prelude::*;

verus! {

/// The title of every pull request.
pub const TITLE: &'static str = "Automated Pull Request";

/// A pull request to be opened.
#[derive(Clone, Debug, PartialEq, Eq)]
pub struct PullRequestRequest {
    pub title: String,
    pub body: String,
    pub base_branch: String,
    pub head_branch: String,
}

/// A [`PullRequestRequest`] as contracts speak of it.
pub struct PullRequestRequestView {
    pub title: Seq<char>,
    pub body: Seq<char>,
    pub base_branch: Seq<char>,
    pub head_branch: Seq<char>,
}

impl View for PullRequestRequest {
    type V = PullRequestRequestView;

    open spec fn view(&self) -> PullRequestRequestView {
        PullRequestRequestView {
            title: self.title@,
            body: self.body@,
            base_branch: self.base_branch@,
            head_branch: self.head_branch@,
        }
    }
}

/// The pull request for a description: the fixed title, the description as
/// it is, the fixed base branch, and the branch that holds the changes.
pub open spec fn request_of(
    description: Seq<char>,
    head_branch: Seq<char>,
) -> PullRequestRequestView {
    PullRequestRequestView {
        title: TITLE@,
        body: description,
        base_branch: BASE_BRANCH@,
        head_branch,
    }
}

/// The command that opens the pull request through the platform's command-line
/// client, which takes the current branch as the head.
pub open spec fn creation_order(request: PullRequestRequestView) -> CommandView {
    CommandView {
        program: "gh"@,
        args: seq![
            "pr"@,
            "create"@,
            "--title"@,
            request.title,
            "--body"@,
            request.body,
            "--base"@,
            request.base_branch,
        ],
    }
}

/// What the end of the creating command means.
pub open spec fn creation_verdict(output: CommandOutputView) -> Result<(), ErrorView> {
    if succeeded(output) {
        Ok(())
    } else {
        Err(ErrorView::Publish(PublishErrorView::Create { code: output.code }))
    }
}

/// What the platform's answer to a creation request means: a status from 200
/// to 299 is success, any other a rejection that carries the answer's body.
pub open spec fn response_verdict(status: u16, body: Seq<char>) -> Result<(), ErrorView> {
    if 200 <= status <= 299 {
        Ok(())
    } else {
        Err(ErrorView::Publish(PublishErrorView::Rejected { status, body }))
    }
}

/// What the end of the push means.
pub open spec fn push_verdict(output: CommandOutputView) -> Result<(), ErrorView> {
    if succeeded(output) {
        Ok(())
    } else {
        Err(ErrorView::Publish(PublishErrorView::Push))
    }
}

impl PullRequestRequest {
    /// Builds the pull request for a description and the branch that holds the
    /// changes.
    pub fn new(description: String, head_branch: String) -> (r: PullRequestRequest)
        ensures
            r@ == request_of(description@, head_branch@),
    {
        PullRequestRequest {
            title: TITLE.to_owned(),
            body: description,
            base_branch: BASE_BRANCH.to_owned(),
            head_branch,
        }
    }
}

/// Builds the command that opens the pull request.
pub fn create_pull_request(request: &PullRequestRequest) -> (r: Command)
    ensures
        r@ == creation_order(request@),
{
    let mut args: Vec<String> = Vec::new();
    args.push("pr".to_owned());
    args.push("create".to_owned());
    args.push("--title".to_owned());
    args.push(request.title.clone());
    args.push("--body".to_owned());
    args.push(request.body.clone());
    args.push("--base".to_owned());
    args.push(request.base_branch.clone());
    assert(texts(args@) =~= creation_order(request@).args);
    Command { program: "gh".to_owned(), args }
}

/// Judges the end of the push. A push that did not succeed is fatal: without
/// the branch on the remote there is nothing to open a pull request from.
pub fn check_push(output: &CommandOutput) -> (r: Result<(), Error>)
    ensures
        outcome(r) == push_verdict(output@),
{
    if output.success() {
        Ok(())
    } else {
        Err(Error::Publish(PublishError::Push))
    }
}

/// Judges the end of the command that should have created the pull request.
pub fn check_creation(output: &CommandOutput) -> (r: Result<(), Error>)
    ensures
        outcome(r) == creation_verdict(output@),
{
    if output.success() {
        Ok(())
    } else {
        Err(Error::Publish(PublishError::Create { code: output.code }))
    }
}

/// Judges the platform's answer to a creation request.
pub fn check_response(status: u16, body: String) -> (r: Result<(), Error>)
    ensures
        outcome(r) == response_verdict(status, body@),
{
    if 200 <= status && status <= 299 {
        Ok(())
    } else {
        Err(Error::Publish(PublishError::Rejected { status, body }))
    }
}

} // verus!
