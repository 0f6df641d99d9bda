//! The ways a run can fail, the message shown for each, and the exit status
//! of the process.

use vstd::prelude::*;
use vstd::string::StringExecFns;

verus! {

/// A question put to the local repository.
#[derive(Clone, Copy, Debug, PartialEq, Eq, Structural)]
pub enum Query {
    Status,
    CurrentBranch,
    RemoteBranch,
    Diff,
    CommitSubjects,
    LinkedIssue,
}

/// Why the pull request did not reach the hosting platform.
#[derive(Clone, Debug, PartialEq, Eq)]
pub enum PublishError {
    /// The branch could not be pushed to the remote.
    Push,
    /// The command that creates the pull request did not succeed; `code` is
    /// its exit status where it has one.
    Create { code: Option<i32> },
    /// The platform answered the creation request with a status outside 2xx.
    Rejected { status: u16, body: String },
}

/// An unrecoverable failure. Every one of them ends the run.
#[derive(Clone, Debug, PartialEq, Eq)]
pub enum Error {
    /// A required credential is missing.
    Configuration,
    /// The working tree has uncommitted changes: a deliberate stop, not a fault.
    UserVisibleAbort,
    /// A repository query failed or its output could not be read.
    RepositoryAccess(Query),
    /// Pushing the branch or creating the pull request failed.
    Publish(PublishError),
    /// The completion endpoint failed; the text says how.
    Generation(String),
}

/// A [`PublishError`] as contracts speak of it.
pub enum PublishErrorView {
    Push,
    Create { code: Option<i32> },
    Rejected { status: u16, body: Seq<char> },
}

/// An [`Error`] as contracts speak of it.
pub enum ErrorView {
    Configuration,
    UserVisibleAbort,
    RepositoryAccess(Query),
    Publish(PublishErrorView),
    Generation(Seq<char>),
}

impl View for PublishError {
    type V = PublishErrorView;

    open spec fn view(&self) -> PublishErrorView {
        match self {
            PublishError::Push => PublishErrorView::Push,
            PublishError::Create { code } => PublishErrorView::Create { code: *code },
            PublishError::Rejected { status, body } => PublishErrorView::Rejected {
                status: *status,
                body: body@,
            },
        }
    }
}

impl View for Error {
    type V = ErrorView;

    open spec fn view(&self) -> ErrorView {
        match self {
            Error::Configuration => ErrorView::Configuration,
            Error::UserVisibleAbort => ErrorView::UserVisibleAbort,
            Error::RepositoryAccess(query) => ErrorView::RepositoryAccess(*query),
            Error::Publish(fault) => ErrorView::Publish(fault@),
            Error::Generation(detail) => ErrorView::Generation(detail@),
        }
    }
}

/// The view of a result: that of its value, or that of its error.
pub open spec fn outcome<T: View>(result: Result<T, Error>) -> Result<T::V, ErrorView> {
    match result {
        Ok(value) => Ok(value@),
        Err(error) => Err(error@),
    }
}

/// What a failed query is called in a message.
pub open spec fn query_message(query: Query) -> Seq<char> {
    match query {
        Query::Status => "Failed to get repository status"@,
        Query::CurrentBranch => "Failed to get current branch"@,
        Query::RemoteBranch => "Failed to check for a remote branch"@,
        Query::Diff => "Failed to get git diff"@,
        Query::CommitSubjects => "Failed to get commit messages"@,
        Query::LinkedIssue => "Failed to check linked issue"@,
    }
}

/// The message shown to the user for each failure.
pub open spec fn message_text(error: ErrorView) -> Seq<char> {
    match error {
        ErrorView::Configuration => "no anthropic key"@,
        ErrorView::UserVisibleAbort =>
            "There are uncommitted changes. Please commit or stash them before proceeding."@,
        ErrorView::RepositoryAccess(query) => query_message(query),
        ErrorView::Publish(PublishErrorView::Push) =>
            "Failed to push to remote. Please ensure your branch is up to date with origin."@,
        ErrorView::Publish(PublishErrorView::Create { code }) => "Failed to create pull request"@,
        ErrorView::Publish(PublishErrorView::Rejected { status, body }) =>
            "Failed to create pull request: "@ + body,
        ErrorView::Generation(detail) => "Failed to generate PR description: "@ + detail,
    }
}

/// The exit status of a process that ends with this failure: the exit status
/// of the command that should have created the pull request, where it is a
/// failure status that a process can report, and 1 otherwise.
pub open spec fn failure_status(error: ErrorView) -> i32 {
    match error {
        ErrorView::Publish(PublishErrorView::Create { code: Some(code) }) => if 1 <= code <= 255 {
            code
        } else {
            1
        },
        _ => 1,
    }
}

impl Query {
    /// The message for a failure of this query.
    pub fn message(&self) -> (r: String)
        ensures
            r@ == query_message(*self),
    {
        match self {
            Query::Status => "Failed to get repository status".to_owned(),
            Query::CurrentBranch => "Failed to get current branch".to_owned(),
            Query::RemoteBranch => "Failed to check for a remote branch".to_owned(),
            Query::Diff => "Failed to get git diff".to_owned(),
            Query::CommitSubjects => "Failed to get commit messages".to_owned(),
            Query::LinkedIssue => "Failed to check linked issue".to_owned(),
        }
    }
}

impl Error {
    /// The message to print on the error stream.
    pub fn message(&self) -> (r: String)
        ensures
            r@ == message_text(self@),
    {
        match self {
            Error::Configuration => "no anthropic key".to_owned(),
            Error::UserVisibleAbort =>
                "There are uncommitted changes. Please commit or stash them before proceeding.".to_owned(),
            Error::RepositoryAccess(query) => query.message(),
            Error::Publish(PublishError::Push) =>
                "Failed to push to remote. Please ensure your branch is up to date with origin.".to_owned(),
            Error::Publish(PublishError::Create { .. }) => {
                "Failed to create pull request".to_owned()
            },
            Error::Publish(PublishError::Rejected { body, .. }) => {
                "Failed to create pull request: ".to_owned().concat(body.as_str())
            },
            Error::Generation(detail) => {
                "Failed to generate PR description: ".to_owned().concat(detail.as_str())
            },
        }
    }

    /// The exit status for a process that ends with this failure. It is never 0.
    pub fn exit_status(&self) -> (code: i32)
        ensures
            code == failure_status(self@),
            1 <= code <= 255,
    {
        match self {
            Error::Publish(PublishError::Create { code: Some(code) }) => {
                if 1 <= *code && *code <= 255 {
                    *code
                } else {
                    1
                }
            },
            _ => 1,
        }
    }
}

} // verus!
