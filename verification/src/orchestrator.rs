//! The run as a state machine. The machine decides; its driver performs each
//! action outside and reports what came of it as the next event.

use crate::config::{Config, ConfigView};
use crate::describe::{
    generate_pr_description, prompt_of, request_for, CompletionRequest, CompletionRequestView,
};
use crate::error::{failure_status, Error, ErrorView, PublishError, PublishErrorView, Query};
use crate::probe::{
    branch_of, check_uncommitted_changes, clean_of, current_branch_query, diff_of, diff_query,
    get_commit_messages, get_current_branch, get_git_diff, has_remote, log_query, push_order,
    remote_query, status_query, subjects_of, succeeded, ChangeSet, ChangeSetView, Command,
    CommandOutput, CommandOutputView, CommandView,
};
use crate::publish::{
    check_creation, check_push, check_response, create_pull_request, creation_order,
    creation_verdict, push_verdict, request_of, response_verdict, PullRequestRequest,
    PullRequestRequestView,
};
use crate::text::option_text;
use vstd::prelude::*;

verus! {

/// The stages of a run, in the order in which they are passed.
#[derive(Clone, Copy, Debug, PartialEq, Eq, Structural)]
pub enum Stage {
    Start,
    VerifyClean,
    EnsureRemote,
    CollectDiff,
    CollectCommits,
    ResolveIssue,
    GenerateDescription,
    Publish,
    Done,
}

/// The work that a running machine waits for, with what it has gathered.
#[derive(Clone, Debug, PartialEq, Eq)]
pub enum Step {
    VerifyClean,
    ResolveBranch,
    CheckRemote { branch: String },
    PushBranch { branch: String },
    CollectDiff { branch: String },
    CollectCommits { branch: String, diff: String },
    ResolveIssue { branch: String, changes: ChangeSet },
    GenerateDescription { branch: String },
    Publish,
}

/// A failed run: the stage that failed, and why.
#[derive(Clone, Debug, PartialEq, Eq)]
pub struct Failure {
    pub stage: Stage,
    pub error: Error,
}

/// The state of a run.
#[derive(Clone, Debug, PartialEq, Eq)]
pub enum State {
    Start,
    Running { config: Config, step: Step },
    Done,
    Failed(Failure),
}

/// What the driver reports back.
#[derive(Clone, Debug, PartialEq, Eq)]
pub enum Event {
    /// The configuration was looked up: the key for the completion endpoint,
    /// if there is one, and the model to ask.
    Configured { api_key: Option<String>, model: String },
    /// The child process ran to its end.
    Exited(CommandOutput),
    /// The child process could not be started.
    NotLaunched,
    /// The issue linker answered.
    IssueResolved(Option<String>),
    /// The completion endpoint returned this text.
    Completed(String),
    /// The call to the completion endpoint failed.
    CompletionFailed(String),
    /// The hosting platform answered a creation request.
    Responded { status: u16, body: String },
}

/// What the driver is to do next.
#[derive(Clone, Debug, PartialEq, Eq)]
pub enum Action {
    LoadConfiguration,
    QueryStatus,
    QueryCurrentBranch,
    QueryRemote { branch: String },
    Push { branch: String },
    QueryDiff,
    QueryCommits,
    ResolveIssue,
    Generate { api_key: String, request: CompletionRequest },
    Publish { pull_request: PullRequestRequest },
    Exit { code: i32 },
}

/// A [`Step`] as contracts speak of it.
pub enum StepView {
    VerifyClean,
    ResolveBranch,
    CheckRemote { branch: Seq<char> },
    PushBranch { branch: Seq<char> },
    CollectDiff { branch: Seq<char> },
    CollectCommits { branch: Seq<char>, diff: Seq<char> },
    ResolveIssue { branch: Seq<char>, changes: ChangeSetView },
    GenerateDescription { branch: Seq<char> },
    Publish,
}

/// A [`Failure`] as contracts speak of it.
pub struct FailureView {
    pub stage: Stage,
    pub error: ErrorView,
}

/// A [`State`] as contracts speak of it.
pub enum StateView {
    Start,
    Running { config: ConfigView, step: StepView },
    Done,
    Failed(FailureView),
}

/// An [`Event`] as contracts speak of it.
pub enum EventView {
    Configured { api_key: Option<Seq<char>>, model: Seq<char> },
    Exited(CommandOutputView),
    NotLaunched,
    IssueResolved(Option<Seq<char>>),
    Completed(Seq<char>),
    CompletionFailed(Seq<char>),
    Responded { status: u16, body: Seq<char> },
}

/// An [`Action`] as contracts speak of it.
pub enum ActionView {
    LoadConfiguration,
    QueryStatus,
    QueryCurrentBranch,
    QueryRemote { branch: Seq<char> },
    Push { branch: Seq<char> },
    QueryDiff,
    QueryCommits,
    ResolveIssue,
    Generate { api_key: Seq<char>, request: CompletionRequestView },
    Publish { pull_request: PullRequestRequestView },
    Exit { code: i32 },
}

impl View for Step {
    type V = StepView;

    open spec fn view(&self) -> StepView {
        match self {
            Step::VerifyClean => StepView::VerifyClean,
            Step::ResolveBranch => StepView::ResolveBranch,
            Step::CheckRemote { branch } => StepView::CheckRemote { branch: branch@ },
            Step::PushBranch { branch } => StepView::PushBranch { branch: branch@ },
            Step::CollectDiff { branch } => StepView::CollectDiff { branch: branch@ },
            Step::CollectCommits { branch, diff } => StepView::CollectCommits {
                branch: branch@,
                diff: diff@,
            },
            Step::ResolveIssue { branch, changes } => StepView::ResolveIssue {
                branch: branch@,
                changes: changes@,
            },
            Step::GenerateDescription { branch } => StepView::GenerateDescription {
                branch: branch@,
            },
            Step::Publish => StepView::Publish,
        }
    }
}

impl View for Failure {
    type V = FailureView;

    open spec fn view(&self) -> FailureView {
        FailureView { stage: self.stage, error: self.error@ }
    }
}

impl View for State {
    type V = StateView;

    open spec fn view(&self) -> StateView {
        match self {
            State::Start => StateView::Start,
            State::Running { config, step } => StateView::Running { config: config@, step: step@ },
            State::Done => StateView::Done,
            State::Failed(failure) => StateView::Failed(failure@),
        }
    }
}

impl View for Event {
    type V = EventView;

    open spec fn view(&self) -> EventView {
        match self {
            Event::Configured { api_key, model } => EventView::Configured {
                api_key: option_text(*api_key),
                model: model@,
            },
            Event::Exited(output) => EventView::Exited(output@),
            Event::NotLaunched => EventView::NotLaunched,
            Event::IssueResolved(issue) => EventView::IssueResolved(option_text(*issue)),
            Event::Completed(text) => EventView::Completed(text@),
            Event::CompletionFailed(detail) => EventView::CompletionFailed(detail@),
            Event::Responded { status, body } => EventView::Responded {
                status: *status,
                body: body@,
            },
        }
    }
}

impl View for Action {
    type V = ActionView;

    open spec fn view(&self) -> ActionView {
        match self {
            Action::LoadConfiguration => ActionView::LoadConfiguration,
            Action::QueryStatus => ActionView::QueryStatus,
            Action::QueryCurrentBranch => ActionView::QueryCurrentBranch,
            Action::QueryRemote { branch } => ActionView::QueryRemote { branch: branch@ },
            Action::Push { branch } => ActionView::Push { branch: branch@ },
            Action::QueryDiff => ActionView::QueryDiff,
            Action::QueryCommits => ActionView::QueryCommits,
            Action::ResolveIssue => ActionView::ResolveIssue,
            Action::Generate { api_key, request } => ActionView::Generate {
                api_key: api_key@,
                request: request@,
            },
            Action::Publish { pull_request } => ActionView::Publish { pull_request: pull_request@ },
            Action::Exit { code } => ActionView::Exit { code: *code },
        }
    }
}

/// The machine after a step: its new state, and what the driver is to do.
pub struct Transition {
    pub state: StateView,
    pub action: ActionView,
}

/// A run goes on with the given step.
pub open spec fn go_on(config: ConfigView, step: StepView, action: ActionView) -> Transition {
    Transition { state: StateView::Running { config, step }, action }
}

/// A run fails in the given stage: the process is to exit with the status of
/// the failure.
pub open spec fn fail(stage: Stage, error: ErrorView) -> Transition {
    Transition {
        state: StateView::Failed(FailureView { stage, error }),
        action: ActionView::Exit { code: failure_status(error) },
    }
}

/// A run is complete: the process is to exit with status 0.
pub open spec fn finish() -> Transition {
    Transition { state: StateView::Done, action: ActionView::Exit { code: 0 } }
}

/// What the machine makes of the hosting platform's answer, which comes as
/// the end of its command-line client or as the response to a request.
pub open spec fn publish_spec(event: EventView) -> Transition {
    match event {
        EventView::Exited(output) => match creation_verdict(output) {
            Ok(_) => finish(),
            Err(e) => fail(Stage::Publish, e),
        },
        EventView::Responded { status, body } => match response_verdict(status, body) {
            Ok(_) => finish(),
            Err(e) => fail(Stage::Publish, e),
        },
        _ => fail(Stage::Publish, ErrorView::Publish(PublishErrorView::Create { code: None })),
    }
}

/// What a running machine makes of an event. An event of a kind that the step
/// does not wait for counts as a failure of the step's work.
pub open spec fn advance_spec(config: ConfigView, step: StepView, event: EventView) -> Transition {
    match step {
        StepView::VerifyClean => match event {
            EventView::Exited(output) => match clean_of(output) {
                Ok(_) => go_on(config, StepView::ResolveBranch, ActionView::QueryCurrentBranch),
                Err(e) => fail(Stage::VerifyClean, e),
            },
            _ => fail(Stage::VerifyClean, ErrorView::RepositoryAccess(Query::Status)),
        },
        StepView::ResolveBranch => match event {
            EventView::Exited(output) => match branch_of(output) {
                Ok(branch) => go_on(
                    config,
                    StepView::CheckRemote { branch },
                    ActionView::QueryRemote { branch },
                ),
                Err(e) => fail(Stage::EnsureRemote, e),
            },
            _ => fail(Stage::EnsureRemote, ErrorView::RepositoryAccess(Query::CurrentBranch)),
        },
        StepView::CheckRemote { branch } => match event {
            EventView::Exited(output) => if succeeded(output) {
                go_on(config, StepView::CollectDiff { branch }, ActionView::QueryDiff)
            } else {
                go_on(config, StepView::PushBranch { branch }, ActionView::Push { branch })
            },
            _ => fail(Stage::EnsureRemote, ErrorView::RepositoryAccess(Query::RemoteBranch)),
        },
        StepView::PushBranch { branch } => match event {
            EventView::Exited(output) => match push_verdict(output) {
                Ok(_) => go_on(config, StepView::CollectDiff { branch }, ActionView::QueryDiff),
                Err(e) => fail(Stage::EnsureRemote, e),
            },
            _ => fail(Stage::EnsureRemote, ErrorView::Publish(PublishErrorView::Push)),
        },
        StepView::CollectDiff { branch } => match event {
            EventView::Exited(output) => match diff_of(output) {
                Ok(diff) => go_on(
                    config,
                    StepView::CollectCommits { branch, diff },
                    ActionView::QueryCommits,
                ),
                Err(e) => fail(Stage::CollectDiff, e),
            },
            _ => fail(Stage::CollectDiff, ErrorView::RepositoryAccess(Query::Diff)),
        },
        StepView::CollectCommits { branch, diff } => match event {
            EventView::Exited(output) => match subjects_of(output) {
                Ok(commit_subjects) => go_on(
                    config,
                    StepView::ResolveIssue {
                        branch,
                        changes: ChangeSetView { diff_text: diff, commit_subjects },
                    },
                    ActionView::ResolveIssue,
                ),
                Err(e) => fail(Stage::CollectCommits, e),
            },
            _ => fail(Stage::CollectCommits, ErrorView::RepositoryAccess(Query::CommitSubjects)),
        },
        StepView::ResolveIssue { branch, changes } => match event {
            EventView::IssueResolved(issue) => go_on(
                config,
                StepView::GenerateDescription { branch },
                ActionView::Generate {
                    api_key: config.api_key,
                    request: request_for(prompt_of(changes, issue), config.model),
                },
            ),
            _ => fail(Stage::ResolveIssue, ErrorView::RepositoryAccess(Query::LinkedIssue)),
        },
        StepView::GenerateDescription { branch } => match event {
            EventView::Completed(description) => go_on(
                config,
                StepView::Publish,
                ActionView::Publish { pull_request: request_of(description, branch) },
            ),
            EventView::CompletionFailed(detail) => fail(
                Stage::GenerateDescription,
                ErrorView::Generation(detail),
            ),
            _ => fail(Stage::GenerateDescription, ErrorView::Generation(Seq::empty())),
        },
        StepView::Publish => publish_spec(event),
    }
}

/// What the machine makes of an event. A run that is done or has failed stays
/// as it is, whatever is reported.
pub open spec fn step_spec(state: StateView, event: EventView) -> Transition {
    match state {
        StateView::Start => match event {
            EventView::Configured { api_key: Some(key), model } => go_on(
                ConfigView { api_key: key, model },
                StepView::VerifyClean,
                ActionView::QueryStatus,
            ),
            _ => fail(Stage::Start, ErrorView::Configuration),
        },
        StateView::Running { config, step } => advance_spec(config, step, event),
        StateView::Done => finish(),
        StateView::Failed(failure) => fail(failure.stage, failure.error),
    }
}

/// The state and the first action of a run that has not begun.
pub fn begin() -> (r: (State, Action))
    ensures
        r.0@ == StateView::Start,
        r.1@ == ActionView::LoadConfiguration,
{
    (State::Start, Action::LoadConfiguration)
}

/// The run goes on with the given step.
fn go_on_with(config: Config, step: Step, action: Action) -> (r: (State, Action))
    ensures
        r.0@ == go_on(config@, step@, action@).state,
        r.1@ == go_on(config@, step@, action@).action,
{
    (State::Running { config, step }, action)
}

/// The run fails in the given stage.
fn fail_in(stage: Stage, error: Error) -> (r: (State, Action))
    ensures
        r.0@ == fail(stage, error@).state,
        r.1@ == fail(stage, error@).action,
{
    let code = error.exit_status();
    (State::Failed(Failure { stage, error }), Action::Exit { code })
}

/// The status listing arrived: go on where it is empty, stop where it names a
/// change.
fn verify_clean(config: Config, event: Event) -> (r: (State, Action))
    ensures
        r.0@ == advance_spec(config@, StepView::VerifyClean, event@).state,
        r.1@ == advance_spec(config@, StepView::VerifyClean, event@).action,
{
    match event {
        Event::Exited(output) => match check_uncommitted_changes(&output) {
            Ok(_) => go_on_with(config, Step::ResolveBranch, Action::QueryCurrentBranch),
            Err(e) => fail_in(Stage::VerifyClean, e),
        },
        _ => fail_in(Stage::VerifyClean, Error::RepositoryAccess(Query::Status)),
    }
}

/// The name of the branch arrived: look the branch up on the remote.
fn resolve_branch(config: Config, event: Event) -> (r: (State, Action))
    ensures
        r.0@ == advance_spec(config@, StepView::ResolveBranch, event@).state,
        r.1@ == advance_spec(config@, StepView::ResolveBranch, event@).action,
{
    match event {
        Event::Exited(output) => match get_current_branch(output) {
            Ok(branch) => {
                let wanted = branch.clone();
                go_on_with(
                    config,
                    Step::CheckRemote { branch },
                    Action::QueryRemote { branch: wanted },
                )
            },
            Err(e) => fail_in(Stage::EnsureRemote, e),
        },
        _ => fail_in(Stage::EnsureRemote, Error::RepositoryAccess(Query::CurrentBranch)),
    }
}

/// The remote answered: push the branch where the remote has none.
fn check_for_remote(config: Config, branch: String, event: Event) -> (r: (State, Action))
    ensures
        r.0@ == advance_spec(config@, StepView::CheckRemote { branch: branch@ }, event@).state,
        r.1@ == advance_spec(config@, StepView::CheckRemote { branch: branch@ }, event@).action,
{
    match event {
        Event::Exited(output) => {
            if has_remote(&output) {
                go_on_with(config, Step::CollectDiff { branch }, Action::QueryDiff)
            } else {
                let pushed = branch.clone();
                go_on_with(config, Step::PushBranch { branch }, Action::Push { branch: pushed })
            }
        },
        _ => fail_in(Stage::EnsureRemote, Error::RepositoryAccess(Query::RemoteBranch)),
    }
}

/// The push ended: collect the changes where it succeeded.
fn push_to_remote(config: Config, branch: String, event: Event) -> (r: (State, Action))
    ensures
        r.0@ == advance_spec(config@, StepView::PushBranch { branch: branch@ }, event@).state,
        r.1@ == advance_spec(config@, StepView::PushBranch { branch: branch@ }, event@).action,
{
    match event {
        Event::Exited(output) => match check_push(&output) {
            Ok(_) => go_on_with(config, Step::CollectDiff { branch }, Action::QueryDiff),
            Err(e) => fail_in(Stage::EnsureRemote, e),
        },
        _ => fail_in(Stage::EnsureRemote, Error::Publish(PublishError::Push)),
    }
}

/// The diff arrived: ask for the commit subjects.
fn collect_diff(config: Config, branch: String, event: Event) -> (r: (State, Action))
    ensures
        r.0@ == advance_spec(config@, StepView::CollectDiff { branch: branch@ }, event@).state,
        r.1@ == advance_spec(config@, StepView::CollectDiff { branch: branch@ }, event@).action,
{
    match event {
        Event::Exited(output) => match get_git_diff(&output) {
            Ok(diff) => go_on_with(
                config,
                Step::CollectCommits { branch, diff },
                Action::QueryCommits,
            ),
            Err(e) => fail_in(Stage::CollectDiff, e),
        },
        _ => fail_in(Stage::CollectDiff, Error::RepositoryAccess(Query::Diff)),
    }
}

/// The commit subjects arrived: the change set is complete; ask for the
/// linked issue.
fn collect_commits(config: Config, branch: String, diff: String, event: Event) -> (r: (
    State,
    Action,
))
    ensures
        r.0@ == advance_spec(
            config@,
            StepView::CollectCommits { branch: branch@, diff: diff@ },
            event@,
        ).state,
        r.1@ == advance_spec(
            config@,
            StepView::CollectCommits { branch: branch@, diff: diff@ },
            event@,
        ).action,
{
    match event {
        Event::Exited(output) => match get_commit_messages(&output) {
            Ok(commit_subjects) => go_on_with(
                config,
                Step::ResolveIssue {
                    branch,
                    changes: ChangeSet { diff_text: diff, commit_subjects },
                },
                Action::ResolveIssue,
            ),
            Err(e) => fail_in(Stage::CollectCommits, e),
        },
        _ => fail_in(Stage::CollectCommits, Error::RepositoryAccess(Query::CommitSubjects)),
    }
}

/// The linked issue arrived: ask the completion endpoint for a description.
fn resolve_issue(config: Config, branch: String, changes: ChangeSet, event: Event) -> (r: (
    State,
    Action,
))
    ensures
        r.0@ == advance_spec(
            config@,
            StepView::ResolveIssue { branch: branch@, changes: changes@ },
            event@,
        ).state,
        r.1@ == advance_spec(
            config@,
            StepView::ResolveIssue { branch: branch@, changes: changes@ },
            event@,
        ).action,
{
    match event {
        Event::IssueResolved(issue) => {
            let request = generate_pr_description(&changes, &issue, config.model.as_str());
            let api_key = config.api_key.clone();
            go_on_with(
                config,
                Step::GenerateDescription { branch },
                Action::Generate { api_key, request },
            )
        },
        _ => fail_in(Stage::ResolveIssue, Error::RepositoryAccess(Query::LinkedIssue)),
    }
}

/// The completion arrived: it is the body of the pull request, as it is.
fn generate_description(config: Config, branch: String, event: Event) -> (r: (State, Action))
    ensures
        r.0@ == advance_spec(
            config@,
            StepView::GenerateDescription { branch: branch@ },
            event@,
        ).state,
        r.1@ == advance_spec(
            config@,
            StepView::GenerateDescription { branch: branch@ },
            event@,
        ).action,
{
    match event {
        Event::Completed(description) => {
            let pull_request = PullRequestRequest::new(description, branch);
            go_on_with(config, Step::Publish, Action::Publish { pull_request })
        },
        Event::CompletionFailed(detail) => fail_in(
            Stage::GenerateDescription,
            Error::Generation(detail),
        ),
        _ => fail_in(Stage::GenerateDescription, Error::Generation(String::new())),
    }
}

/// The hosting platform answered: the run is done where the pull request was
/// created.
fn publish(event: Event) -> (r: (State, Action))
    ensures
        r.0@ == publish_spec(event@).state,
        r.1@ == publish_spec(event@).action,
{
    let verdict = match event {
        Event::Exited(output) => check_creation(&output),
        Event::Responded { status, body } => check_response(status, body),
        _ => Err(Error::Publish(PublishError::Create { code: None })),
    };
    match verdict {
        Ok(_) => (State::Done, Action::Exit { code: 0 }),
        Err(e) => fail_in(Stage::Publish, e),
    }
}

/// Takes the machine one step on: from a state and the event that the driver
/// reports to the next state and the action that the driver is to perform.
pub fn step(state: State, event: Event) -> (r: (State, Action))
    ensures
        r.0@ == step_spec(state@, event@).state,
        r.1@ == step_spec(state@, event@).action,
{
    match state {
        State::Start => match event {
            Event::Configured { api_key, model } => match Config::new(api_key, model) {
                Ok(config) => go_on_with(config, Step::VerifyClean, Action::QueryStatus),
                Err(e) => fail_in(Stage::Start, e),
            },
            _ => fail_in(Stage::Start, Error::Configuration),
        },
        State::Running { config, step } => match step {
            Step::VerifyClean => verify_clean(config, event),
            Step::ResolveBranch => resolve_branch(config, event),
            Step::CheckRemote { branch } => check_for_remote(config, branch, event),
            Step::PushBranch { branch } => push_to_remote(config, branch, event),
            Step::CollectDiff { branch } => collect_diff(config, branch, event),
            Step::CollectCommits { branch, diff } => collect_commits(config, branch, diff, event),
            Step::ResolveIssue { branch, changes } => resolve_issue(config, branch, changes, event),
            Step::GenerateDescription { branch } => generate_description(config, branch, event),
            Step::Publish => publish(event),
        },
        State::Done => (State::Done, Action::Exit { code: 0 }),
        State::Failed(failure) => fail_in(failure.stage, failure.error),
    }
}

/// Whether a run in this state has ended.
pub open spec fn is_final(state: StateView) -> bool {
    state is Done || state is Failed
}

/// How far a run has come. Every step of a run that has not ended adds to it.
pub open spec fn progress(state: StateView) -> nat {
    match state {
        StateView::Start => 0,
        StateView::Running { step, .. } => match step {
            StepView::VerifyClean => 1,
            StepView::ResolveBranch => 2,
            StepView::CheckRemote { .. } => 3,
            StepView::PushBranch { .. } => 4,
            StepView::CollectDiff { .. } => 5,
            StepView::CollectCommits { .. } => 6,
            StepView::ResolveIssue { .. } => 7,
            StepView::GenerateDescription { .. } => 8,
            StepView::Publish => 9,
        },
        StateView::Done => 10,
        StateView::Failed(_) => 10,
    }
}

/// The place of a stage in the order of the stages.
pub open spec fn stage_rank(stage: Stage) -> nat {
    match stage {
        Stage::Start => 0,
        Stage::VerifyClean => 1,
        Stage::EnsureRemote => 2,
        Stage::CollectDiff => 3,
        Stage::CollectCommits => 4,
        Stage::ResolveIssue => 5,
        Stage::GenerateDescription => 6,
        Stage::Publish => 7,
        Stage::Done => 8,
    }
}

/// The stage that a run is in; for a failed run, the stage that failed.
pub open spec fn stage_of(state: StateView) -> Stage {
    match state {
        StateView::Start => Stage::Start,
        StateView::Running { step, .. } => match step {
            StepView::VerifyClean => Stage::VerifyClean,
            StepView::ResolveBranch => Stage::EnsureRemote,
            StepView::CheckRemote { .. } => Stage::EnsureRemote,
            StepView::PushBranch { .. } => Stage::EnsureRemote,
            StepView::CollectDiff { .. } => Stage::CollectDiff,
            StepView::CollectCommits { .. } => Stage::CollectCommits,
            StepView::ResolveIssue { .. } => Stage::ResolveIssue,
            StepView::GenerateDescription { .. } => Stage::GenerateDescription,
            StepView::Publish => Stage::Publish,
        },
        StateView::Done => Stage::Done,
        StateView::Failed(failure) => failure.stage,
    }
}

/// Whether performing the action reaches out over the network.
pub open spec fn touches_network(action: ActionView) -> bool {
    action is QueryRemote || action is Push || action is Generate || action is Publish
}

/// Whether performing the action changes anything outside the process.
pub open spec fn changes_anything(action: ActionView) -> bool {
    action is Push || action is Publish
}

/// A step never leads back. A run that has ended stays as it is and asks only
/// for the exit; any other run comes further, by staying in its stage, by
/// entering the next one, or by failing in the stage it is in.
pub proof fn lemma_step_moves_forward(state: StateView, event: EventView)
    ensures
        is_final(state) ==> step_spec(state, event).state == state && step_spec(
            state,
            event,
        ).action is Exit,
        !is_final(state) ==> progress(step_spec(state, event).state) > progress(state),
        stage_rank(stage_of(step_spec(state, event).state)) == stage_rank(stage_of(state))
            || stage_rank(stage_of(step_spec(state, event).state)) == stage_rank(stage_of(state))
            + 1,
        step_spec(state, event).state matches StateView::Failed(failure) ==> failure.stage
            == stage_of(state),
{
}

/// The child process that performs an action, for the actions that one
/// performs.
pub open spec fn command_of(action: ActionView) -> Option<CommandView> {
    match action {
        ActionView::QueryStatus => Some(status_query()),
        ActionView::QueryCurrentBranch => Some(current_branch_query()),
        ActionView::QueryRemote { branch } => Some(remote_query(branch)),
        ActionView::Push { branch } => Some(push_order(branch)),
        ActionView::QueryDiff => Some(diff_query()),
        ActionView::QueryCommits => Some(log_query()),
        ActionView::Publish { pull_request } => Some(creation_order(pull_request)),
        _ => None,
    }
}

impl Action {
    /// The command line of the child process that performs this action, if
    /// one does.
    pub fn command(&self) -> (r: Option<Command>)
        ensures
            r matches Some(command) ==> command_of(self@) == Some(command@),
            r is None ==> command_of(self@) is None,
    {
        match self {
            Action::QueryStatus => Some(Command::status()),
            Action::QueryCurrentBranch => Some(Command::current_branch()),
            Action::QueryRemote { branch } => Some(Command::remote_heads(branch.as_str())),
            Action::Push { branch } => Some(Command::push(branch.as_str())),
            Action::QueryDiff => Some(Command::diff()),
            Action::QueryCommits => Some(Command::log()),
            Action::Publish { pull_request } => Some(create_pull_request(pull_request)),
            _ => None,
        }
    }

    /// Whether performing this action reaches out over the network.
    pub fn touches_network(&self) -> (r: bool)
        ensures
            r == touches_network(self@),
    {
        match self {
            Action::QueryRemote { .. } => true,
            Action::Push { .. } => true,
            Action::Generate { .. } => true,
            Action::Publish { .. } => true,
            _ => false,
        }
    }
}

impl State {
    /// The stage that the run is in; for a failed run, the stage that failed.
    pub fn stage(&self) -> (r: Stage)
        ensures
            r == stage_of(self@),
    {
        match self {
            State::Start => Stage::Start,
            State::Running { step, .. } => match step {
                Step::VerifyClean => Stage::VerifyClean,
                Step::ResolveBranch => Stage::EnsureRemote,
                Step::CheckRemote { .. } => Stage::EnsureRemote,
                Step::PushBranch { .. } => Stage::EnsureRemote,
                Step::CollectDiff { .. } => Stage::CollectDiff,
                Step::CollectCommits { .. } => Stage::CollectCommits,
                Step::ResolveIssue { .. } => Stage::ResolveIssue,
                Step::GenerateDescription { .. } => Stage::GenerateDescription,
                Step::Publish => Stage::Publish,
            },
            State::Done => Stage::Done,
            State::Failed(failure) => failure.stage,
        }
    }

    /// Whether the run has ended.
    pub fn is_final(&self) -> (r: bool)
        ensures
            r == is_final(self@),
    {
        match self {
            State::Done => true,
            State::Failed(_) => true,
            _ => false,
        }
    }
}

} // verus!
