use pullrequest::config::Config;
use pullrequest::describe::{generate_pr_description, CompletionRequest};
use pullrequest::error::{Error, PublishError, Query};
use pullrequest::orchestrator::{begin, step, Action, Event, Failure, Stage, State, Step};
use pullrequest::trace::replay;
use pullrequest::probe::{ChangeSet, Command, CommandOutput};
use pullrequest::publish::PullRequestRequest;

fn exited(code: i32, stdout: &str) -> Event {
    Event::Exited(CommandOutput { code: Some(code), stdout: stdout.as_bytes().to_vec() })
}

fn configured() -> Event {
    Event::Configured { api_key: Some("key".to_string()), model: "model-2024".to_string() }
}

fn config() -> Config {
    Config { api_key: "key".to_string(), model: "model-2024".to_string() }
}

fn running(step: Step) -> State {
    State::Running { config: config(), step }
}

fn failed(stage: Stage, error: Error) -> State {
    State::Failed(Failure { stage, error })
}

fn changes() -> ChangeSet {
    ChangeSet {
        diff_text: "diff --git a/x b/x...".to_string(),
        commit_subjects: vec!["fix bug".to_string(), "add test".to_string()],
    }
}

fn request() -> CompletionRequest {
    generate_pr_description(&changes(), &None, "model-2024")
}

fn pull_request() -> PullRequestRequest {
    PullRequestRequest {
        title: "Automated Pull Request".to_string(),
        body: "Summary: ...".to_string(),
        base_branch: "master".to_string(),
        head_branch: "topic".to_string(),
    }
}

/// Every kind of event, for the transitions that must hold whatever comes.
fn every_kind_of_event() -> Vec<Event> {
    vec![
        configured(),
        Event::Configured { api_key: None, model: "model-2024".to_string() },
        exited(0, ""),
        exited(0, "text\n"),
        exited(1, ""),
        Event::Exited(CommandOutput { code: None, stdout: Vec::new() }),
        Event::NotLaunched,
        Event::IssueResolved(None),
        Event::IssueResolved(Some("7".to_string())),
        Event::Completed("Summary: ...".to_string()),
        Event::CompletionFailed("timeout".to_string()),
        Event::Responded { status: 201, body: String::new() },
        Event::Responded { status: 422, body: "no".to_string() },
    ]
}

fn network_actions(actions: &[Action]) -> usize {
    actions.iter().filter(|action| action.touches_network()).count()
}

fn publish_actions(actions: &[Action]) -> usize {
    actions.iter().filter(|action| matches!(action, Action::Publish { .. })).count()
}

#[test]
fn a_run_begins_by_loading_the_configuration() {
    assert_eq!(begin(), (State::Start, Action::LoadConfiguration));
    assert_eq!(replay(Vec::new()), (State::Start, vec![Action::LoadConfiguration]));
}

#[test]
fn with_a_key_the_run_verifies_the_working_tree() {
    assert_eq!(step(State::Start, configured()), (running(Step::VerifyClean), Action::QueryStatus));
}

#[test]
fn without_a_key_the_run_fails_at_the_start() {
    assert_eq!(
        step(State::Start, Event::Configured { api_key: None, model: "model-2024".to_string() }),
        (failed(Stage::Start, Error::Configuration), Action::Exit { code: 1 })
    );
    assert_eq!(
        step(State::Start, exited(0, "")),
        (failed(Stage::Start, Error::Configuration), Action::Exit { code: 1 })
    );
}

#[test]
fn scenario_dirty_working_tree() {
    let (state, actions) = replay(vec![configured(), exited(0, " M src/main.rs\n")]);
    assert_eq!(state, failed(Stage::VerifyClean, Error::UserVisibleAbort));
    assert_eq!(
        actions,
        vec![Action::LoadConfiguration, Action::QueryStatus, Action::Exit { code: 1 }]
    );
    match state {
        State::Failed(failure) => {
            assert!(failure.error.message().contains("uncommitted changes"));
            assert_eq!(failure.error.exit_status(), 1);
        },
        _ => unreachable!(),
    }
    assert_eq!(network_actions(&actions), 0);
    assert_eq!(publish_actions(&actions), 0);
}

#[test]
fn a_dirty_working_tree_stops_the_run_whatever_follows() {
    for later in every_kind_of_event() {
        let (state, actions) =
            replay(vec![configured(), exited(0, "?? new-file\n"), later.clone(), later]);
        assert_eq!(state, failed(Stage::VerifyClean, Error::UserVisibleAbort));
        assert_eq!(state.stage(), Stage::VerifyClean);
        assert_eq!(network_actions(&actions), 0);
        assert_eq!(actions[2..], vec![Action::Exit { code: 1 }; 3]);
    }
}

#[test]
fn a_failed_status_query_stops_the_run() {
    assert_eq!(
        step(running(Step::VerifyClean), exited(128, "")),
        (failed(Stage::VerifyClean, Error::RepositoryAccess(Query::Status)), Action::Exit { code: 1 })
    );
    assert_eq!(
        step(running(Step::VerifyClean), Event::NotLaunched),
        (failed(Stage::VerifyClean, Error::RepositoryAccess(Query::Status)), Action::Exit { code: 1 })
    );
}

#[test]
fn a_clean_working_tree_leads_to_the_branch_query() {
    assert_eq!(
        step(running(Step::VerifyClean), exited(0, "")),
        (running(Step::ResolveBranch), Action::QueryCurrentBranch)
    );
}

#[test]
fn the_branch_is_looked_up_on_the_remote() {
    assert_eq!(
        step(running(Step::ResolveBranch), exited(0, "topic\n")),
        (
            running(Step::CheckRemote { branch: "topic".to_string() }),
            Action::QueryRemote { branch: "topic".to_string() }
        )
    );
}

#[test]
fn a_failed_branch_query_stops_the_run() {
    let expected = (
        failed(Stage::EnsureRemote, Error::RepositoryAccess(Query::CurrentBranch)),
        Action::Exit { code: 1 },
    );
    assert_eq!(step(running(Step::ResolveBranch), exited(128, "")), expected);
    assert_eq!(step(running(Step::ResolveBranch), Event::NotLaunched), expected);
    assert_eq!(
        step(
            running(Step::ResolveBranch),
            Event::Exited(CommandOutput { code: Some(0), stdout: vec![0xff] })
        ),
        expected
    );
}

#[test]
fn a_branch_on_the_remote_is_not_pushed() {
    assert_eq!(
        step(running(Step::CheckRemote { branch: "topic".to_string() }), exited(0, "ref\n")),
        (running(Step::CollectDiff { branch: "topic".to_string() }), Action::QueryDiff)
    );
}

#[test]
fn a_branch_that_the_remote_lacks_is_pushed() {
    assert_eq!(
        step(running(Step::CheckRemote { branch: "topic".to_string() }), exited(2, "")),
        (
            running(Step::PushBranch { branch: "topic".to_string() }),
            Action::Push { branch: "topic".to_string() }
        )
    );
}

#[test]
fn a_remote_lookup_that_did_not_start_stops_the_run() {
    assert_eq!(
        step(running(Step::CheckRemote { branch: "topic".to_string() }), Event::NotLaunched),
        (
            failed(Stage::EnsureRemote, Error::RepositoryAccess(Query::RemoteBranch)),
            Action::Exit { code: 1 }
        )
    );
}

#[test]
fn a_push_that_succeeds_leads_to_the_diff() {
    assert_eq!(
        step(running(Step::PushBranch { branch: "topic".to_string() }), exited(0, "")),
        (running(Step::CollectDiff { branch: "topic".to_string() }), Action::QueryDiff)
    );
}

#[test]
fn a_push_that_fails_stops_the_run() {
    let expected =
        (failed(Stage::EnsureRemote, Error::Publish(PublishError::Push)), Action::Exit { code: 1 });
    assert_eq!(
        step(running(Step::PushBranch { branch: "topic".to_string() }), exited(1, "")),
        expected
    );
    assert_eq!(
        step(running(Step::PushBranch { branch: "topic".to_string() }), Event::NotLaunched),
        expected
    );
}

#[test]
fn the_diff_leads_to_the_commit_subjects() {
    assert_eq!(
        step(running(Step::CollectDiff { branch: "topic".to_string() }), exited(0, "DIFF")),
        (
            running(Step::CollectCommits { branch: "topic".to_string(), diff: "DIFF".to_string() }),
            Action::QueryCommits
        )
    );
}

#[test]
fn a_failed_diff_stops_the_run() {
    assert_eq!(
        step(running(Step::CollectDiff { branch: "topic".to_string() }), exited(1, "")),
        (failed(Stage::CollectDiff, Error::RepositoryAccess(Query::Diff)), Action::Exit { code: 1 })
    );
}

#[test]
fn the_commit_subjects_complete_the_change_set() {
    assert_eq!(
        step(
            running(Step::CollectCommits {
                branch: "topic".to_string(),
                diff: "diff --git a/x b/x...".to_string()
            }),
            exited(0, "fix bug\nadd test\n")
        ),
        (
            running(Step::ResolveIssue { branch: "topic".to_string(), changes: changes() }),
            Action::ResolveIssue
        )
    );
}

#[test]
fn a_failed_log_stops_the_run() {
    assert_eq!(
        step(
            running(Step::CollectCommits { branch: "topic".to_string(), diff: String::new() }),
            Event::NotLaunched
        ),
        (
            failed(Stage::CollectCommits, Error::RepositoryAccess(Query::CommitSubjects)),
            Action::Exit { code: 1 }
        )
    );
}

#[test]
fn the_linked_issue_leads_to_the_completion_request() {
    assert_eq!(
        step(
            running(Step::ResolveIssue { branch: "topic".to_string(), changes: changes() }),
            Event::IssueResolved(None)
        ),
        (
            running(Step::GenerateDescription { branch: "topic".to_string() }),
            Action::Generate { api_key: "key".to_string(), request: request() }
        )
    );
}

#[test]
fn anything_but_an_answer_of_the_issue_linker_stops_the_run() {
    assert_eq!(
        step(
            running(Step::ResolveIssue { branch: "topic".to_string(), changes: changes() }),
            Event::NotLaunched
        ),
        (
            failed(Stage::ResolveIssue, Error::RepositoryAccess(Query::LinkedIssue)),
            Action::Exit { code: 1 }
        )
    );
}

#[test]
fn the_completion_is_published_as_it_is() {
    assert_eq!(
        step(
            running(Step::GenerateDescription { branch: "topic".to_string() }),
            Event::Completed("Summary: ...".to_string())
        ),
        (running(Step::Publish), Action::Publish { pull_request: pull_request() })
    );
}

#[test]
fn a_failed_completion_stops_the_run() {
    assert_eq!(
        step(
            running(Step::GenerateDescription { branch: "topic".to_string() }),
            Event::CompletionFailed("overloaded_error: busy".to_string())
        ),
        (
            failed(
                Stage::GenerateDescription,
                Error::Generation("overloaded_error: busy".to_string())
            ),
            Action::Exit { code: 1 }
        )
    );
    assert_eq!(
        step(running(Step::GenerateDescription { branch: "topic".to_string() }), exited(0, "")),
        (failed(Stage::GenerateDescription, Error::Generation(String::new())), Action::Exit { code: 1 })
    );
}

#[test]
fn a_created_pull_request_ends_the_run() {
    assert_eq!(step(running(Step::Publish), exited(0, "url\n")), (State::Done, Action::Exit { code: 0 }));
    assert_eq!(
        step(running(Step::Publish), Event::Responded { status: 201, body: "{}".to_string() }),
        (State::Done, Action::Exit { code: 0 })
    );
}

#[test]
fn a_creating_command_that_fails_gives_its_exit_status_to_the_process() {
    assert_eq!(
        step(running(Step::Publish), exited(4, "")),
        (
            failed(Stage::Publish, Error::Publish(PublishError::Create { code: Some(4) })),
            Action::Exit { code: 4 }
        )
    );
    assert_eq!(
        step(running(Step::Publish), Event::NotLaunched),
        (
            failed(Stage::Publish, Error::Publish(PublishError::Create { code: None })),
            Action::Exit { code: 1 }
        )
    );
}

#[test]
fn scenario_rejected_by_the_platform() {
    let body = "{\"message\":\"Validation Failed\"}".to_string();
    let (state, action) =
        step(running(Step::Publish), Event::Responded { status: 422, body: body.clone() });
    assert_eq!(
        state,
        failed(Stage::Publish, Error::Publish(PublishError::Rejected { status: 422, body }))
    );
    match (&state, action) {
        (State::Failed(failure), Action::Exit { code }) => {
            assert_ne!(code, 0);
            assert_eq!(code, failure.error.exit_status());
            assert!(failure.error.message().contains("Validation Failed"));
        },
        _ => unreachable!(),
    }
    assert!(state.is_final());
}

#[test]
fn scenario_branch_already_on_the_remote() {
    let (state, actions) = replay(vec![
        configured(),
        exited(0, ""),
        exited(0, "topic\n"),
        exited(0, "abc\trefs/heads/topic\n"),
        exited(0, "diff --git a/x b/x..."),
        exited(0, "fix bug\nadd test"),
        Event::IssueResolved(None),
        Event::Completed("Summary: ...".to_string()),
        exited(0, "https://example.test/pull/1\n"),
    ]);
    assert_eq!(state, State::Done);
    assert_eq!(
        actions,
        vec![
            Action::LoadConfiguration,
            Action::QueryStatus,
            Action::QueryCurrentBranch,
            Action::QueryRemote { branch: "topic".to_string() },
            Action::QueryDiff,
            Action::QueryCommits,
            Action::ResolveIssue,
            Action::Generate { api_key: "key".to_string(), request: request() },
            Action::Publish { pull_request: pull_request() },
            Action::Exit { code: 0 },
        ]
    );
    match &actions[7] {
        Action::Generate { request, .. } => {
            assert!(request.prompt.contains("diff --git a/x b/x..."));
            assert!(request.prompt.contains("fix bug\nadd test"));
            assert!(request.prompt.contains("Linked issue: None"));
            assert_eq!(request.model, "model-2024");
        },
        _ => unreachable!(),
    }
    match &actions[8] {
        Action::Publish { pull_request } => {
            assert_eq!(pull_request.body, "Summary: ...");
            assert_eq!(pull_request.base_branch, "master");
            assert_eq!(pull_request.title, "Automated Pull Request");
        },
        _ => unreachable!(),
    }
    assert_eq!(publish_actions(&actions), 1);
}

#[test]
fn scenario_branch_not_yet_on_the_remote() {
    let (state, actions) = replay(vec![
        configured(),
        exited(0, ""),
        exited(0, "topic\n"),
        exited(2, ""),
        exited(0, ""),
        exited(0, "DIFF"),
    ]);
    assert_eq!(
        state,
        running(Step::CollectCommits { branch: "topic".to_string(), diff: "DIFF".to_string() })
    );
    let pushes: Vec<usize> = (0..actions.len())
        .filter(|&at| matches!(actions[at], Action::Push { .. }))
        .collect();
    assert_eq!(pushes, vec![4]);
    assert_eq!(actions[4], Action::Push { branch: "topic".to_string() });
    assert_eq!(
        actions[4].command(),
        Some(Command {
            program: "git".to_string(),
            args: vec!["push".to_string(), "origin".to_string(), "topic".to_string()],
        })
    );
    let first_collection = (0..actions.len())
        .find(|&at| matches!(actions[at], Action::QueryDiff | Action::QueryCommits))
        .unwrap();
    assert!(pushes[0] < first_collection);
}

#[test]
fn a_run_that_has_ended_stays_as_it_is() {
    for event in every_kind_of_event() {
        assert_eq!(step(State::Done, event.clone()), (State::Done, Action::Exit { code: 0 }));
        let failure = failed(Stage::Publish, Error::Publish(PublishError::Create { code: Some(3) }));
        assert_eq!(step(failure.clone(), event), (failure, Action::Exit { code: 3 }));
    }
}

#[test]
fn every_run_has_ended_after_ten_events() {
    for event in every_kind_of_event() {
        let (state, actions) = replay(vec![event; 10]);
        assert!(state.is_final());
        assert_eq!(actions.len(), 11);
        assert!(publish_actions(&actions) <= 1);
    }
}

#[test]
fn nothing_reaches_out_before_the_tree_is_found_clean() {
    for second in every_kind_of_event() {
        for third in every_kind_of_event() {
            let clean = second == exited(0, "");
            let (_, actions) = replay(vec![configured(), second.clone(), third, exited(0, "")]);
            if !clean {
                assert_eq!(network_actions(&actions), 0);
            }
        }
    }
}

#[test]
fn the_stage_of_each_state() {
    assert_eq!(State::Start.stage(), Stage::Start);
    assert_eq!(running(Step::VerifyClean).stage(), Stage::VerifyClean);
    assert_eq!(running(Step::ResolveBranch).stage(), Stage::EnsureRemote);
    assert_eq!(running(Step::CheckRemote { branch: String::new() }).stage(), Stage::EnsureRemote);
    assert_eq!(running(Step::PushBranch { branch: String::new() }).stage(), Stage::EnsureRemote);
    assert_eq!(running(Step::CollectDiff { branch: String::new() }).stage(), Stage::CollectDiff);
    assert_eq!(
        running(Step::CollectCommits { branch: String::new(), diff: String::new() }).stage(),
        Stage::CollectCommits
    );
    assert_eq!(
        running(Step::ResolveIssue { branch: String::new(), changes: changes() }).stage(),
        Stage::ResolveIssue
    );
    assert_eq!(
        running(Step::GenerateDescription { branch: String::new() }).stage(),
        Stage::GenerateDescription
    );
    assert_eq!(running(Step::Publish).stage(), Stage::Publish);
    assert_eq!(State::Done.stage(), Stage::Done);
    assert_eq!(failed(Stage::CollectDiff, Error::Configuration).stage(), Stage::CollectDiff);
    assert!(!State::Start.is_final());
    assert!(!running(Step::Publish).is_final());
    assert!(State::Done.is_final());
}

#[test]
fn the_command_of_each_action() {
    assert_eq!(Action::LoadConfiguration.command(), None);
    assert_eq!(Action::ResolveIssue.command(), None);
    assert_eq!(Action::Exit { code: 0 }.command(), None);
    assert_eq!(
        Action::Generate { api_key: String::new(), request: request() }.command(),
        None
    );
    assert_eq!(Action::QueryStatus.command(), Some(Command::status()));
    assert_eq!(Action::QueryCurrentBranch.command(), Some(Command::current_branch()));
    assert_eq!(
        Action::QueryRemote { branch: "b".to_string() }.command(),
        Some(Command::remote_heads("b"))
    );
    assert_eq!(Action::Push { branch: "b".to_string() }.command(), Some(Command::push("b")));
    assert_eq!(Action::QueryDiff.command(), Some(Command::diff()));
    assert_eq!(Action::QueryCommits.command(), Some(Command::log()));
    let command = Action::Publish { pull_request: pull_request() }.command().unwrap();
    assert_eq!(command.program, "gh");
    assert_eq!(command.args[5], "Summary: ...");
}

#[test]
fn the_actions_that_reach_out_over_the_network() {
    assert!(!Action::LoadConfiguration.touches_network());
    assert!(!Action::QueryStatus.touches_network());
    assert!(!Action::QueryCurrentBranch.touches_network());
    assert!(!Action::QueryDiff.touches_network());
    assert!(!Action::QueryCommits.touches_network());
    assert!(!Action::ResolveIssue.touches_network());
    assert!(!Action::Exit { code: 1 }.touches_network());
    assert!(Action::QueryRemote { branch: String::new() }.touches_network());
    assert!(Action::Push { branch: String::new() }.touches_network());
    assert!(Action::Generate { api_key: String::new(), request: request() }.touches_network());
    assert!(Action::Publish { pull_request: pull_request() }.touches_network());
}
