use pullrequest::describe::{
    build_prompt, completion_request, compose_prompt, frame_prompt, generate_pr_description,
    CompletionRequest, MAX_TOKENS_TO_SAMPLE,
};
use pullrequest::probe::ChangeSet;

fn changes() -> ChangeSet {
    ChangeSet {
        diff_text: "diff --git a/x b/x...".to_string(),
        commit_subjects: vec!["fix bug".to_string(), "add test".to_string()],
    }
}

#[test]
fn the_fixed_token_budget() {
    assert_eq!(MAX_TOKENS_TO_SAMPLE, 1_000_000);
}

#[test]
fn the_prompt_holds_the_three_values_in_the_instruction() {
    assert_eq!(
        compose_prompt("DIFF", &vec!["one".to_string(), "two".to_string()], "None"),
        "Generate a pull request description based on the following information:\n\
         Diff: DIFF\n\
         Commit messages: one\ntwo\n\
         Linked issue: None\n\
         Please summarize the changes, their purpose, and any potential impact."
    );
}

#[test]
fn the_prompt_of_an_empty_change_set() {
    assert_eq!(
        compose_prompt("", &Vec::new(), ""),
        "Generate a pull request description based on the following information:\n\
         Diff: \nCommit messages: \nLinked issue: \n\
         Please summarize the changes, their purpose, and any potential impact."
    );
}

#[test]
fn an_absent_issue_is_shown_as_none() {
    let prompt = build_prompt(&changes(), &None);
    assert_eq!(
        prompt,
        "Generate a pull request description based on the following information:\n\
         Diff: diff --git a/x b/x...\n\
         Commit messages: fix bug\nadd test\n\
         Linked issue: None\n\
         Please summarize the changes, their purpose, and any potential impact."
    );
}

#[test]
fn a_present_issue_is_shown_quoted_and_escaped() {
    let prompt = build_prompt(&changes(), &Some("#12 \"crash\"\n".to_string()));
    assert!(prompt.contains("\nLinked issue: Some(\"#12 \\\"crash\\\"\\n\")\n"));
}

#[test]
fn the_prompt_is_the_same_for_the_same_values() {
    let issue = Some("ISSUE-7".to_string());
    let first = build_prompt(&changes(), &issue);
    let second = build_prompt(&changes().clone(), &issue.clone());
    assert_eq!(first.as_bytes(), second.as_bytes());
}

#[test]
fn the_prompt_differs_where_a_value_differs() {
    let mut other = changes();
    other.commit_subjects.push("third".to_string());
    assert_ne!(build_prompt(&changes(), &None), build_prompt(&other, &None));
    assert_ne!(build_prompt(&changes(), &None), build_prompt(&changes(), &Some(String::new())));
}

#[test]
fn a_framed_prompt_is_a_human_turn_and_an_open_assistant_turn() {
    assert_eq!(frame_prompt("Hello"), "\n\nHuman:Hello\n\n\nAssistant:");
    assert_eq!(frame_prompt(""), "\n\nHuman:\n\n\nAssistant:");
}

#[test]
fn the_request_for_a_prompt() {
    assert_eq!(
        completion_request("Hello", "model-2024"),
        CompletionRequest {
            prompt: "\n\nHuman:Hello\n\n\nAssistant:".to_string(),
            model: "model-2024".to_string(),
            max_tokens_to_sample: 1_000_000,
            stop_sequences: vec!["\n\nHuman:".to_string()],
            stream: false,
        }
    );
}

#[test]
fn the_request_for_a_change_set() {
    let request = generate_pr_description(&changes(), &None, "model-2024");
    assert_eq!(request, completion_request(&build_prompt(&changes(), &None), "model-2024"));
    assert_eq!(request.model, "model-2024");
    assert!(request.prompt.contains("diff --git a/x b/x..."));
    assert!(request.prompt.contains("fix bug\nadd test"));
    assert!(request.prompt.contains("None"));
    assert!(!request.stream);
}
