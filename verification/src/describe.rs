//! The request that asks the completion endpoint for a description of the
//! changes.

use crate::probe::{ChangeSet, ChangeSetView};
use crate::text::{join, joined, option_text, texts};
use vstd::prelude::*;
use vstd::string::StringExecFns;
use vstd::utf8::encode_utf8;

verus! {

/// The most tokens that the endpoint may sample.
pub const MAX_TOKENS_TO_SAMPLE: usize = 1_000_000;

/// The marker that opens the human turn of a conversation.
pub open spec fn human_turn() -> Seq<char> {
    "\n\nHuman:"@
}

/// The marker that opens the assistant turn of a conversation.
pub open spec fn assistant_turn() -> Seq<char> {
    "\n\nAssistant:"@
}

/// `anthropic::HUMAN_PROMPT` is the constant text of the human-turn marker.
#[verifier::external_body]
fn human_prompt() -> (r: &'static str)
    ensures
        r@ == human_turn(),
{
    anthropic::HUMAN_PROMPT
}

/// `anthropic::AI_PROMPT` is the constant text of the assistant-turn marker.
#[verifier::external_body]
fn ai_prompt() -> (r: &'static str)
    ensures
        r@ == assistant_turn(),
{
    anthropic::AI_PROMPT
}

/// How the standard library's `Debug` formatting renders an optional text.
pub uninterp spec fn debug_text(value: Option<Seq<char>>) -> Seq<char>;

/// `Debug` formatting of an `Option<String>` depends on the value alone. An
/// absent value is rendered as the name of its variant; a present one as the
/// text in quotes with its special characters escaped, inside `Some(..)`, which
/// is not spelled out here.
#[verifier::external_body]
fn debug_rendering(value: &Option<String>) -> (r: String)
    ensures
        r@ == debug_text(option_text(*value)),
        value is None ==> r@ == "None"@,
{
    format!("{:?}", value)
}

/// The instruction for the model, around the diff, the commit subjects (one
/// per line) and the rendered linked issue.
pub open spec fn prompt_text(diff: Seq<char>, subjects: Seq<Seq<char>>, issue: Seq<char>) -> Seq<
    char,
> {
    "Generate a pull request description based on the following information:\nDiff: "@ + diff
        + "\nCommit messages: "@ + joined(subjects, seq!['\n']) + "\nLinked issue: "@ + issue
        + "\nPlease summarize the changes, their purpose, and any potential impact."@
}

/// The prompt for a change set and a linked issue.
pub open spec fn prompt_of(changes: ChangeSetView, issue: Option<Seq<char>>) -> Seq<char> {
    prompt_text(changes.diff_text, changes.commit_subjects, debug_text(issue))
}

/// Builds the prompt from the diff, the commit subjects and the linked issue
/// as it is to be shown.
pub fn compose_prompt(diff: &str, commit_messages: &Vec<String>, issue: &str) -> (r: String)
    ensures
        r@ == prompt_text(diff@, texts(commit_messages@), issue@),
{
    let subjects = join(commit_messages, "\n");
    proof {
        reveal_strlit("\n");
        assert("\n"@ =~= seq!['\n']);
    }
    let mut prompt =
        "Generate a pull request description based on the following information:\nDiff: ".to_owned();
    prompt.append(diff);
    prompt.append("\nCommit messages: ");
    prompt.append(subjects.as_str());
    prompt.append("\nLinked issue: ");
    prompt.append(issue);
    prompt.append("\nPlease summarize the changes, their purpose, and any potential impact.");
    prompt
}

/// Builds the prompt for a change set. The linked issue is shown even when
/// there is none.
pub fn build_prompt(changes: &ChangeSet, issue: &Option<String>) -> (r: String)
    ensures
        r@ == prompt_of(changes@, option_text(*issue)),
{
    let shown = debug_rendering(issue);
    compose_prompt(changes.diff_text.as_str(), &changes.commit_subjects, shown.as_str())
}

/// What is sent to the completion endpoint.
#[derive(Clone, Debug, PartialEq, Eq)]
pub struct CompletionRequest {
    pub prompt: String,
    pub model: String,
    pub max_tokens_to_sample: usize,
    pub stop_sequences: Vec<String>,
    pub stream: bool,
}

/// A [`CompletionRequest`] as contracts speak of it.
pub struct CompletionRequestView {
    pub prompt: Seq<char>,
    pub model: Seq<char>,
    pub max_tokens_to_sample: usize,
    pub stop_sequences: Seq<Seq<char>>,
    pub stream: bool,
}

impl View for CompletionRequest {
    type V = CompletionRequestView;

    open spec fn view(&self) -> CompletionRequestView {
        CompletionRequestView {
            prompt: self.prompt@,
            model: self.model@,
            max_tokens_to_sample: self.max_tokens_to_sample,
            stop_sequences: texts(self.stop_sequences@),
            stream: self.stream,
        }
    }
}

/// A prompt as one human turn, followed by the opening of the assistant turn.
pub open spec fn framed(prompt: Seq<char>) -> Seq<char> {
    human_turn() + prompt + "\n"@ + assistant_turn()
}

/// The request for a prompt: the prompt framed as a conversation, the model
/// that the run is configured with, no streaming, the fixed token budget, and
/// the human-turn marker as the only stop sequence.
pub open spec fn request_for(prompt: Seq<char>, model: Seq<char>) -> CompletionRequestView {
    CompletionRequestView {
        prompt: framed(prompt),
        model,
        max_tokens_to_sample: MAX_TOKENS_TO_SAMPLE,
        stop_sequences: seq![human_turn()],
        stream: false,
    }
}

/// Frames a prompt as a conversation that the model is to continue.
pub fn frame_prompt(prompt: &str) -> (r: String)
    ensures
        r@ == framed(prompt@),
{
    let mut text = human_prompt().to_owned();
    text.append(prompt);
    text.append("\n");
    text.append(ai_prompt());
    text
}

/// Builds the request that puts a prompt to a model.
pub fn completion_request(prompt: &str, model: &str) -> (r: CompletionRequest)
    ensures
        r@ == request_for(prompt@, model@),
{
    let mut stop_sequences: Vec<String> = Vec::new();
    stop_sequences.push(human_prompt().to_owned());
    assert(texts(stop_sequences@) =~= seq![human_turn()]);
    CompletionRequest {
        prompt: frame_prompt(prompt),
        model: model.to_owned(),
        max_tokens_to_sample: MAX_TOKENS_TO_SAMPLE,
        stop_sequences,
        stream: false,
    }
}

/// Builds the request that asks a model for a description of the change set.
pub fn generate_pr_description(changes: &ChangeSet, issue: &Option<String>, model: &str) -> (r:
    CompletionRequest)
    ensures
        r@ == request_for(prompt_of(changes@, option_text(*issue)), model@),
{
    let prompt = build_prompt(changes, issue);
    completion_request(prompt.as_str(), model)
}

/// The prompt is a function of the diff, the commit subjects and the linked
/// issue: prompts built for equal values are the same text, byte for byte.
pub proof fn lemma_prompt_is_determined(
    first_changes: ChangeSet,
    first_issue: Option<String>,
    first_prompt: String,
    second_changes: ChangeSet,
    second_issue: Option<String>,
    second_prompt: String,
)
    requires
        first_changes@ == second_changes@,
        option_text(first_issue) == option_text(second_issue),
        first_prompt@ == prompt_of(first_changes@, option_text(first_issue)),
        second_prompt@ == prompt_of(second_changes@, option_text(second_issue)),
    ensures
        first_prompt@ == second_prompt@,
        encode_utf8(first_prompt@) == encode_utf8(second_prompt@),
{
}

} // verus!
