//! The questions put to the local repository: the command line of each, and
//! what its output means.

use crate::decode::{decode_lossy, lossy_text, strict_text};
use crate::error::{outcome, Error, ErrorView, Query};
use crate::text::{lines_of, split_lines, texts, trim, trimmed};
use vstd::prelude::*;
use vstd::string::StringExecFns;
use vstd::utf8::{decode_utf8, valid_utf8};

verus! {

/// The remote that branches are pushed to and looked up on.
pub const REMOTE: &'static str = "origin";

/// The branch that a pull request targets.
pub const BASE_BRANCH: &'static str = "master";

/// The reference that the diff and the commit history are taken against.
pub open spec fn base_ref() -> Seq<char> {
    REMOTE@ + "/"@ + BASE_BRANCH@
}

/// A program and its arguments.
#[derive(Clone, Debug, PartialEq, Eq)]
pub struct Command {
    pub program: String,
    pub args: Vec<String>,
}

/// A [`Command`] as contracts speak of it.
pub struct CommandView {
    pub program: Seq<char>,
    pub args: Seq<Seq<char>>,
}

impl View for Command {
    type V = CommandView;

    open spec fn view(&self) -> CommandView {
        CommandView { program: self.program@, args: texts(self.args@) }
    }
}

/// What a child process left behind: its exit status, if it exited by itself,
/// and what it wrote to its standard output.
#[derive(Clone, Debug, PartialEq, Eq)]
pub struct CommandOutput {
    pub code: Option<i32>,
    pub stdout: Vec<u8>,
}

/// A [`CommandOutput`] as contracts speak of it.
pub struct CommandOutputView {
    pub code: Option<i32>,
    pub stdout: Seq<u8>,
}

impl View for CommandOutput {
    type V = CommandOutputView;

    open spec fn view(&self) -> CommandOutputView {
        CommandOutputView { code: self.code, stdout: self.stdout@ }
    }
}

/// A process succeeded when it exited with status 0.
pub open spec fn succeeded(output: CommandOutputView) -> bool {
    output.code == Some(0i32)
}

impl CommandOutput {
    /// Whether the process exited with status 0.
    pub fn success(&self) -> (r: bool)
        ensures
            r == succeeded(self@),
    {
        match self.code {
            Some(code) => code == 0,
            None => false,
        }
    }
}

/// A call of the version-control program with the given arguments.
pub open spec fn git(args: Seq<Seq<char>>) -> CommandView {
    CommandView { program: "git"@, args }
}

/// The query that lists the uncommitted changes, one per line.
pub open spec fn status_query() -> CommandView {
    git(seq!["status"@, "--porcelain"@])
}

/// The query that names the branch that is checked out.
pub open spec fn current_branch_query() -> CommandView {
    git(seq!["rev-parse"@, "--abbrev-ref"@, "HEAD"@])
}

/// The query that asks the remote for the branch, and fails when the remote
/// has none of that name.
pub open spec fn remote_query(branch: Seq<char>) -> CommandView {
    git(seq!["ls-remote"@, "--exit-code"@, "--heads"@, REMOTE@, branch])
}

/// The command that pushes the branch to the remote.
pub open spec fn push_order(branch: Seq<char>) -> CommandView {
    git(seq!["push"@, REMOTE@, branch])
}

/// The query that shows the changes against the base reference.
pub open spec fn diff_query() -> CommandView {
    git(seq!["diff"@, base_ref()])
}

/// The query that lists the subject line of each commit since the base
/// reference, the newest first.
pub open spec fn log_query() -> CommandView {
    git(seq!["log"@, base_ref() + "..HEAD"@, "--pretty=format:%s"@])
}

/// The base reference as a string.
pub fn base_reference() -> (r: String)
    ensures
        r@ == base_ref(),
{
    REMOTE.to_owned().concat("/").concat(BASE_BRANCH)
}

impl Command {
    /// A call of the version-control program.
    fn git(args: Vec<String>) -> (r: Command)
        ensures
            r@ == git(texts(args@)),
    {
        Command { program: "git".to_owned(), args }
    }

    /// Lists the uncommitted changes, one per line.
    pub fn status() -> (r: Command)
        ensures
            r@ == status_query(),
    {
        let mut args: Vec<String> = Vec::new();
        args.push("status".to_owned());
        args.push("--porcelain".to_owned());
        assert(texts(args@) =~= seq!["status"@, "--porcelain"@]);
        Command::git(args)
    }

    /// Names the branch that is checked out.
    pub fn current_branch() -> (r: Command)
        ensures
            r@ == current_branch_query(),
    {
        let mut args: Vec<String> = Vec::new();
        args.push("rev-parse".to_owned());
        args.push("--abbrev-ref".to_owned());
        args.push("HEAD".to_owned());
        assert(texts(args@) =~= seq!["rev-parse"@, "--abbrev-ref"@, "HEAD"@]);
        Command::git(args)
    }

    /// Asks the remote for the branch; the command fails when it has none.
    pub fn remote_heads(branch: &str) -> (r: Command)
        ensures
            r@ == remote_query(branch@),
    {
        let mut args: Vec<String> = Vec::new();
        args.push("ls-remote".to_owned());
        args.push("--exit-code".to_owned());
        args.push("--heads".to_owned());
        args.push(REMOTE.to_owned());
        args.push(branch.to_owned());
        assert(texts(args@) =~= seq!["ls-remote"@, "--exit-code"@, "--heads"@, REMOTE@, branch@]);
        Command::git(args)
    }

    /// Pushes the branch to the remote.
    pub fn push(branch: &str) -> (r: Command)
        ensures
            r@ == push_order(branch@),
    {
        let mut args: Vec<String> = Vec::new();
        args.push("push".to_owned());
        args.push(REMOTE.to_owned());
        args.push(branch.to_owned());
        assert(texts(args@) =~= seq!["push"@, REMOTE@, branch@]);
        Command::git(args)
    }

    /// Shows the changes against the base reference.
    pub fn diff() -> (r: Command)
        ensures
            r@ == diff_query(),
    {
        let mut args: Vec<String> = Vec::new();
        args.push("diff".to_owned());
        args.push(base_reference());
        assert(texts(args@) =~= seq!["diff"@, base_ref()]);
        Command::git(args)
    }

    /// Lists the subject lines of the commits since the base reference, newest
    /// first.
    pub fn log() -> (r: Command)
        ensures
            r@ == log_query(),
    {
        let mut args: Vec<String> = Vec::new();
        args.push("log".to_owned());
        args.push(base_reference().concat("..HEAD"));
        args.push("--pretty=format:%s".to_owned());
        assert(texts(args@) =~= seq!["log"@, base_ref() + "..HEAD"@, "--pretty=format:%s"@]);
        Command::git(args)
    }
}

/// What the status listing says of the working tree: clean when the listing
/// is empty, not clean when it names a change.
pub open spec fn clean_of(output: CommandOutputView) -> Result<(), ErrorView> {
    if !succeeded(output) {
        Err(ErrorView::RepositoryAccess(Query::Status))
    } else if output.stdout.len() > 0 {
        Err(ErrorView::UserVisibleAbort)
    } else {
        Ok(())
    }
}

/// The branch that the output names: its text without surrounding whitespace.
pub open spec fn branch_of(output: CommandOutputView) -> Result<Seq<char>, ErrorView> {
    if succeeded(output) && valid_utf8(output.stdout) {
        Ok(trimmed(decode_utf8(output.stdout)))
    } else {
        Err(ErrorView::RepositoryAccess(Query::CurrentBranch))
    }
}

/// The diff that the output holds.
pub open spec fn diff_of(output: CommandOutputView) -> Result<Seq<char>, ErrorView> {
    if succeeded(output) {
        Ok(lossy_text(output.stdout))
    } else {
        Err(ErrorView::RepositoryAccess(Query::Diff))
    }
}

/// The commit subjects that the output lists, in its order.
pub open spec fn subjects_of(output: CommandOutputView) -> Result<Seq<Seq<char>>, ErrorView> {
    if succeeded(output) {
        Ok(lines_of(lossy_text(output.stdout)))
    } else {
        Err(ErrorView::RepositoryAccess(Query::CommitSubjects))
    }
}

/// The view of a list of texts that was read, or of the error.
pub open spec fn listed(result: Result<Vec<String>, Error>) -> Result<Seq<Seq<char>>, ErrorView> {
    match result {
        Ok(items) => Ok(texts(items@)),
        Err(error) => Err(error@),
    }
}

/// Decides from the status listing whether the run may go on. A listing that
/// names a change stops it; so does a status command that failed.
pub fn check_uncommitted_changes(output: &CommandOutput) -> (r: Result<(), Error>)
    ensures
        outcome(r) == clean_of(output@),
{
    if !output.success() {
        Err(Error::RepositoryAccess(Query::Status))
    } else if output.stdout.len() > 0 {
        Err(Error::UserVisibleAbort)
    } else {
        Ok(())
    }
}

/// Reads the name of the current branch. The command must have succeeded and
/// written valid UTF-8.
pub fn get_current_branch(output: CommandOutput) -> (r: Result<String, Error>)
    ensures
        outcome(r) == branch_of(output@),
{
    if !output.success() {
        return Err(Error::RepositoryAccess(Query::CurrentBranch));
    }
    match strict_text(output.stdout) {
        Some(name) => Ok(trim(name.as_str())),
        None => Err(Error::RepositoryAccess(Query::CurrentBranch)),
    }
}

/// Whether the remote has the branch: the lookup succeeds exactly when it does.
pub fn has_remote(output: &CommandOutput) -> (r: bool)
    ensures
        r == succeeded(output@),
{
    output.success()
}

/// Reads the diff against the base reference. Bytes that are not valid UTF-8
/// are replaced, not refused.
pub fn get_git_diff(output: &CommandOutput) -> (r: Result<String, Error>)
    ensures
        outcome(r) == diff_of(output@),
{
    if output.success() {
        Ok(decode_lossy(output.stdout.as_slice()))
    } else {
        Err(Error::RepositoryAccess(Query::Diff))
    }
}

/// Reads the commit subjects, one per line, in the order of the log.
pub fn get_commit_messages(output: &CommandOutput) -> (r: Result<Vec<String>, Error>)
    ensures
        listed(r) == subjects_of(output@),
{
    if output.success() {
        let text = decode_lossy(output.stdout.as_slice());
        Ok(split_lines(text.as_str()))
    } else {
        Err(Error::RepositoryAccess(Query::CommitSubjects))
    }
}

/// The issue that the branch belongs to. None is looked up: the answer is
/// always that there is none.
pub fn get_linked_issue() -> (r: Option<String>)
    ensures
        r is None,
{
    None
}

/// What a run knows of the repository before it collects changes.
#[derive(Clone, Debug, PartialEq, Eq)]
pub struct RepositoryState {
    pub is_clean: bool,
    pub current_branch: String,
    pub has_remote_branch: bool,
}

/// A [`RepositoryState`] as contracts speak of it.
pub struct RepositoryStateView {
    pub is_clean: bool,
    pub current_branch: Seq<char>,
    pub has_remote_branch: bool,
}

impl View for RepositoryState {
    type V = RepositoryStateView;

    open spec fn view(&self) -> RepositoryStateView {
        RepositoryStateView {
            is_clean: self.is_clean,
            current_branch: self.current_branch@,
            has_remote_branch: self.has_remote_branch,
        }
    }
}

/// The changes of the current branch against the base reference.
#[derive(Clone, Debug, PartialEq, Eq)]
pub struct ChangeSet {
    pub diff_text: String,
    pub commit_subjects: Vec<String>,
}

/// A [`ChangeSet`] as contracts speak of it.
pub struct ChangeSetView {
    pub diff_text: Seq<char>,
    pub commit_subjects: Seq<Seq<char>>,
}

impl View for ChangeSet {
    type V = ChangeSetView;

    open spec fn view(&self) -> ChangeSetView {
        ChangeSetView {
            diff_text: self.diff_text@,
            commit_subjects: texts(self.commit_subjects@),
        }
    }
}

/// The repository state that the outputs of the three queries describe. A
/// failed status or branch query is an error; a working tree with changes is
/// a state, not an error.
pub open spec fn state_of(
    status: CommandOutputView,
    branch: CommandOutputView,
    remote: CommandOutputView,
) -> Result<RepositoryStateView, ErrorView> {
    if !succeeded(status) {
        Err(ErrorView::RepositoryAccess(Query::Status))
    } else {
        match branch_of(branch) {
            Err(e) => Err(e),
            Ok(name) => Ok(
                RepositoryStateView {
                    is_clean: status.stdout.len() == 0,
                    current_branch: name,
                    has_remote_branch: succeeded(remote),
                },
            ),
        }
    }
}

/// The change set that the outputs of the diff and the log describe.
pub open spec fn changes_of(diff: CommandOutputView, log: CommandOutputView) -> Result<
    ChangeSetView,
    ErrorView,
> {
    match diff_of(diff) {
        Err(e) => Err(e),
        Ok(diff_text) => match subjects_of(log) {
            Err(e) => Err(e),
            Ok(commit_subjects) => Ok(ChangeSetView { diff_text, commit_subjects }),
        },
    }
}

/// Derives the repository state from the outputs of the status, branch and
/// remote queries.
pub fn repository_state(
    status: &CommandOutput,
    branch: CommandOutput,
    remote: &CommandOutput,
) -> (r: Result<RepositoryState, Error>)
    ensures
        outcome(r) == state_of(status@, branch@, remote@),
{
    if !status.success() {
        return Err(Error::RepositoryAccess(Query::Status));
    }
    match get_current_branch(branch) {
        Err(e) => Err(e),
        Ok(current_branch) => Ok(
            RepositoryState {
                is_clean: status.stdout.len() == 0,
                current_branch,
                has_remote_branch: has_remote(remote),
            },
        ),
    }
}

/// Derives the change set from the outputs of the diff and the log.
pub fn change_set(diff: &CommandOutput, log: &CommandOutput) -> (r: Result<ChangeSet, Error>)
    ensures
        outcome(r) == changes_of(diff@, log@),
{
    match get_git_diff(diff) {
        Err(e) => Err(e),
        Ok(diff_text) => match get_commit_messages(log) {
            Err(e) => Err(e),
            Ok(commit_subjects) => Ok(ChangeSet { diff_text, commit_subjects }),
        },
    }
}

/// Reading the same outputs again gives the same values: any two results
/// that `repository_state` returns for one set of outputs are the same state
/// or the same error, and so are any two that `change_set` returns.
pub proof fn lemma_probe_is_repeatable(
    status: CommandOutput,
    branch: CommandOutput,
    remote: CommandOutput,
    diff: CommandOutput,
    log: CommandOutput,
    first_state: Result<RepositoryState, Error>,
    second_state: Result<RepositoryState, Error>,
    first_changes: Result<ChangeSet, Error>,
    second_changes: Result<ChangeSet, Error>,
)
    requires
        outcome(first_state) == state_of(status@, branch@, remote@),
        outcome(second_state) == state_of(status@, branch@, remote@),
        outcome(first_changes) == changes_of(diff@, log@),
        outcome(second_changes) == changes_of(diff@, log@),
    ensures
        outcome(first_state) == outcome(second_state),
        outcome(first_changes) == outcome(second_changes),
{
}

} // verus!
