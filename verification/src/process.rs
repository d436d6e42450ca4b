//! The boundary to the outside: what the library asks its caller to do, and
//! what the caller reports back.

use vstd::prelude::*;
use crate::failure::{Failure, FailureView, Task};
use crate::merge::MergeStrategy;

verus! {

/// What came of one piece of outside work.
#[derive(Debug, PartialEq, Eq)]
pub enum Reply {
    /// The program could not be started; `detail` says why.
    NotStarted { detail: String },
    /// The program ran and exited. `stdout` and `stderr` hold what it wrote,
    /// read as text; `stdout_intact` tells whether `stdout` was text to begin
    /// with, so that nothing in it had to be replaced.
    Exited { success: bool, stdout: String, stdout_intact: bool, stderr: String },
}

/// A [`Reply`] with its texts as sequences of characters.
pub enum ReplyView {
    NotStarted { detail: Seq<char> },
    Exited { success: bool, stdout: Seq<char>, stdout_intact: bool, stderr: Seq<char> },
}

impl ReplyView {
    /// The work was done and reported success.
    pub open spec fn succeeded(self) -> bool {
        self matches ReplyView::Exited { success, .. } && success
    }

    /// The diagnostic text that came with the reply.
    pub open spec fn diagnostic(self) -> Seq<char> {
        match self {
            ReplyView::NotStarted { detail } => detail,
            ReplyView::Exited { stderr, .. } => stderr,
        }
    }
}

/// The failure that `reply` amounts to as the end of `task`, for a reply
/// that did not succeed: the program could not be started, or it reported
/// failure, and its diagnostic text is handed on.
pub open spec fn failure_of(reply: ReplyView, task: Task) -> FailureView {
    match reply {
        ReplyView::NotStarted { detail } => FailureView::NotStarted { task, detail },
        ReplyView::Exited { stderr, .. } => task.refusal_of(stderr),
    }
}

/// What the program for `task` printed, where it ran, succeeded and printed
/// text. Output that is no text is a failure, told with what could be read
/// of it.
pub open spec fn text_of(reply: ReplyView, task: Task) -> Result<Seq<char>, FailureView> {
    match reply {
        ReplyView::NotStarted { .. } => Err(failure_of(reply, task)),
        ReplyView::Exited { success, stdout, stdout_intact, stderr } => {
            if !success {
                Err(failure_of(reply, task))
            } else if !stdout_intact {
                Err(FailureView::OutputNotText { task, raw: stdout })
            } else {
                Ok(stdout)
            }
        },
    }
}

impl View for Reply {
    type V = ReplyView;

    open spec fn view(&self) -> ReplyView {
        match *self {
            Reply::NotStarted { detail } => ReplyView::NotStarted { detail: detail@ },
            Reply::Exited { success, stdout, stdout_intact, stderr } => ReplyView::Exited {
                success,
                stdout: stdout@,
                stdout_intact,
                stderr: stderr@,
            },
        }
    }
}

impl DeepView for Reply {
    type V = ReplyView;

    open spec fn deep_view(&self) -> ReplyView {
        self@
    }
}

impl Reply {
    /// Whether the work was done and reported success.
    pub fn succeeded(&self) -> (r: bool)
        ensures
            r == self@.succeeded(),
    {
        match self {
            Reply::NotStarted { .. } => false,
            Reply::Exited { success, .. } => *success,
        }
    }

    /// The failure that the reply amounts to as the end of `task`.
    pub fn failure(&self, task: Task) -> (failure: Failure)
        ensures
            failure@ == failure_of(self@, task),
    {
        match self {
            Reply::NotStarted { detail } => Failure::NotStarted { task, detail: detail.clone() },
            Reply::Exited { stderr, .. } => task.refusal(stderr.clone()),
        }
    }

    /// What the program for `task` printed, where it ran, succeeded and
    /// printed text.
    pub fn text(&self, task: Task) -> (r: Result<String, Failure>)
        ensures
            result_view(r) == text_of(self@, task),
    {
        match self {
            Reply::NotStarted { .. } => Err(self.failure(task)),
            Reply::Exited { success, stdout, stdout_intact, stderr } => {
                if !*success {
                    Err(self.failure(task))
                } else if !*stdout_intact {
                    Err(Failure::OutputNotText { task, raw: stdout.clone() })
                } else {
                    Ok(stdout.clone())
                }
            },
        }
    }

    /// The diagnostic text that came with the reply.
    pub fn diagnostic(&self) -> (r: String)
        ensures
            r@ == self@.diagnostic(),
    {
        match self {
            Reply::NotStarted { detail } => detail.clone(),
            Reply::Exited { stderr, .. } => stderr.clone(),
        }
    }
}

/// One piece of outside work that the library can ask for.
#[derive(Debug, PartialEq, Eq)]
pub enum Operation {
    /// Ask where the metadata of the current checkout lies.
    QueryGitDir,
    /// Ask for the top-level directory of the repository.
    QueryTopLevel,
    /// Ask where the metadata shared by all worktrees lies.
    QueryCommonDir,
    /// Ask which branch is checked out at `worktree`.
    QueryBranch { worktree: String },
    /// Ask for the list of worktrees.
    ListWorktrees,
    /// Create a worktree at `path` for `branch`.
    AddWorktree { path: String, branch: String },
    /// Remove the worktree at `path`, working from `from`.
    RemoveWorktree { path: String, from: String },
    /// Merge the pull request of the branch checked out at `worktree`.
    MergePullRequest { worktree: String, strategy: MergeStrategy },
    /// Force-delete the local branch, working from `from`.
    DeleteLocalBranch { branch: String, from: String },
    /// Delete the branch on the remote, working from `from`.
    DeleteRemoteBranch { branch: String, from: String },
    /// Report success exactly if something exists at `path`.
    ProbePath { path: String },
    /// Copy the file `from` to `to` if `from` exists; report failure only if
    /// it exists and could not be copied.
    CopyFile { from: String, to: String },
}

/// An [`Operation`] with its texts as sequences of characters.
pub enum OperationView {
    QueryGitDir,
    QueryTopLevel,
    QueryCommonDir,
    QueryBranch { worktree: Seq<char> },
    ListWorktrees,
    AddWorktree { path: Seq<char>, branch: Seq<char> },
    RemoveWorktree { path: Seq<char>, from: Seq<char> },
    MergePullRequest { worktree: Seq<char>, strategy: MergeStrategy },
    DeleteLocalBranch { branch: Seq<char>, from: Seq<char> },
    DeleteRemoteBranch { branch: Seq<char>, from: Seq<char> },
    ProbePath { path: Seq<char> },
    CopyFile { from: Seq<char>, to: Seq<char> },
}

impl OperationView {
    /// The operation changes the repository or the hosting service.
    pub open spec fn is_destructive(self) -> bool {
        self is RemoveWorktree || self is MergePullRequest || self is DeleteLocalBranch
            || self is DeleteRemoteBranch
    }
}

impl View for Operation {
    type V = OperationView;

    open spec fn view(&self) -> OperationView {
        match *self {
            Operation::QueryGitDir => OperationView::QueryGitDir,
            Operation::QueryTopLevel => OperationView::QueryTopLevel,
            Operation::QueryCommonDir => OperationView::QueryCommonDir,
            Operation::QueryBranch { worktree } => OperationView::QueryBranch { worktree: worktree@ },
            Operation::ListWorktrees => OperationView::ListWorktrees,
            Operation::AddWorktree { path, branch } => OperationView::AddWorktree {
                path: path@,
                branch: branch@,
            },
            Operation::RemoveWorktree { path, from } => OperationView::RemoveWorktree {
                path: path@,
                from: from@,
            },
            Operation::MergePullRequest { worktree, strategy } => OperationView::MergePullRequest {
                worktree: worktree@,
                strategy,
            },
            Operation::DeleteLocalBranch { branch, from } => OperationView::DeleteLocalBranch {
                branch: branch@,
                from: from@,
            },
            Operation::DeleteRemoteBranch { branch, from } => OperationView::DeleteRemoteBranch {
                branch: branch@,
                from: from@,
            },
            Operation::ProbePath { path } => OperationView::ProbePath { path: path@ },
            Operation::CopyFile { from, to } => OperationView::CopyFile { from: from@, to: to@ },
        }
    }
}

impl DeepView for Operation {
    type V = OperationView;

    open spec fn deep_view(&self) -> OperationView {
        self@
    }
}

/// What the caller is to do next.
#[derive(Debug, PartialEq, Eq)]
pub enum Action {
    /// Do this work and come back with its reply added to the others.
    Run(Operation),
    /// The command is done and succeeded. `output`, if any, goes to the
    /// output channel as it is.
    Finish { output: Option<String> },
    /// The command failed.
    Abort(Failure),
}

/// An [`Action`] with its texts as sequences of characters.
pub enum ActionView {
    Run(OperationView),
    Finish { output: Option<Seq<char>> },
    Abort(FailureView),
}

impl View for Action {
    type V = ActionView;

    open spec fn view(&self) -> ActionView {
        match *self {
            Action::Run(operation) => ActionView::Run(operation@),
            Action::Finish { output } => ActionView::Finish { output: output.deep_view() },
            Action::Abort(failure) => ActionView::Abort(failure@),
        }
    }
}

impl DeepView for Action {
    type V = ActionView;

    open spec fn deep_view(&self) -> ActionView {
        self@
    }
}

/// A result with its value and its failure seen as what they stand for.
pub open spec fn result_view<T: View>(r: Result<T, Failure>) -> Result<T::V, FailureView> {
    match r {
        Ok(value) => Ok(value@),
        Err(failure) => Err(failure@),
    }
}

/// A program to run: its name, its arguments, and the directory to run it in
/// if that is not the current one.
#[derive(Debug, PartialEq, Eq)]
pub struct CommandLine {
    pub program: String,
    pub arguments: Vec<String>,
    pub directory: Option<String>,
}

/// A [`CommandLine`] with its texts as sequences of characters.
pub struct CommandLineView {
    pub program: Seq<char>,
    pub arguments: Seq<Seq<char>>,
    pub directory: Option<Seq<char>>,
}

impl View for CommandLine {
    type V = CommandLineView;

    open spec fn view(&self) -> CommandLineView {
        CommandLineView {
            program: self.program@,
            arguments: self.arguments.deep_view(),
            directory: self.directory.deep_view(),
        }
    }
}

/// The version-control tool with `arguments`, run in `directory`.
pub open spec fn git(arguments: Seq<Seq<char>>, directory: Option<Seq<char>>) -> CommandLineView {
    CommandLineView { program: "git"@, arguments, directory }
}

impl OperationView {
    /// The program that does the operation; none for work on files, which
    /// the caller does itself.
    pub open spec fn command_line(self) -> Option<CommandLineView> {
        match self {
            OperationView::QueryGitDir => Some(git(seq!["rev-parse"@, "--git-dir"@], None)),
            OperationView::QueryTopLevel => Some(git(seq!["rev-parse"@, "--show-toplevel"@], None)),
            OperationView::QueryCommonDir => Some(
                git(seq!["rev-parse"@, "--git-common-dir"@], None),
            ),
            OperationView::QueryBranch { worktree } => Some(
                git(seq!["rev-parse"@, "--abbrev-ref"@, "HEAD"@], Some(worktree)),
            ),
            OperationView::ListWorktrees => Some(git(seq!["worktree"@, "list"@], None)),
            OperationView::AddWorktree { path, branch } => Some(
                git(seq!["worktree"@, "add"@, path, branch], None),
            ),
            OperationView::RemoveWorktree { path, from } => Some(
                git(seq!["worktree"@, "remove"@, path], Some(from)),
            ),
            OperationView::MergePullRequest { worktree, strategy } => Some(
                CommandLineView {
                    program: "gh"@,
                    arguments: seq!["pr"@, "merge"@, strategy.flag_of()],
                    directory: Some(worktree),
                },
            ),
            OperationView::DeleteLocalBranch { branch, from } => Some(
                git(seq!["branch"@, "-D"@, branch], Some(from)),
            ),
            OperationView::DeleteRemoteBranch { branch, from } => Some(
                git(seq!["push"@, "origin"@, "--delete"@, branch], Some(from)),
            ),
            OperationView::ProbePath { .. } => None,
            OperationView::CopyFile { .. } => None,
        }
    }
}

/// The two texts as owned strings, in order.
fn pair(first: &str, second: &str) -> (r: Vec<String>)
    ensures
        r.deep_view() == seq![first@, second@],
{
    let mut r: Vec<String> = Vec::new();
    r.push(String::from_str(first));
    r.push(String::from_str(second));
    r
}

/// `list` with `last` behind it.
fn with(list: Vec<String>, last: &str) -> (r: Vec<String>)
    ensures
        r.deep_view() == list.deep_view().push(last@),
{
    let mut r = list;
    r.push(String::from_str(last));
    r
}

/// The version-control tool with `arguments`, run in `directory`.
fn git_with(arguments: Vec<String>, directory: Option<String>) -> (r: CommandLine)
    ensures
        r@ == git(arguments.deep_view(), directory.deep_view()),
{
    CommandLine { program: String::from_str("git"), arguments, directory }
}

impl Operation {
    /// The program that does the operation; none for work on files, which
    /// the caller does itself.
    pub fn command_line(&self) -> (r: Option<CommandLine>)
        ensures
            match self@.command_line() {
                Some(line) => r matches Some(found) && found@ == line,
                None => r is None,
            },
    {
        match self {
            Operation::QueryGitDir => Some(git_with(pair("rev-parse", "--git-dir"), None)),
            Operation::QueryTopLevel => Some(git_with(pair("rev-parse", "--show-toplevel"), None)),
            Operation::QueryCommonDir => Some(
                git_with(pair("rev-parse", "--git-common-dir"), None),
            ),
            Operation::QueryBranch { worktree } => {
                let arguments = with(pair("rev-parse", "--abbrev-ref"), "HEAD");
                assert(arguments.deep_view() =~= seq!["rev-parse"@, "--abbrev-ref"@, "HEAD"@]);
                Some(git_with(arguments, Some(worktree.clone())))
            },
            Operation::ListWorktrees => Some(git_with(pair("worktree", "list"), None)),
            Operation::AddWorktree { path, branch } => {
                let arguments = with(
                    with(pair("worktree", "add"), path.as_str()),
                    branch.as_str(),
                );
                assert(arguments.deep_view() =~= seq!["worktree"@, "add"@, path@, branch@]);
                Some(git_with(arguments, None))
            },
            Operation::RemoveWorktree { path, from } => {
                let arguments = with(pair("worktree", "remove"), path.as_str());
                assert(arguments.deep_view() =~= seq!["worktree"@, "remove"@, path@]);
                Some(git_with(arguments, Some(from.clone())))
            },
            Operation::MergePullRequest { worktree, strategy } => {
                let flag = strategy.flag();
                let arguments = with(pair("pr", "merge"), flag.as_str());
                assert(arguments.deep_view() =~= seq!["pr"@, "merge"@, strategy.flag_of()]);
                Some(
                    CommandLine {
                        program: String::from_str("gh"),
                        arguments,
                        directory: Some(worktree.clone()),
                    },
                )
            },
            Operation::DeleteLocalBranch { branch, from } => {
                let arguments = with(pair("branch", "-D"), branch.as_str());
                assert(arguments.deep_view() =~= seq!["branch"@, "-D"@, branch@]);
                Some(git_with(arguments, Some(from.clone())))
            },
            Operation::DeleteRemoteBranch { branch, from } => {
                let arguments = with(
                    with(pair("push", "origin"), "--delete"),
                    branch.as_str(),
                );
                assert(arguments.deep_view() =~= seq!["push"@, "origin"@, "--delete"@, branch@]);
                Some(git_with(arguments, Some(from.clone())))
            },
            Operation::ProbePath { .. } => None,
            Operation::CopyFile { .. } => None,
        }
    }
}

} // verus!
