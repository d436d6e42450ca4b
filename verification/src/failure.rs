//! The ways a command can fail for good.

use vstd::prelude::*;

verus! {

/// The outside work during which something went wrong.
#[derive(Clone, Copy, Debug, PartialEq, Eq, Structural)]
pub enum Task {
    QueryRepository,
    QueryBranch,
    ListWorktrees,
    CreateWorktree,
    RemoveWorktree,
    MergePullRequest,
}

/// A hard failure: the command stops and exits unsuccessfully.
#[derive(Debug, PartialEq, Eq)]
pub enum Failure {
    /// The root directory for worktrees is not configured.
    MissingRootDirectory,
    /// The current directory cannot be told.
    MissingCurrentDirectory,
    /// The current directory is not inside a repository; `detail` is what
    /// the query said.
    NotARepository { detail: String },
    /// An outside program could not be started at all.
    NotStarted { task: Task, detail: String },
    /// An outside program printed something that is not text; `raw` is what
    /// could be read of it.
    OutputNotText { task: Task, raw: String },
    /// The top-level directory of the repository has no final segment.
    RepositoryNameUnavailable,
    /// The shared metadata directory has no parent.
    MetadataLayoutUnexpected,
    /// No symbolic branch is checked out at the worktree; `detail` is what
    /// the query said.
    DetachedOrUnresolvable { detail: String },
    /// A merge was asked for from the primary checkout without a name.
    NameRequiredOnPrimary,
    /// The primary checkout was asked to remove itself.
    CannotRemovePrimary,
    /// Nothing answers to `wanted`: a worktree name when `named`, a path otherwise.
    WorktreeNotFound { wanted: String, named: bool },
    /// The merge strategy is none of `squash`, `merge`, `rebase`.
    InvalidStrategy { given: String },
    WorktreeCreateFailed { detail: String },
    WorktreeRemoveFailed { detail: String },
    /// The worktree could not be removed after its pull request was dealt
    /// with: nothing is undone, and the worktree stays for the caller to
    /// remove by hand.
    CleanupStopped { detail: String },
    WorktreeListFailed { detail: String },
    MergeFailed { detail: String },
    EnvCopyFailed { detail: String },
}

/// A [`Failure`] with its texts as sequences of characters.
pub enum FailureView {
    MissingRootDirectory,
    MissingCurrentDirectory,
    NotARepository { detail: Seq<char> },
    NotStarted { task: Task, detail: Seq<char> },
    OutputNotText { task: Task, raw: Seq<char> },
    RepositoryNameUnavailable,
    MetadataLayoutUnexpected,
    DetachedOrUnresolvable { detail: Seq<char> },
    NameRequiredOnPrimary,
    CannotRemovePrimary,
    WorktreeNotFound { wanted: Seq<char>, named: bool },
    InvalidStrategy { given: Seq<char> },
    WorktreeCreateFailed { detail: Seq<char> },
    WorktreeRemoveFailed { detail: Seq<char> },
    CleanupStopped { detail: Seq<char> },
    WorktreeListFailed { detail: Seq<char> },
    MergeFailed { detail: Seq<char> },
    EnvCopyFailed { detail: Seq<char> },
}

impl View for Failure {
    type V = FailureView;

    open spec fn view(&self) -> FailureView {
        match *self {
            Failure::MissingRootDirectory => FailureView::MissingRootDirectory,
            Failure::MissingCurrentDirectory => FailureView::MissingCurrentDirectory,
            Failure::NotARepository { detail } => FailureView::NotARepository { detail: detail@ },
            Failure::NotStarted { task, detail } => FailureView::NotStarted { task, detail: detail@ },
            Failure::OutputNotText { task, raw } => FailureView::OutputNotText { task, raw: raw@ },
            Failure::RepositoryNameUnavailable => FailureView::RepositoryNameUnavailable,
            Failure::MetadataLayoutUnexpected => FailureView::MetadataLayoutUnexpected,
            Failure::DetachedOrUnresolvable { detail } => FailureView::DetachedOrUnresolvable {
                detail: detail@,
            },
            Failure::NameRequiredOnPrimary => FailureView::NameRequiredOnPrimary,
            Failure::CannotRemovePrimary => FailureView::CannotRemovePrimary,
            Failure::WorktreeNotFound { wanted, named } => FailureView::WorktreeNotFound {
                wanted: wanted@,
                named,
            },
            Failure::InvalidStrategy { given } => FailureView::InvalidStrategy { given: given@ },
            Failure::WorktreeCreateFailed { detail } => FailureView::WorktreeCreateFailed {
                detail: detail@,
            },
            Failure::WorktreeRemoveFailed { detail } => FailureView::WorktreeRemoveFailed {
                detail: detail@,
            },
            Failure::CleanupStopped { detail } => FailureView::CleanupStopped { detail: detail@ },
            Failure::WorktreeListFailed { detail } => FailureView::WorktreeListFailed {
                detail: detail@,
            },
            Failure::MergeFailed { detail } => FailureView::MergeFailed { detail: detail@ },
            Failure::EnvCopyFailed { detail } => FailureView::EnvCopyFailed { detail: detail@ },
        }
    }
}

impl DeepView for Failure {
    type V = FailureView;

    open spec fn deep_view(&self) -> FailureView {
        self@
    }
}

impl Task {
    /// What is said when the program for the task could not be started.
    pub open spec fn complaint_of(self) -> Seq<char> {
        match self {
            Task::QueryRepository => "Failed to execute git command"@,
            Task::QueryBranch => "Failed to get branch name"@,
            Task::ListWorktrees => "Failed to execute git worktree list"@,
            Task::CreateWorktree => "Failed to execute git worktree add"@,
            Task::RemoveWorktree => "Failed to execute git worktree remove"@,
            Task::MergePullRequest => "Failed to execute gh pr merge. Is the GitHub CLI installed?"@,
        }
    }

    /// The failure that the task amounts to when its program ran and
    /// reported failure with the diagnostic text `detail`.
    pub open spec fn refusal_of(self, detail: Seq<char>) -> FailureView {
        match self {
            Task::QueryRepository => FailureView::NotARepository { detail },
            Task::QueryBranch => FailureView::DetachedOrUnresolvable { detail },
            Task::ListWorktrees => FailureView::WorktreeListFailed { detail },
            Task::CreateWorktree => FailureView::WorktreeCreateFailed { detail },
            Task::RemoveWorktree => FailureView::WorktreeRemoveFailed { detail },
            Task::MergePullRequest => FailureView::MergeFailed { detail },
        }
    }

    /// The failure that the task amounts to when its program ran and
    /// reported failure with the diagnostic text `detail`.
    pub fn refusal(&self, detail: String) -> (failure: Failure)
        ensures
            failure@ == self.refusal_of(detail@),
    {
        match self {
            Task::QueryRepository => Failure::NotARepository { detail },
            Task::QueryBranch => Failure::DetachedOrUnresolvable { detail },
            Task::ListWorktrees => Failure::WorktreeListFailed { detail },
            Task::CreateWorktree => Failure::WorktreeCreateFailed { detail },
            Task::RemoveWorktree => Failure::WorktreeRemoveFailed { detail },
            Task::MergePullRequest => Failure::MergeFailed { detail },
        }
    }

    /// What is said when the program for the task could not be started.
    pub fn complaint(&self) -> (text: String)
        ensures
            text@ == self.complaint_of(),
    {
        match self {
            Task::QueryRepository => String::from_str("Failed to execute git command"),
            Task::QueryBranch => String::from_str("Failed to get branch name"),
            Task::ListWorktrees => String::from_str("Failed to execute git worktree list"),
            Task::CreateWorktree => String::from_str("Failed to execute git worktree add"),
            Task::RemoveWorktree => String::from_str("Failed to execute git worktree remove"),
            Task::MergePullRequest => String::from_str(
                "Failed to execute gh pr merge. Is the GitHub CLI installed?",
            ),
        }
    }
}

/// `head`, and behind it a colon and `detail` where there is any detail.
pub open spec fn with_detail(head: Seq<char>, detail: Seq<char>) -> Seq<char> {
    if detail.len() == 0 {
        head
    } else {
        head + ": "@ + detail
    }
}

impl FailureView {
    /// The failure in words, for the person at the terminal. Diagnostic text
    /// of an outside program, and output that was no text, is handed on
    /// unchanged behind the words.
    pub open spec fn message(self) -> Seq<char> {
        match self {
            FailureView::MissingRootDirectory => "WORKTREE_ROOT_DIR environment variable not set"@,
            FailureView::MissingCurrentDirectory => "Failed to get current directory"@,
            FailureView::NotARepository { detail } => with_detail(
                "Not in a git repository"@,
                detail,
            ),
            FailureView::NotStarted { task, detail } => task.complaint_of() + ": "@ + detail,
            FailureView::OutputNotText { task, raw } => with_detail(
                if task is QueryBranch {
                    "Invalid UTF-8 in branch name"@
                } else {
                    "Invalid UTF-8 in git output"@
                },
                raw,
            ),
            FailureView::RepositoryNameUnavailable => "Could not determine repository name"@,
            FailureView::MetadataLayoutUnexpected => "Could not determine main worktree path"@,
            FailureView::DetachedOrUnresolvable { detail } => with_detail(
                "Failed to determine branch name for worktree"@,
                detail,
            ),
            FailureView::NameRequiredOnPrimary => "Must specify a worktree name when running from the main worktree.\nUsage: wt merge <worktree-name>"@,
            FailureView::CannotRemovePrimary => "Cannot remove the main worktree. Use 'rm <worktree-name>' to remove a specific worktree."@,
            FailureView::WorktreeNotFound { wanted, named } => if named {
                "Worktree '"@ + wanted + "' not found. Run 'wt list' to see available worktrees."@
            } else {
                "Worktree not found: "@ + wanted
            },
            FailureView::InvalidStrategy { given } => "Invalid merge strategy: "@ + given
                + ". Use 'squash', 'merge', or 'rebase'"@,
            FailureView::WorktreeCreateFailed { detail } => "Failed to create worktree: "@ + detail,
            FailureView::WorktreeRemoveFailed { detail } => "Failed to remove worktree: "@ + detail,
            FailureView::CleanupStopped { detail } => "Failed to remove worktree: "@ + detail
                + "\nThe pull request has likely been merged already. Remove the worktree manually."@,
            FailureView::WorktreeListFailed { detail } => "Failed to list worktrees: "@ + detail,
            FailureView::MergeFailed { detail } => "Failed to merge PR: "@ + detail,
            FailureView::EnvCopyFailed { detail } => "Failed to copy .env file: "@ + detail,
        }
    }
}

/// `head` followed by `tail`.
fn sentence(head: &str, tail: &str) -> (text: String)
    ensures
        text@ == head@ + tail@,
{
    let mut text = String::from_str(head);
    text.append(tail);
    text
}

/// `head`, and behind it a colon and `detail` where there is any detail.
fn detailed(head: &str, detail: &str) -> (text: String)
    ensures
        text@ == with_detail(head@, detail@),
{
    let mut text = String::from_str(head);
    if detail.unicode_len() > 0 {
        text.append(": ");
        text.append(detail);
    }
    text
}

impl Failure {
    /// The failure in words, for the person at the terminal.
    pub fn message(&self) -> (text: String)
        ensures
            text@ == self@.message(),
    {
        match self {
            Failure::MissingRootDirectory => String::from_str(
                "WORKTREE_ROOT_DIR environment variable not set",
            ),
            Failure::MissingCurrentDirectory => String::from_str("Failed to get current directory"),
            Failure::NotARepository { detail } => detailed(
                "Not in a git repository",
                detail.as_str(),
            ),
            Failure::NotStarted { task, detail } => {
                let mut text = task.complaint();
                text.append(": ");
                text.append(detail.as_str());
                text
            },
            Failure::OutputNotText { task, raw } => match task {
                Task::QueryBranch => detailed("Invalid UTF-8 in branch name", raw.as_str()),
                _ => detailed("Invalid UTF-8 in git output", raw.as_str()),
            },
            Failure::RepositoryNameUnavailable => String::from_str(
                "Could not determine repository name",
            ),
            Failure::MetadataLayoutUnexpected => String::from_str(
                "Could not determine main worktree path",
            ),
            Failure::DetachedOrUnresolvable { detail } => detailed(
                "Failed to determine branch name for worktree",
                detail.as_str(),
            ),
            Failure::NameRequiredOnPrimary => String::from_str(
                "Must specify a worktree name when running from the main worktree.\nUsage: wt merge <worktree-name>",
            ),
            Failure::CannotRemovePrimary => String::from_str(
                "Cannot remove the main worktree. Use 'rm <worktree-name>' to remove a specific worktree.",
            ),
            Failure::WorktreeNotFound { wanted, named } => if *named {
                let mut text = sentence("Worktree '", wanted.as_str());
                text.append("' not found. Run 'wt list' to see available worktrees.");
                text
            } else {
                sentence("Worktree not found: ", wanted.as_str())
            },
            Failure::InvalidStrategy { given } => {
                let mut text = sentence("Invalid merge strategy: ", given.as_str());
                text.append(". Use 'squash', 'merge', or 'rebase'");
                text
            },
            Failure::WorktreeCreateFailed { detail } => sentence(
                "Failed to create worktree: ",
                detail.as_str(),
            ),
            Failure::WorktreeRemoveFailed { detail } => sentence(
                "Failed to remove worktree: ",
                detail.as_str(),
            ),
            Failure::CleanupStopped { detail } => {
                let mut text = sentence("Failed to remove worktree: ", detail.as_str());
                text.append(
                    "\nThe pull request has likely been merged already. Remove the worktree manually.",
                );
                text
            },
            Failure::WorktreeListFailed { detail } => sentence(
                "Failed to list worktrees: ",
                detail.as_str(),
            ),
            Failure::MergeFailed { detail } => sentence("Failed to merge PR: ", detail.as_str()),
            Failure::EnvCopyFailed { detail } => sentence(
                "Failed to copy .env file: ",
                detail.as_str(),
            ),
        }
    }
}

} // verus!
