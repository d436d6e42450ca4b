use worktree::failure::{Failure, Task};

#[test]
fn failures_without_detail_have_fixed_messages() {
    assert_eq!(Failure::MissingRootDirectory.message(), "WORKTREE_ROOT_DIR environment variable not set");
    assert_eq!(Failure::MissingCurrentDirectory.message(), "Failed to get current directory");
    assert_eq!(Failure::RepositoryNameUnavailable.message(), "Could not determine repository name");
    assert_eq!(Failure::MetadataLayoutUnexpected.message(), "Could not determine main worktree path");
    assert_eq!(
        Failure::NameRequiredOnPrimary.message(),
        "Must specify a worktree name when running from the main worktree.\nUsage: wt merge <worktree-name>"
    );
    assert_eq!(
        Failure::CannotRemovePrimary.message(),
        "Cannot remove the main worktree. Use 'rm <worktree-name>' to remove a specific worktree."
    );
}

#[test]
fn failures_hand_on_the_diagnostic_text_unchanged() {
    let detail = "fatal: something\nwent wrong\n".to_string();
    assert_eq!(
        Failure::WorktreeCreateFailed { detail: detail.clone() }.message(),
        "Failed to create worktree: fatal: something\nwent wrong\n"
    );
    assert_eq!(
        Failure::WorktreeRemoveFailed { detail: detail.clone() }.message(),
        "Failed to remove worktree: fatal: something\nwent wrong\n"
    );
    assert_eq!(
        Failure::WorktreeListFailed { detail: detail.clone() }.message(),
        "Failed to list worktrees: fatal: something\nwent wrong\n"
    );
    assert_eq!(Failure::MergeFailed { detail: detail.clone() }.message(), "Failed to merge PR: fatal: something\nwent wrong\n");
    assert_eq!(Failure::EnvCopyFailed { detail }.message(), "Failed to copy .env file: fatal: something\nwent wrong\n");
}

#[test]
fn stopped_cleanup_tells_what_is_left_to_do() {
    assert_eq!(
        Failure::CleanupStopped { detail: "fatal: locked\n".to_string() }.message(),
        "Failed to remove worktree: fatal: locked\n\nThe pull request has likely been merged already. Remove the worktree manually."
    );
}

#[test]
fn worktree_not_found_names_what_was_wanted() {
    assert_eq!(
        Failure::WorktreeNotFound { wanted: "z".to_string(), named: true }.message(),
        "Worktree 'z' not found. Run 'wt list' to see available worktrees."
    );
    assert_eq!(
        Failure::WorktreeNotFound { wanted: "/home/u/wt/project/z".to_string(), named: false }.message(),
        "Worktree not found: /home/u/wt/project/z"
    );
}

#[test]
fn invalid_strategy_names_the_three_that_are_valid() {
    assert_eq!(
        Failure::InvalidStrategy { given: "ff".to_string() }.message(),
        "Invalid merge strategy: ff. Use 'squash', 'merge', or 'rebase'"
    );
}

#[test]
fn output_that_is_no_text_is_told_by_its_task_with_what_could_be_read() {
    let raw = "x\u{fffd}y\n".to_string();
    assert_eq!(
        Failure::OutputNotText { task: Task::QueryBranch, raw: raw.clone() }.message(),
        "Invalid UTF-8 in branch name: x\u{fffd}y\n"
    );
    assert_eq!(
        Failure::OutputNotText { task: Task::QueryRepository, raw: raw.clone() }.message(),
        "Invalid UTF-8 in git output: x\u{fffd}y\n"
    );
    assert_eq!(
        Failure::OutputNotText { task: Task::ListWorktrees, raw }.message(),
        "Invalid UTF-8 in git output: x\u{fffd}y\n"
    );
    assert_eq!(
        Failure::OutputNotText { task: Task::ListWorktrees, raw: String::new() }.message(),
        "Invalid UTF-8 in git output"
    );
}

#[test]
fn refused_queries_hand_on_what_the_query_said() {
    assert_eq!(
        Failure::NotARepository { detail: "fatal: not a git repository\n".to_string() }.message(),
        "Not in a git repository: fatal: not a git repository\n"
    );
    assert_eq!(Failure::NotARepository { detail: String::new() }.message(), "Not in a git repository");
    assert_eq!(
        Failure::DetachedOrUnresolvable { detail: "fatal: bad revision 'HEAD'\n".to_string() }.message(),
        "Failed to determine branch name for worktree: fatal: bad revision 'HEAD'\n"
    );
    assert_eq!(
        Failure::DetachedOrUnresolvable { detail: String::new() }.message(),
        "Failed to determine branch name for worktree"
    );
}

#[test]
fn tool_that_did_not_start_is_told_by_its_task() {
    let cases = [
        (Task::QueryRepository, "Failed to execute git command"),
        (Task::QueryBranch, "Failed to get branch name"),
        (Task::ListWorktrees, "Failed to execute git worktree list"),
        (Task::CreateWorktree, "Failed to execute git worktree add"),
        (Task::RemoveWorktree, "Failed to execute git worktree remove"),
        (Task::MergePullRequest, "Failed to execute gh pr merge. Is the GitHub CLI installed?"),
    ];
    for (task, complaint) in cases {
        assert_eq!(task.complaint(), complaint);
        assert_eq!(
            Failure::NotStarted { task, detail: "os error 2".to_string() }.message(),
            format!("{}: os error 2", complaint)
        );
    }
}
