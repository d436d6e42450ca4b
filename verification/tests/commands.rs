use worktree::context::{ResolutionContext, TargetResolution};
use worktree::failure::{Failure, Task};
use worktree::process::{Action, CommandLine, Operation, Reply};
use worktree::merge::MergeStrategy;

fn context(is_primary: bool, current: &str) -> ResolutionContext {
    ResolutionContext {
        is_primary_checkout: is_primary,
        current_directory: current.to_string(),
        repository_name: "project".to_string(),
        primary_checkout_path: "/home/u/project".to_string(),
        configured_root_directory: "/home/u/wt".to_string(),
    }
}

fn ok(stdout: &str) -> Reply {
    Reply::Exited { success: true, stdout: stdout.to_string(), stdout_intact: true, stderr: String::new() }
}

fn refused(stderr: &str) -> Reply {
    Reply::Exited { success: false, stdout: String::new(), stdout_intact: true, stderr: stderr.to_string() }
}

fn not_started(detail: &str) -> Reply {
    Reply::NotStarted { detail: detail.to_string() }
}

fn git(arguments: &[&str], directory: Option<&str>) -> Option<CommandLine> {
    Some(CommandLine {
        program: "git".to_string(),
        arguments: arguments.iter().map(|a| a.to_string()).collect(),
        directory: directory.map(|d| d.to_string()),
    })
}

#[test]
fn add_creates_copies_and_moves() {
    let ctx = context(true, "/home/u/project");
    let mut replies = Vec::new();
    assert_eq!(
        worktree::add::execute(&ctx, "featurex", &replies),
        Action::Run(Operation::AddWorktree { path: "/home/u/wt/project/featurex".to_string(), branch: "featurex".to_string() })
    );
    replies.push(ok(""));
    assert_eq!(
        worktree::add::execute(&ctx, "featurex", &replies),
        Action::Run(Operation::CopyFile {
            from: "/home/u/project/.env".to_string(),
            to: "/home/u/wt/project/featurex/.env".to_string(),
        })
    );
    replies.push(ok(""));
    assert_eq!(
        worktree::add::execute(&ctx, "featurex", &replies),
        Action::Finish { output: Some("cd \"/home/u/wt/project/featurex\"\n".to_string()) }
    );
}

#[test]
fn add_that_is_refused_hands_on_the_diagnostic() {
    let ctx = context(true, "/home/u/project");
    let replies = vec![refused("fatal: invalid reference: featurex\n"), ok("")];
    assert_eq!(
        worktree::add::execute(&ctx, "featurex", &replies),
        Action::Abort(Failure::WorktreeCreateFailed { detail: "fatal: invalid reference: featurex\n".to_string() })
    );
    assert_eq!(
        worktree::add::execute(&ctx, "featurex", &vec![not_started("x")]),
        Action::Abort(Failure::NotStarted { task: Task::CreateWorktree, detail: "x".to_string() })
    );
}

#[test]
fn add_fails_when_the_environment_file_cannot_be_copied() {
    let ctx = context(true, "/home/u/project");
    let replies = vec![ok(""), not_started("Permission denied (os error 13)")];
    assert_eq!(
        worktree::add::execute(&ctx, "featurex", &replies),
        Action::Abort(Failure::EnvCopyFailed { detail: "Permission denied (os error 13)".to_string() })
    );
}

#[test]
fn remove_by_name_leaves_the_caller_where_it_is() {
    let ctx = context(false, "/home/u/wt/project/here");
    let mut replies = Vec::new();
    assert_eq!(
        worktree::remove::execute(&ctx, "other", &replies),
        Action::Run(Operation::RemoveWorktree {
            path: "/home/u/wt/project/other".to_string(),
            from: "/home/u/wt/project/here".to_string(),
        })
    );
    replies.push(ok(""));
    assert_eq!(worktree::remove::execute(&ctx, "other", &replies), Action::Finish { output: None });
}

#[test]
fn remove_of_the_current_worktree_moves_the_caller() {
    let ctx = context(false, "/home/u/wt/project/here");
    let mut replies = Vec::new();
    assert_eq!(
        worktree::remove::execute(&ctx, ".", &replies),
        Action::Run(Operation::RemoveWorktree {
            path: "/home/u/wt/project/here".to_string(),
            from: "/home/u/wt/project/here".to_string(),
        })
    );
    replies.push(ok(""));
    assert_eq!(
        worktree::remove::execute(&ctx, ".", &replies),
        Action::Finish { output: Some("cd \"/home/u/project\"\n".to_string()) }
    );
}

#[test]
fn remove_of_the_primary_checkout_is_refused() {
    let ctx = context(true, "/home/u/project");
    assert_eq!(worktree::remove::execute(&ctx, ".", &Vec::new()), Action::Abort(Failure::CannotRemovePrimary));
    assert_eq!(worktree::remove::execute(&ctx, ".", &vec![ok("")]), Action::Abort(Failure::CannotRemovePrimary));
    assert_eq!(worktree::remove::removal_target(true, "."), Err(Failure::CannotRemovePrimary));
    assert_eq!(worktree::remove::removal_target(false, "."), Ok(TargetResolution::Current));
    assert_eq!(worktree::remove::removal_target(true, ".."), Ok(TargetResolution::Explicit { name: "..".to_string() }));
}

#[test]
fn remove_by_name_works_from_the_primary_checkout() {
    let ctx = context(true, "/home/u/project");
    assert_eq!(
        worktree::remove::execute(&ctx, "x", &Vec::new()),
        Action::Run(Operation::RemoveWorktree {
            path: "/home/u/wt/project/x".to_string(),
            from: "/home/u/project".to_string(),
        })
    );
}

#[test]
fn remove_that_is_refused_hands_on_the_diagnostic() {
    let ctx = context(false, "/home/u/wt/project/here");
    assert_eq!(
        worktree::remove::execute(&ctx, "x", &vec![refused("fatal: 'x' is not a working tree\n")]),
        Action::Abort(Failure::WorktreeRemoveFailed { detail: "fatal: 'x' is not a working tree\n".to_string() })
    );
    assert_eq!(
        worktree::remove::execute(&ctx, "x", &vec![not_started("no git")]),
        Action::Abort(Failure::NotStarted { task: Task::RemoveWorktree, detail: "no git".to_string() })
    );
}

#[test]
fn checkout_moves_to_the_first_worktree_that_answers_to_the_name() {
    let listing = "/home/u/project aaa [main]\n/home/u/wt/project/x bbb [feat-x]\n/home/u/wt/project/y ccc (detached HEAD)\n";
    assert_eq!(worktree::checkout::execute("feat-x", &Vec::new()), Action::Run(Operation::ListWorktrees));
    assert_eq!(
        worktree::checkout::execute("feat-x", &vec![ok(listing)]),
        Action::Finish { output: Some("cd \"/home/u/wt/project/x\"\n".to_string()) }
    );
    assert_eq!(
        worktree::checkout::execute("y", &vec![ok(listing)]),
        Action::Finish { output: Some("cd \"/home/u/wt/project/y\"\n".to_string()) }
    );
    assert_eq!(
        worktree::checkout::execute("main", &vec![ok(listing)]),
        Action::Finish { output: Some("cd \"/home/u/project\"\n".to_string()) }
    );
}

#[test]
fn checkout_of_an_unknown_name_fails() {
    let listing = "/home/u/project aaa [main]\n";
    assert_eq!(
        worktree::checkout::execute("z", &vec![ok(listing)]),
        Action::Abort(Failure::WorktreeNotFound { wanted: "z".to_string(), named: true })
    );
}

#[test]
fn checkout_fails_when_the_list_cannot_be_had() {
    assert_eq!(
        worktree::checkout::execute("x", &vec![refused("fatal: not a git repository\n")]),
        Action::Abort(Failure::WorktreeListFailed { detail: "fatal: not a git repository\n".to_string() })
    );
}

#[test]
fn list_hands_the_listing_on_as_it_came() {
    assert_eq!(worktree::list::execute(&Vec::new()), Action::Run(Operation::ListWorktrees));
    let listing = "/home/u/project  aaa [main]\n/x  bbb (bare)\n";
    assert_eq!(worktree::list::execute(&vec![ok(listing)]), Action::Finish { output: Some(listing.to_string()) });
    assert_eq!(worktree::list::execute(&vec![ok("")]), Action::Finish { output: Some(String::new()) });
}

#[test]
fn list_that_is_refused_fails() {
    assert_eq!(
        worktree::list::execute(&vec![refused("fatal: not a git repository\n")]),
        Action::Abort(Failure::WorktreeListFailed { detail: "fatal: not a git repository\n".to_string() })
    );
    assert_eq!(
        worktree::list::execute(&vec![not_started("no git")]),
        Action::Abort(Failure::NotStarted { task: Task::ListWorktrees, detail: "no git".to_string() })
    );
}

#[test]
fn master_moves_to_the_parent_of_the_shared_metadata() {
    let here = Some("/home/u/wt/project/x");
    assert_eq!(worktree::master::execute(here, &Vec::new()), Action::Run(Operation::QueryCommonDir));
    assert_eq!(
        worktree::master::execute(here, &vec![ok("/home/u/project/.git\n")]),
        Action::Finish { output: Some("cd \"/home/u/project\"\n".to_string()) }
    );
}

#[test]
fn master_stays_at_the_top_of_the_primary_checkout() {
    assert_eq!(
        worktree::master::execute(Some("/home/u/project"), &vec![ok(".git\n")]),
        Action::Finish { output: Some("cd \"/home/u/project\"\n".to_string()) }
    );
}

#[test]
fn master_from_a_directory_inside_the_primary_checkout() {
    assert_eq!(
        worktree::master::execute(Some("/home/u/project/src"), &vec![ok("../.git\n")]),
        Action::Finish { output: Some("cd \"/home/u/project/src/..\"\n".to_string()) }
    );
}

#[test]
fn master_needs_a_current_directory() {
    assert_eq!(worktree::master::execute(None, &Vec::new()), Action::Abort(Failure::MissingCurrentDirectory));
    assert_eq!(
        worktree::master::execute(None, &vec![ok("/home/u/project/.git\n")]),
        Action::Abort(Failure::MissingCurrentDirectory)
    );
}

#[test]
fn master_fails_outside_a_repository() {
    let here = Some("/home/u");
    assert_eq!(
        worktree::master::execute(here, &vec![refused("fatal: not a git repository\n")]),
        Action::Abort(Failure::NotARepository { detail: "fatal: not a git repository\n".to_string() })
    );
    assert_eq!(worktree::master::execute(here, &vec![ok("/\n")]), Action::Abort(Failure::MetadataLayoutUnexpected));
    assert_eq!(
        worktree::master::execute(Some("relative"), &vec![ok(".git\n")]),
        Action::Abort(Failure::MetadataLayoutUnexpected)
    );
}

#[test]
fn list_that_is_no_text_fails() {
    let garbled = Reply::Exited {
        success: true,
        stdout: "/p/x\u{fffd} abc [b]\n".to_string(),
        stdout_intact: false,
        stderr: String::new(),
    };
    let failure = Failure::OutputNotText { task: Task::ListWorktrees, raw: "/p/x\u{fffd} abc [b]\n".to_string() };
    assert_eq!(worktree::list::execute(&vec![garbled]), Action::Abort(failure));
}

#[test]
fn checkout_fails_on_a_list_that_is_no_text() {
    let garbled = Reply::Exited {
        success: true,
        stdout: "/p/x abc [b\u{fffd}]\n".to_string(),
        stdout_intact: false,
        stderr: String::new(),
    };
    let failure = Failure::OutputNotText { task: Task::ListWorktrees, raw: "/p/x abc [b\u{fffd}]\n".to_string() };
    assert_eq!(worktree::checkout::execute("x", &vec![garbled]), Action::Abort(failure));
}

#[test]
fn reply_amounts_to_the_failure_of_its_task() {
    let cases = [
        (Task::QueryRepository, Failure::NotARepository { detail: "e".to_string() }),
        (Task::QueryBranch, Failure::DetachedOrUnresolvable { detail: "e".to_string() }),
        (Task::ListWorktrees, Failure::WorktreeListFailed { detail: "e".to_string() }),
        (Task::CreateWorktree, Failure::WorktreeCreateFailed { detail: "e".to_string() }),
        (Task::RemoveWorktree, Failure::WorktreeRemoveFailed { detail: "e".to_string() }),
        (Task::MergePullRequest, Failure::MergeFailed { detail: "e".to_string() }),
    ];
    for (task, failure) in cases {
        assert_eq!(task.refusal("e".to_string()), failure);
        assert_eq!(refused("e").failure(task), failure);
        assert_eq!(refused("e").text(task), Err(failure));
        assert_eq!(not_started("d").failure(task), Failure::NotStarted { task, detail: "d".to_string() });
        assert_eq!(not_started("d").text(task), Err(Failure::NotStarted { task, detail: "d".to_string() }));
        assert_eq!(ok(" as it came \n").text(task), Ok(" as it came \n".to_string()));
    }
}

#[test]
fn queries_have_their_command_lines() {
    assert_eq!(Operation::QueryGitDir.command_line(), git(&["rev-parse", "--git-dir"], None));
    assert_eq!(Operation::QueryTopLevel.command_line(), git(&["rev-parse", "--show-toplevel"], None));
    assert_eq!(Operation::QueryCommonDir.command_line(), git(&["rev-parse", "--git-common-dir"], None));
    assert_eq!(
        Operation::QueryBranch { worktree: "/w".to_string() }.command_line(),
        git(&["rev-parse", "--abbrev-ref", "HEAD"], Some("/w"))
    );
    assert_eq!(Operation::ListWorktrees.command_line(), git(&["worktree", "list"], None));
}

#[test]
fn changes_have_their_command_lines() {
    assert_eq!(
        Operation::AddWorktree { path: "/w/x".to_string(), branch: "x".to_string() }.command_line(),
        git(&["worktree", "add", "/w/x", "x"], None)
    );
    assert_eq!(
        Operation::RemoveWorktree { path: "/w/x".to_string(), from: "/p".to_string() }.command_line(),
        git(&["worktree", "remove", "/w/x"], Some("/p"))
    );
    assert_eq!(
        Operation::DeleteLocalBranch { branch: "b".to_string(), from: "/p".to_string() }.command_line(),
        git(&["branch", "-D", "b"], Some("/p"))
    );
    assert_eq!(
        Operation::DeleteRemoteBranch { branch: "b".to_string(), from: "/p".to_string() }.command_line(),
        git(&["push", "origin", "--delete", "b"], Some("/p"))
    );
}

#[test]
fn merge_has_the_command_line_of_the_hosting_tool() {
    for (strategy, flag) in
        [(MergeStrategy::Squash, "--squash"), (MergeStrategy::Merge, "--merge"), (MergeStrategy::Rebase, "--rebase")]
    {
        assert_eq!(
            Operation::MergePullRequest { worktree: "/w/x".to_string(), strategy }.command_line(),
            Some(CommandLine {
                program: "gh".to_string(),
                arguments: vec!["pr".to_string(), "merge".to_string(), flag.to_string()],
                directory: Some("/w/x".to_string()),
            })
        );
    }
}

#[test]
fn work_on_files_has_no_command_line() {
    assert_eq!(Operation::ProbePath { path: "/w".to_string() }.command_line(), None);
    assert_eq!(Operation::CopyFile { from: "/a".to_string(), to: "/b".to_string() }.command_line(), None);
}

#[test]
fn reply_tells_success_and_diagnostic() {
    assert!(ok("x").succeeded());
    assert!(!refused("e").succeeded());
    assert!(!not_started("d").succeeded());
    assert_eq!(ok("x").diagnostic(), "");
    assert_eq!(refused("e").diagnostic(), "e");
    assert_eq!(not_started("d").diagnostic(), "d");
}
