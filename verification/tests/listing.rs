use worktree::checkout::{find_worktree, list_worktrees, matches_name, parse_line, parse_listing, WorktreeRef};
use worktree::failure::{Failure, Task};
use worktree::process::Reply;

fn worktree(path: &str, dir_name: &str, branch: Option<&str>) -> WorktreeRef {
    WorktreeRef { path: path.to_string(), dir_name: dir_name.to_string(), branch: branch.map(|b| b.to_string()) }
}

fn exited(success: bool, stdout: &str, stderr: &str) -> Reply {
    Reply::Exited { success, stdout: stdout.to_string(), stdout_intact: true, stderr: stderr.to_string() }
}

#[test]
fn line_with_a_branch_in_brackets() {
    assert_eq!(parse_line("/p/x abc123 [feature-1]"), Some(worktree("/p/x", "x", Some("feature-1"))));
}

#[test]
fn line_of_a_bare_entry_has_no_branch() {
    assert_eq!(parse_line("/p/y abc123 (bare)"), Some(worktree("/p/y", "y", None)));
}

#[test]
fn line_of_a_detached_entry_has_no_branch() {
    assert_eq!(parse_line("/p/z  0a1b2c3 (detached HEAD)"), Some(worktree("/p/z", "z", None)));
}

#[test]
fn line_with_wide_spacing() {
    assert_eq!(
        parse_line("/home/u/worktrees/project/topic   1234abc [topic]"),
        Some(worktree("/home/u/worktrees/project/topic", "topic", Some("topic")))
    );
}

#[test]
fn line_of_white_space_holds_no_record() {
    assert_eq!(parse_line(""), None);
    assert_eq!(parse_line("   "), None);
    assert_eq!(parse_line("\t"), None);
}

#[test]
fn line_with_white_space_in_front() {
    assert_eq!(parse_line("  /p/x abc [b]"), Some(worktree("/p/x", "x", Some("b"))));
}

#[test]
fn line_that_is_only_a_path() {
    assert_eq!(parse_line("/p/x"), Some(worktree("/p/x", "x", None)));
}

#[test]
fn branch_is_what_the_first_pair_of_brackets_holds() {
    assert_eq!(parse_line("/p/x abc [one] [two]"), Some(worktree("/p/x", "x", Some("one"))));
    assert_eq!(parse_line("/p/x abc [a[b]c]"), Some(worktree("/p/x", "x", Some("a[b"))));
    assert_eq!(parse_line("/p/x abc []"), Some(worktree("/p/x", "x", Some(""))));
    assert_eq!(parse_line("/p/x abc [feature/with space]"), Some(worktree("/p/x", "x", Some("feature/with space"))));
}

#[test]
fn brackets_that_do_not_pair_name_no_branch() {
    assert_eq!(parse_line("/p/x abc [open"), Some(worktree("/p/x", "x", None)));
    assert_eq!(parse_line("/p/x abc close]"), Some(worktree("/p/x", "x", None)));
    assert_eq!(parse_line("/p/x ] ["), Some(worktree("/p/x", "x", None)));
}

#[test]
fn closing_bracket_before_the_opening_one_is_passed_over() {
    assert_eq!(parse_line("/p/x a] [b]"), Some(worktree("/p/x", "x", Some("b"))));
}

#[test]
fn brackets_inside_the_path_count_too() {
    assert_eq!(parse_line("/p/[x] abc [b]"), Some(worktree("/p/[x]", "[x]", Some("x"))));
}

#[test]
fn directory_name_is_empty_where_the_path_has_no_final_segment() {
    assert_eq!(parse_line("/ abc [main]"), Some(worktree("/", "", Some("main"))));
    assert_eq!(parse_line("/p/.. abc"), Some(worktree("/p/..", "", None)));
}

#[test]
fn listing_of_several_lines() {
    let text = "/home/u/project          aaa1111 [main]\n/home/u/wt/project/x      bbb2222 [feat-x]\n/home/u/wt/project/y      ccc3333 (detached HEAD)\n";
    assert_eq!(
        parse_listing(text),
        vec![
            worktree("/home/u/project", "project", Some("main")),
            worktree("/home/u/wt/project/x", "x", Some("feat-x")),
            worktree("/home/u/wt/project/y", "y", None),
        ]
    );
}

#[test]
fn listing_without_a_final_line_feed() {
    assert_eq!(parse_listing("/a 1 [m]\n/b 2 [n]"), vec![worktree("/a", "a", Some("m")), worktree("/b", "b", Some("n"))]);
}

#[test]
fn listing_skips_empty_lines() {
    assert_eq!(parse_listing("\n/a 1 [m]\n\n   \n/b 2\n\n"), vec![worktree("/a", "a", Some("m")), worktree("/b", "b", None)]);
}

#[test]
fn listing_of_nothing_is_empty() {
    assert_eq!(parse_listing(""), Vec::<WorktreeRef>::new());
    assert_eq!(parse_listing("\n"), Vec::<WorktreeRef>::new());
}

#[test]
fn listing_with_carriage_returns() {
    assert_eq!(parse_listing("/a 1 [m]\r\n/b 2 [n]\r\n"), vec![worktree("/a", "a", Some("m")), worktree("/b", "b", Some("n"))]);
}

#[test]
fn listing_agrees_with_the_standard_library_on_lines() {
    for text in ["", "\n", "a", "a\n", "a\r\n", "a\r", "\r\n", "\r", "a\n\nb", "a\r\n\r\nb\r", "x\ry\n", "\n\n", "a\n\r\nb"] {
        let expected: Vec<WorktreeRef> = text
            .lines()
            .filter(|line| line.split_whitespace().next().is_some())
            .map(|line| {
                let path = line.split_whitespace().next().unwrap();
                worktree(path, path, None)
            })
            .collect();
        assert_eq!(parse_listing(text), expected, "{:?}", text);
    }
}

#[test]
fn list_worktrees_reads_a_successful_reply() {
    assert_eq!(list_worktrees(&exited(true, "/p/x abc123 [feature-1]\n", "")), Ok(vec![worktree("/p/x", "x", Some("feature-1"))]));
}

#[test]
fn list_worktrees_hands_on_the_diagnostic_of_a_refusal() {
    assert_eq!(
        list_worktrees(&exited(false, "/p/x abc [b]\n", "fatal: not a git repository\n")),
        Err(Failure::WorktreeListFailed { detail: "fatal: not a git repository\n".to_string() })
    );
}

#[test]
fn list_worktrees_builds_no_record_from_what_is_no_text() {
    let garbled = Reply::Exited {
        success: true,
        stdout: "/p/x abc123 [feature-\u{fffd}]\n".to_string(),
        stdout_intact: false,
        stderr: String::new(),
    };
    assert_eq!(
        list_worktrees(&garbled),
        Err(Failure::OutputNotText { task: Task::ListWorktrees, raw: "/p/x abc123 [feature-\u{fffd}]\n".to_string() })
    );
}

#[test]
fn list_worktrees_puts_a_refusal_before_output_that_is_no_text() {
    let reply = Reply::Exited { success: false, stdout: "\u{fffd}".to_string(), stdout_intact: false, stderr: "e".to_string() };
    assert_eq!(list_worktrees(&reply), Err(Failure::WorktreeListFailed { detail: "e".to_string() }));
}

#[test]
fn list_worktrees_tells_when_the_tool_did_not_start() {
    assert_eq!(
        list_worktrees(&Reply::NotStarted { detail: "No such file or directory".to_string() }),
        Err(Failure::NotStarted { task: Task::ListWorktrees, detail: "No such file or directory".to_string() })
    );
}

#[test]
fn name_matches_directory_name_or_branch() {
    let list = vec![worktree("/p/x", "x", Some("feat-x")), worktree("/p/y", "y", None)];
    assert_eq!(find_worktree(&list, "feat-x"), Some(0));
    assert_eq!(find_worktree(&list, "y"), Some(1));
    assert_eq!(find_worktree(&list, "z"), None);
    assert_eq!(find_worktree(&list, "x"), Some(0));
}

#[test]
fn first_match_wins() {
    let list = vec![worktree("/p/a", "a", Some("x")), worktree("/p/x", "x", Some("b")), worktree("/q/x", "x", Some("x"))];
    assert_eq!(find_worktree(&list, "x"), Some(0));
    assert_eq!(find_worktree(&list, "b"), Some(1));
}

#[test]
fn nothing_matches_in_an_empty_list() {
    assert_eq!(find_worktree(&Vec::new(), "x"), None);
}

#[test]
fn name_must_match_whole() {
    let list = vec![worktree("/p/feature", "feature", Some("feature/one"))];
    assert_eq!(find_worktree(&list, "feat"), None);
    assert_eq!(find_worktree(&list, "feature/one"), Some(0));
    assert_eq!(find_worktree(&list, "/p/feature"), None);
    assert_eq!(find_worktree(&list, ""), None);
}

#[test]
fn matches_name_needs_a_branch_to_match_a_branch() {
    assert!(matches_name(&worktree("/p/x", "x", None), "x"));
    assert!(!matches_name(&worktree("/p/x", "x", None), ""));
    assert!(matches_name(&worktree("/", "", None), ""));
    assert!(matches_name(&worktree("/p/x", "x", Some("b")), "b"));
}
