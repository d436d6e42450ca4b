use worktree::paths::{begins_at_root, child_path, file_name, parent, resolve, target_path};

#[test]
fn target_path_is_root_repo_name() {
    assert_eq!(target_path("/home/u/worktrees", "project", "feature-1"), "/home/u/worktrees/project/feature-1");
}

#[test]
fn target_path_joins_whatever_it_is_given() {
    assert_eq!(target_path("", "", ""), "//");
    assert_eq!(target_path("/r/", "p", "n"), "/r//p/n");
    assert_eq!(target_path("r", "p", "a/b"), "r/p/a/b");
    assert_eq!(target_path("/r", "p", "/abs"), "/r/p//abs");
}

#[test]
fn target_path_ends_in_the_name_and_lies_in_the_repository_directory() {
    let path = target_path("/home/u/worktrees", "project", "featurex");
    assert_eq!(file_name(&path), Some("featurex".to_string()));
    assert_eq!(parent(&path), Some("/home/u/worktrees/project".to_string()));
}

#[test]
fn child_path_puts_a_separator_between() {
    assert_eq!(child_path("/home/u/project", ".env"), "/home/u/project/.env");
}

#[test]
fn file_name_is_the_final_segment() {
    assert_eq!(file_name("/p/x"), Some("x".to_string()));
    assert_eq!(file_name("/home/u/project"), Some("project".to_string()));
    assert_eq!(file_name("project"), Some("project".to_string()));
    assert_eq!(file_name("a/b.txt"), Some("b.txt".to_string()));
    assert_eq!(file_name("a/.hidden"), Some(".hidden".to_string()));
    assert_eq!(file_name("a/b."), Some("b.".to_string()));
    assert_eq!(file_name("a/..."), Some("...".to_string()));
}

#[test]
fn file_name_passes_over_separators_and_single_dots_at_the_end() {
    assert_eq!(file_name("/p/x/"), Some("x".to_string()));
    assert_eq!(file_name("/p/x//"), Some("x".to_string()));
    assert_eq!(file_name("/p/x/."), Some("x".to_string()));
    assert_eq!(file_name("/p/x/./"), Some("x".to_string()));
    assert_eq!(file_name("./x"), Some("x".to_string()));
}

#[test]
fn file_name_is_missing_where_no_segment_names_anything() {
    assert_eq!(file_name(""), None);
    assert_eq!(file_name("/"), None);
    assert_eq!(file_name("//"), None);
    assert_eq!(file_name("."), None);
    assert_eq!(file_name("./"), None);
    assert_eq!(file_name("./."), None);
    assert_eq!(file_name(".."), None);
    assert_eq!(file_name("a/.."), None);
    assert_eq!(file_name("/.."), None);
    assert_eq!(file_name("a/../"), None);
}

#[test]
fn file_name_agrees_with_the_standard_library() {
    for path in ["", "/", "//", ".", "./", "./.", "..", "a/..", "/..", "a/../", "/p/x", "/p/x/", "/p/x/.", "./x",
        ".x", "a/.hidden", "a//b", "a/./b", "a/b/./.", "/a", "a", "..a", "a..", "./..", "../x", ".//x", "/./x",
        "x/.", "/.", "/./", "a b/c d", "é/ü"]
    {
        let expected = std::path::Path::new(path).file_name().map(|n| n.to_str().unwrap().to_string());
        assert_eq!(file_name(path), expected, "{:?}", path);
    }
}

#[test]
fn parent_drops_the_final_segment() {
    assert_eq!(parent("/home/u/project/.git"), Some("/home/u/project".to_string()));
    assert_eq!(parent("a/b"), Some("a".to_string()));
    assert_eq!(parent("/a"), Some("/".to_string()));
    assert_eq!(parent("../x"), Some("..".to_string()));
}

#[test]
fn parent_of_a_plain_name_in_a_directory_is_the_directory() {
    assert_eq!(parent(&child_path("/home/u/proj", ".git")), Some("/home/u/proj".to_string()));
    assert_eq!(parent(&child_path("/", ".git")), Some("/".to_string()));
    assert_eq!(parent(&child_path("/a b/c", "x")), Some("/a b/c".to_string()));
}

#[test]
fn path_begins_at_the_root_or_not() {
    assert!(begins_at_root("/"));
    assert!(begins_at_root("/home/u"));
    assert!(!begins_at_root(""));
    assert!(!begins_at_root(".git"));
    assert!(!begins_at_root("../x"));
    assert!(!begins_at_root(" /x"));
}

#[test]
fn path_is_seen_from_a_directory_unless_it_begins_at_the_root() {
    assert_eq!(resolve("/home/u/proj", ".git"), "/home/u/proj/.git");
    assert_eq!(resolve("/home/u/proj", "../.git"), "/home/u/proj/../.git");
    assert_eq!(resolve("/home/u/proj", "/elsewhere/.git"), "/elsewhere/.git");
    assert_eq!(resolve("", "x"), "/x");
    assert_eq!(resolve("/d", ""), "/d/");
}

#[test]
fn parent_of_a_single_relative_segment_is_empty() {
    assert_eq!(parent("a"), Some("".to_string()));
    assert_eq!(parent(".."), Some("".to_string()));
    assert_eq!(parent("."), Some("".to_string()));
}

#[test]
fn parent_is_missing_for_the_root_and_for_nothing() {
    assert_eq!(parent("/"), None);
    assert_eq!(parent("//"), None);
    assert_eq!(parent(""), None);
}

#[test]
fn parent_passes_over_what_names_nothing() {
    assert_eq!(parent("/a/./b"), Some("/a".to_string()));
    assert_eq!(parent("a//b"), Some("a".to_string()));
    assert_eq!(parent("a/b/"), Some("a".to_string()));
    assert_eq!(parent("./x"), Some(".".to_string()));
    assert_eq!(parent(".//x"), Some(".".to_string()));
    assert_eq!(parent("//x"), Some("/".to_string()));
}

#[test]
fn parent_agrees_with_the_standard_library() {
    for path in ["", "/", "//", ".", "./", "./.", "..", "a/..", "/..", "a/../", "/p/x", "/p/x/", "/p/x/.", "./x",
        ".x", "a/.hidden", "a//b", "a/./b", "a/b/./.", "/a", "a", "..a", "a..", "./..", "../x", ".//x", "/./x",
        "x/.", "/.", "/./", "a b/c d", "é/ü", "/home/u/project/.git", ".git", "../.git", "a/b/c", "/a/b//c//"]
    {
        let expected = std::path::Path::new(path).parent().map(|p| p.to_str().unwrap().to_string());
        assert_eq!(parent(path), expected, "{:?}", path);
    }
}
