//! Reading the list of worktrees, and finding the one that a name stands for.

use vstd::prelude::*;
use crate::failure::{Failure, FailureView, Task};
use crate::paths::{
    anchor_len, component_end, ends_in_a_segment, file_name, file_name_of, lemma_component_end,
    lemma_segment_start, segment_start,
};
use crate::process::{
    text_of, Action, ActionView, Operation, OperationView, Reply, ReplyView,
};
use crate::text::{
    chars_of, find_char, is_space, lemma_position, lemma_spaces_end, lemma_token_end, position,
    same, skip_spaces, skip_token, slice, spaces_end, token_end,
};
use crate::utils::{cd_command, print_cd_command};

verus! {

/// One worktree of the repository, as the list of worktrees shows it.
#[derive(Debug, PartialEq, Eq)]
pub struct WorktreeRef {
    /// Where the worktree lies.
    pub path: String,
    /// The final segment of `path`; empty if it has none.
    pub dir_name: String,
    /// The branch checked out there; none for a detached or bare entry.
    pub branch: Option<String>,
}

/// A [`WorktreeRef`] with its texts as sequences of characters.
pub struct WorktreeRefView {
    pub path: Seq<char>,
    pub dir_name: Seq<char>,
    pub branch: Option<Seq<char>>,
}

impl View for WorktreeRef {
    type V = WorktreeRefView;

    open spec fn view(&self) -> WorktreeRefView {
        WorktreeRefView {
            path: self.path@,
            dir_name: self.dir_name@,
            branch: self.branch.deep_view(),
        }
    }
}

impl DeepView for WorktreeRef {
    type V = WorktreeRefView;

    open spec fn deep_view(&self) -> WorktreeRefView {
        self@
    }
}

/// The text between the first `[` of `line` and the first `]` after it.
pub open spec fn bracketed(line: Seq<char>) -> Option<Seq<char>> {
    let open = position(line, '[', 0);
    let close = position(line, ']', open + 1);
    if open < line.len() && close < line.len() {
        Some(line.subrange(open + 1, close))
    } else {
        None
    }
}

/// The record that `line` holds: its first run of characters other than
/// white space is the path, and a bracketed text names the branch. A line of
/// nothing but white space holds no record.
pub open spec fn record_of(line: Seq<char>) -> Option<WorktreeRefView> {
    let start = spaces_end(line, 0);
    if start >= line.len() {
        None
    } else {
        let path = line.subrange(start, token_end(line, start));
        Some(
            WorktreeRefView {
                path,
                dir_name: dir_name_of(path),
                branch: bracketed(line),
            },
        )
    }
}

/// The line of `text` that begins at `from`. It ends before the next line
/// feed, and before a carriage return that stands directly before that line
/// feed.
pub open spec fn line_at(text: Seq<char>, from: int) -> Seq<char> {
    let end = position(text, '\n', from);
    if end < text.len() && from < end && text[end - 1] == '\r' {
        text.subrange(from, end - 1)
    } else {
        text.subrange(from, end)
    }
}

/// The records of the lines of `text` from index `from` on, in order.
pub open spec fn records_from(text: Seq<char>, from: int) -> Seq<WorktreeRefView>
    decreases text.len() - from,
{
    if from < 0 || from >= text.len() {
        Seq::empty()
    } else {
        proof {
            lemma_position(text, '\n', from);
        }
        let end = position(text, '\n', from);
        let rest = if end < text.len() {
            records_from(text, end + 1)
        } else {
            Seq::empty()
        };
        match record_of(line_at(text, from)) {
            Some(record) => seq![record] + rest,
            None => rest,
        }
    }
}

/// The worktrees that the listing `text` shows, in order.
pub open spec fn listing_of(text: Seq<char>) -> Seq<WorktreeRefView> {
    records_from(text, 0)
}

/// The worktrees that a reply to [`Operation::ListWorktrees`] shows. A list
/// that could not be had, or that is no text, shows none: it is a failure.
pub open spec fn worktrees_of(reply: ReplyView) -> Result<Seq<WorktreeRefView>, FailureView> {
    match text_of(reply, Task::ListWorktrees) {
        Ok(listing) => Ok(listing_of(listing)),
        Err(failure) => Err(failure),
    }
}

/// `name` stands for `worktree`: it is its directory name or its branch.
pub open spec fn answers_to(worktree: WorktreeRefView, name: Seq<char>) -> bool {
    worktree.dir_name == name || worktree.branch == Some(name)
}

/// The index of the first worktree from `from` on that `name` stands for.
pub open spec fn first_match_from(list: Seq<WorktreeRefView>, name: Seq<char>, from: int) -> Option<
    int,
>
    decreases list.len() - from,
{
    if from >= list.len() {
        None
    } else if answers_to(list[from], name) {
        Some(from)
    } else {
        first_match_from(list, name, from + 1)
    }
}

/// The index of the first worktree that `name` stands for.
pub open spec fn first_match(list: Seq<WorktreeRefView>, name: Seq<char>) -> Option<int> {
    first_match_from(list, name, 0)
}

/// What a checkout of `name` asks for next, given the replies so far: the
/// list of worktrees, then a move to the first worktree that `name` stands for.
pub open spec fn plan(name: Seq<char>, replies: Seq<ReplyView>) -> ActionView {
    if replies.len() == 0 {
        ActionView::Run(OperationView::ListWorktrees)
    } else {
        match worktrees_of(replies[0]) {
            Err(failure) => ActionView::Abort(failure),
            Ok(list) => match first_match(list, name) {
                Some(i) => ActionView::Finish { output: Some(cd_command(list[i].path)) },
                None => ActionView::Abort(
                    FailureView::WorktreeNotFound { wanted: name, named: true },
                ),
            },
        }
    }
}

/// The directory name that goes with `path`: its final segment, or nothing.
pub open spec fn dir_name_of(path: Seq<char>) -> Seq<char> {
    match file_name_of(path) {
        Some(name) => name,
        None => Seq::empty(),
    }
}

/// A path ends with the directory name that goes with it, where the path
/// ends in a meaningful segment; a path that ends in a separator or in a
/// single dot does not.
pub proof fn lemma_path_ends_with_its_directory_name(path: Seq<char>)
    requires
        ends_in_a_segment(path),
    ensures
        dir_name_of(path).len() <= path.len(),
        path.subrange(path.len() - dir_name_of(path).len(), path.len() as int) == dir_name_of(path),
{
    let lo = anchor_len(path);
    let e = component_end(path, lo, path.len() as int);
    lemma_component_end(path, lo, path.len() as int);
    lemma_segment_start(path, lo, e);
}

/// A line made of a path, a gap that begins with white space, a branch in
/// brackets and anything behind it holds the record of that path and that
/// branch, provided the path holds no white space, neither path nor gap
/// holds `[`, and the branch holds no `]`.
pub proof fn lemma_line_with_branch(
    path: Seq<char>,
    gap: Seq<char>,
    branch: Seq<char>,
    tail: Seq<char>,
)
    requires
        path.len() > 0,
        forall|i: int| 0 <= i < path.len() ==> !is_space(path[i]) && path[i] != '[',
        gap.len() > 0,
        is_space(gap[0]),
        forall|i: int| 0 <= i < gap.len() ==> gap[i] != '[',
        forall|i: int| 0 <= i < branch.len() ==> branch[i] != ']',
    ensures
        record_of(path + gap + seq!['['] + branch + seq![']'] + tail) == Some(
            WorktreeRefView { path, dir_name: dir_name_of(path), branch: Some(branch) },
        ),
{
    let line = path + gap + seq!['['] + branch + seq![']'] + tail;
    let open: int = (path.len() + gap.len()) as int;
    let close: int = open + 1 + branch.len();
    lemma_spaces_end(line, 0);
    lemma_token_end(line, 0);
    lemma_position(line, '[', 0);
    lemma_position(line, ']', open + 1);
    // the path is the first run without white space
    assert(is_space(line[path.len() as int]));
    assert(token_end(line, 0) == path.len());
    assert(line.subrange(0, path.len() as int) =~= path);
    // the brackets round the branch are the first of their kind
    assert(line[open] == '[');
    assert(position(line, '[', 0) == open);
    assert(line[close] == ']');
    assert(position(line, ']', open + 1) == close);
    assert(line.subrange(open + 1, close) =~= branch);
}

/// A line that begins with a path and holds no `[` names no branch: its
/// record is that of the path alone. The path holds no white space, and what
/// follows it begins with white space or is empty.
pub proof fn lemma_line_without_branch(path: Seq<char>, rest: Seq<char>)
    requires
        path.len() > 0,
        forall|i: int| 0 <= i < path.len() ==> !is_space(path[i]) && path[i] != '[',
        rest.len() > 0 ==> is_space(rest[0]),
        forall|i: int| 0 <= i < rest.len() ==> rest[i] != '[',
    ensures
        record_of(path + rest) == Some(
            WorktreeRefView { path, dir_name: dir_name_of(path), branch: None },
        ),
{
    let line = path + rest;
    lemma_spaces_end(line, 0);
    lemma_token_end(line, 0);
    lemma_position(line, '[', 0);
    // the path is the first run without white space
    if rest.len() > 0 {
        assert(is_space(line[path.len() as int]));
    }
    assert(token_end(line, 0) == path.len());
    assert(line.subrange(0, path.len() as int) =~= path);
}

/// `first_match_from` gives the least index from `from` on whose worktree
/// answers to `name`, and none only if there is none.
pub proof fn lemma_first_match(list: Seq<WorktreeRefView>, name: Seq<char>, from: int)
    requires
        0 <= from,
    ensures
        match first_match_from(list, name, from) {
            Some(i) => {
                &&& from <= i < list.len()
                &&& answers_to(list[i], name)
                &&& forall|j: int| from <= j < i ==> !answers_to(list[j], name)
            },
            None => forall|j: int| from <= j < list.len() ==> !answers_to(list[j], name),
        },
    decreases list.len() - from,
{
    if from < list.len() && !answers_to(list[from], name) {
        lemma_first_match(list, name, from + 1);
    }
}

/// A checkout ends in a move exactly when the list could be had and some
/// worktree in it answers to the name; the move then goes to the first such
/// worktree. When none answers, the command fails and names what was wanted.
pub proof fn lemma_checkout_goes_to_the_first_match(name: Seq<char>, replies: Seq<ReplyView>)
    requires
        replies.len() >= 1,
        worktrees_of(replies[0]) is Ok,
    ensures
        ({
            let list = worktrees_of(replies[0])->Ok_0;
            match plan(name, replies) {
                ActionView::Finish { output } => exists|i: int|
                    {
                        &&& 0 <= i < list.len()
                        &&& #[trigger] answers_to(list[i], name)
                        &&& forall|j: int| 0 <= j < i ==> !answers_to(list[j], name)
                        &&& output == Some(cd_command(list[i].path))
                    },
                ActionView::Abort(failure) => {
                    &&& forall|j: int| 0 <= j < list.len() ==> !answers_to(list[j], name)
                    &&& failure == (FailureView::WorktreeNotFound { wanted: name, named: true })
                },
                ActionView::Run(_) => false,
            }
        }),
{
    lemma_first_match(worktrees_of(replies[0])->Ok_0, name, 0);
}

/// The record that one line of the listing holds.
pub fn parse_line(line: &str) -> (record: Option<WorktreeRef>)
    ensures
        record.deep_view() == record_of(line@),
{
    let chars = chars_of(line);
    let start = skip_spaces(&chars, 0);
    if start >= chars.len() {
        return None;
    }
    let end = skip_token(&chars, start);
    let path = slice(line, start, end);
    let dir_name = match file_name(path.as_str()) {
        Some(name) => name,
        None => String::new(),
    };
    let open = find_char(&chars, '[', 0);
    let branch = if open < chars.len() {
        let close = find_char(&chars, ']', open + 1);
        if close < chars.len() {
            Some(slice(line, open + 1, close))
        } else {
            None
        }
    } else {
        None
    };
    Some(WorktreeRef { path, dir_name, branch })
}

/// The worktrees that the listing `text` shows, in order.
pub fn parse_listing(text: &str) -> (list: Vec<WorktreeRef>)
    ensures
        list.deep_view() == listing_of(text@),
{
    let chars = chars_of(text);
    let mut list: Vec<WorktreeRef> = Vec::new();
    let mut from: usize = 0;
    while from < chars.len()
        invariant
            from <= chars.len(),
            chars@ == text@,
            list.deep_view() + records_from(text@, from as int) == listing_of(text@),
        decreases chars.len() - from,
    {
        let end = find_char(&chars, '\n', from);
        let stop = if end < chars.len() && from < end && chars[end - 1] == '\r' {
            end - 1
        } else {
            end
        };
        let line = slice(text, from, stop);
        if let Some(record) = parse_line(line.as_str()) {
            list.push(record);
        }
        if end < chars.len() {
            from = end + 1;
        } else {
            from = end;
        }
    }
    list
}

/// The worktrees that a reply to [`Operation::ListWorktrees`] shows.
pub fn list_worktrees(reply: &Reply) -> (r: Result<Vec<WorktreeRef>, Failure>)
    ensures
        match worktrees_of(reply@) {
            Ok(list) => r matches Ok(found) && found.deep_view() == list,
            Err(failure) => r matches Err(f) && f@ == failure,
        },
{
    match reply.text(Task::ListWorktrees) {
        Ok(listing) => Ok(parse_listing(listing.as_str())),
        Err(failure) => Err(failure),
    }
}

/// Whether `name` stands for `worktree`.
pub fn matches_name(worktree: &WorktreeRef, name: &str) -> (r: bool)
    ensures
        r == answers_to(worktree@, name@),
{
    if same(worktree.dir_name.as_str(), name) {
        return true;
    }
    match &worktree.branch {
        Some(branch) => same(branch.as_str(), name),
        None => false,
    }
}

/// The index of the first worktree in `list` that `name` stands for.
pub fn find_worktree(list: &Vec<WorktreeRef>, name: &str) -> (found: Option<usize>)
    ensures
        match found {
            Some(i) => first_match(list.deep_view(), name@) == Some(i as int),
            None => first_match(list.deep_view(), name@) is None,
        },
        match found {
            Some(i) => {
                &&& i < list.len()
                &&& answers_to(list[i as int]@, name@)
                &&& forall|j: int| 0 <= j < i ==> !answers_to(list[j]@, name@)
            },
            None => forall|j: int| 0 <= j < list.len() ==> !answers_to(list[j]@, name@),
        },
{
    let mut i: usize = 0;
    while i < list.len()
        invariant
            i <= list.len(),
            first_match(list.deep_view(), name@) == first_match_from(
                list.deep_view(),
                name@,
                i as int,
            ),
            forall|j: int| 0 <= j < i ==> !answers_to(list[j]@, name@),
        decreases list.len() - i,
    {
        if matches_name(&list[i], name) {
            return Some(i);
        }
        i += 1;
    }
    None
}

/// What a checkout of `name` asks for next, given the replies so far.
pub fn execute(name: &str, replies: &Vec<Reply>) -> (action: Action)
    ensures
        action@ == plan(name@, replies.deep_view()),
{
    if replies.len() == 0 {
        return Action::Run(Operation::ListWorktrees);
    }
    match list_worktrees(&replies[0]) {
        Err(failure) => Action::Abort(failure),
        Ok(list) => match find_worktree(&list, name) {
            Some(i) => Action::Finish { output: Some(print_cd_command(list[i].path.as_str())) },
            None => Action::Abort(
                Failure::WorktreeNotFound { wanted: String::from_str(name), named: true },
            ),
        },
    }
}

} // verus!
