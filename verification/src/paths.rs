//! Paths as text with `/` between the segments: where a worktree lives, and
//! the final segment and the parent of a path.
//!
//! A path is read as an optional anchor (a leading `/`, or a leading `.` that
//! stands alone or before a `/`) followed by segments. Empty segments and
//! segments that are a single `.` carry no meaning and are passed over.

use vstd::prelude::*;
use crate::text::{chars_of, slice};

verus! {

/// `leaf` directly inside `dir`.
pub open spec fn child(dir: Seq<char>, leaf: Seq<char>) -> Seq<char> {
    dir + seq!['/'] + leaf
}

/// The place of the worktree `name` of repository `repo` under `root`:
/// `root/repo/name`.
pub open spec fn joined(root: Seq<char>, repo: Seq<char>, name: Seq<char>) -> Seq<char> {
    root + seq!['/'] + repo + seq!['/'] + name
}

/// The path begins at the root.
pub open spec fn is_absolute(p: Seq<char>) -> bool {
    p.len() > 0 && p[0] == '/'
}

/// `p` as seen from the directory `base`: `p` itself where it begins at the
/// root, else `p` inside `base`.
pub open spec fn resolved_against(base: Seq<char>, p: Seq<char>) -> Seq<char> {
    if is_absolute(p) {
        p
    } else {
        child(base, p)
    }
}

/// A name that is one meaningful segment: not empty, without `/`, and
/// neither `.` nor `..`.
pub open spec fn is_plain_name(name: Seq<char>) -> bool {
    &&& name.len() > 0
    &&& forall|i: int| 0 <= i < name.len() ==> name[i] != '/'
    &&& name != seq!['.']
    &&& name != seq!['.', '.']
}

/// The length of the anchor of `p`: 1 for a leading `/`, 1 for a leading `.`
/// that stands alone or before a `/`, else 0.
pub open spec fn anchor_len(p: Seq<char>) -> int {
    if p.len() > 0 && p[0] == '/' {
        1
    } else if p.len() > 0 && p[0] == '.' && (p.len() == 1 || p[1] == '/') {
        1
    } else {
        0
    }
}

/// Where the last meaningful segment of `p[lo..hi]` ends: separators, empty
/// segments and single-dot segments at the end are passed over. `lo` when
/// there is no such segment.
pub open spec fn component_end(p: Seq<char>, lo: int, hi: int) -> int
    decreases hi - lo,
{
    if hi <= lo {
        lo
    } else if p[hi - 1] == '/' {
        component_end(p, lo, hi - 1)
    } else if p[hi - 1] == '.' && (hi - 1 == lo || p[hi - 2] == '/') {
        component_end(p, lo, hi - 1)
    } else {
        hi
    }
}

/// Where the segment that ends at `end` begins: behind the last `/` before
/// `end`, but not before `lo`.
pub open spec fn segment_start(p: Seq<char>, lo: int, end: int) -> int
    decreases end - lo,
{
    if end <= lo {
        lo
    } else if p[end - 1] == '/' {
        end
    } else {
        segment_start(p, lo, end - 1)
    }
}

/// The final segment of `p`: its last meaningful segment, unless that is `..`.
pub open spec fn file_name_of(p: Seq<char>) -> Option<Seq<char>> {
    let lo = anchor_len(p);
    let e = component_end(p, lo, p.len() as int);
    let s = segment_start(p, lo, e);
    if e <= lo || p.subrange(s, e) == seq!['.', '.'] {
        None
    } else {
        Some(p.subrange(s, e))
    }
}

/// `p` without its last meaningful segment and what stands between that and
/// the segment before it. A path that is only `/`, or empty, has no parent; a
/// path that is only a `.` anchor has the empty parent.
pub open spec fn parent_of(p: Seq<char>) -> Option<Seq<char>> {
    let lo = anchor_len(p);
    let e = component_end(p, lo, p.len() as int);
    if e > lo {
        Some(p.subrange(0, component_end(p, lo, segment_start(p, lo, e))))
    } else if lo == 1 && p[0] == '.' {
        Some(Seq::empty())
    } else {
        None
    }
}

/// `component_end` stays within its bounds, and a segment ends where it points.
pub proof fn lemma_component_end(p: Seq<char>, lo: int, hi: int)
    requires
        0 <= lo <= hi <= p.len(),
    ensures
        lo <= component_end(p, lo, hi) <= hi,
        component_end(p, lo, hi) > lo ==> p[component_end(p, lo, hi) - 1] != '/',
    decreases hi - lo,
{
    if hi > lo && (p[hi - 1] == '/' || (p[hi - 1] == '.' && (hi - 1 == lo || p[hi - 2] == '/'))) {
        lemma_component_end(p, lo, hi - 1);
    }
}

/// `segment_start` points behind the nearest `/` before `end`, or at `lo`.
pub proof fn lemma_segment_start(p: Seq<char>, lo: int, end: int)
    requires
        0 <= lo <= end <= p.len(),
    ensures
        lo <= segment_start(p, lo, end) <= end,
        forall|k: int| segment_start(p, lo, end) <= k < end ==> p[k] != '/',
        segment_start(p, lo, end) > lo ==> p[segment_start(p, lo, end) - 1] == '/',
    decreases end - lo,
{
    if end > lo && p[end - 1] != '/' {
        lemma_segment_start(p, lo, end - 1);
    }
}

/// The parent of a path that begins at the root begins at the root.
pub proof fn lemma_parent_of_absolute(p: Seq<char>)
    requires
        is_absolute(p),
    ensures
        parent_of(p) matches Some(dir) ==> is_absolute(dir),
{
    let e = component_end(p, 1, p.len() as int);
    lemma_component_end(p, 1, p.len() as int);
    if e > 1 {
        lemma_segment_start(p, 1, e);
        lemma_component_end(p, 1, segment_start(p, 1, e));
    }
}

/// Where the last meaningful segment ends depends only on the characters
/// looked at.
pub proof fn lemma_component_end_reads_its_range(p: Seq<char>, q: Seq<char>, lo: int, hi: int)
    requires
        0 <= lo <= hi <= p.len(),
        hi <= q.len(),
        forall|i: int| lo <= i < hi ==> p[i] == q[i],
    ensures
        component_end(p, lo, hi) == component_end(q, lo, hi),
    decreases hi - lo,
{
    if hi > lo {
        lemma_component_end_reads_its_range(p, q, lo, hi - 1);
    }
}

/// A path ends in a meaningful segment: no separator and no single-dot
/// segment stands at its end. The root alone does so too.
pub open spec fn ends_in_a_segment(p: Seq<char>) -> bool {
    component_end(p, anchor_len(p), p.len() as int) == p.len()
}

/// The parent of a plain name inside a directory is that directory, where
/// the directory is named from the root and ends in a meaningful segment.
pub proof fn lemma_parent_of_child(dir: Seq<char>, name: Seq<char>)
    requires
        is_absolute(dir),
        ends_in_a_segment(dir),
        is_plain_name(name),
    ensures
        parent_of(child(dir, name)) == Some(dir),
{
    let p = child(dir, name);
    let n = p.len() as int;
    let s0 = n - name.len();
    assert(p.subrange(s0, n) =~= name);
    // the name is the last segment: it is not a single dot, and a separator
    // stands before it
    if p[n - 1] == '.' && p[n - 2] == '/' {
        assert(name =~= seq!['.']);
    }
    lemma_segment_start(p, 1, n);
    assert(p[s0 - 1] == '/');
    assert(segment_start(p, 1, n) == s0);
    // before that separator the path is the directory
    lemma_component_end_reads_its_range(p, dir, 1, dir.len() as int);
    assert(component_end(p, 1, s0) == component_end(p, 1, s0 - 1));
    assert(p.subrange(0, dir.len() as int) =~= dir);
}

/// A final segment is a plain name.
pub proof fn lemma_file_name_is_plain(p: Seq<char>)
    ensures
        file_name_of(p) matches Some(n) ==> is_plain_name(n),
{
    let lo = anchor_len(p);
    let e = component_end(p, lo, p.len() as int);
    lemma_component_end(p, lo, p.len() as int);
    lemma_component_end_is_meaningful(p, lo, p.len() as int);
    lemma_segment_start(p, lo, e);
    let n = p.subrange(segment_start(p, lo, e), e);
    if e > lo && n == seq!['.'] {
        assert(n.len() == 1);
        assert(n[0] == '.');
    }
}

/// What `component_end` points behind is no single-dot segment.
proof fn lemma_component_end_is_meaningful(p: Seq<char>, lo: int, hi: int)
    requires
        0 <= lo <= hi <= p.len(),
    ensures
        ({
            let e = component_end(p, lo, hi);
            e > lo ==> !(p[e - 1] == '.' && (e - 1 == lo || p[e - 2] == '/'))
        }),
    decreases hi - lo,
{
    if hi > lo && (p[hi - 1] == '/' || (p[hi - 1] == '.' && (hi - 1 == lo || p[hi - 2] == '/'))) {
        lemma_component_end_is_meaningful(p, lo, hi - 1);
    }
}

/// The place of a plainly named worktree ends in that name, and lies
/// directly in the directory of its repository when that is plainly named too.
pub proof fn lemma_joined_segments(root: Seq<char>, repo: Seq<char>, name: Seq<char>)
    requires
        is_plain_name(name),
    ensures
        file_name_of(joined(root, repo, name)) == Some(name),
        is_plain_name(repo) ==> parent_of(joined(root, repo, name)) == Some(child(root, repo)),
{
    let p = joined(root, repo, name);
    let n = p.len() as int;
    let lo = anchor_len(p);
    let s0 = n - name.len();
    assert(p.subrange(s0, n) =~= name);
    // the name is the last segment: it is not a single dot, and a separator
    // stands before it
    if p[n - 1] == '.' && p[n - 2] == '/' {
        assert(name =~= seq!['.']);
    }
    lemma_segment_start(p, lo, n);
    assert(p[s0 - 1] == '/');
    assert(segment_start(p, lo, n) == s0);
    if is_plain_name(repo) {
        // the name of the repository is the segment before it
        let m = s0 - 1;
        if p[m - 1] == '.' && (m - 1 == lo || p[m - 2] == '/') {
            assert(repo =~= seq!['.']);
        }
        assert(component_end(p, lo, s0) == component_end(p, lo, m));
    }
}

/// The place of the worktree `name` of repository `repo` under `root`.
pub fn target_path(root: &str, repo: &str, name: &str) -> (path: String)
    ensures
        path@ == joined(root@, repo@, name@),
{
    proof {
        reveal_strlit("/");
    }
    let mut path = String::from_str(root);
    path.append("/");
    path.append(repo);
    path.append("/");
    path.append(name);
    path
}

/// Whether the path begins at the root.
pub fn begins_at_root(path: &str) -> (r: bool)
    ensures
        r == is_absolute(path@),
{
    let p = chars_of(path);
    p.len() > 0 && p[0] == '/'
}

/// `path` as seen from the directory `base`.
pub fn resolve(base: &str, path: &str) -> (full: String)
    ensures
        full@ == resolved_against(base@, path@),
{
    if begins_at_root(path) {
        String::from_str(path)
    } else {
        child_path(base, path)
    }
}

/// The path of `leaf` directly inside `dir`.
pub fn child_path(dir: &str, leaf: &str) -> (path: String)
    ensures
        path@ == child(dir@, leaf@),
{
    proof {
        reveal_strlit("/");
    }
    let mut path = String::from_str(dir);
    path.append("/");
    path.append(leaf);
    path
}

fn anchor(p: &Vec<char>) -> (r: usize)
    ensures
        r == anchor_len(p@),
        r <= p.len(),
{
    if p.len() > 0 && p[0] == '/' {
        1
    } else if p.len() > 0 && p[0] == '.' && (p.len() == 1 || p[1] == '/') {
        1
    } else {
        0
    }
}

fn find_component_end(p: &Vec<char>, lo: usize, hi: usize) -> (r: usize)
    requires
        lo <= hi <= p.len(),
    ensures
        r == component_end(p@, lo as int, hi as int),
        lo <= r <= hi,
{
    let mut e = hi;
    while e > lo && (p[e - 1] == '/' || (p[e - 1] == '.' && (e - 1 == lo || p[e - 2] == '/')))
        invariant
            lo <= e <= hi <= p.len(),
            component_end(p@, lo as int, hi as int) == component_end(p@, lo as int, e as int),
        decreases e - lo,
    {
        e -= 1;
    }
    e
}

fn find_segment_start(p: &Vec<char>, lo: usize, end: usize) -> (r: usize)
    requires
        lo <= end <= p.len(),
    ensures
        r == segment_start(p@, lo as int, end as int),
        lo <= r <= end,
{
    let mut s = end;
    while s > lo && p[s - 1] != '/'
        invariant
            lo <= s <= end <= p.len(),
            segment_start(p@, lo as int, end as int) == segment_start(p@, lo as int, s as int),
        decreases s - lo,
    {
        s -= 1;
    }
    s
}

/// The final segment of `path`, if it has one.
pub fn file_name(path: &str) -> (name: Option<String>)
    ensures
        name.deep_view() == file_name_of(path@),
{
    let p = chars_of(path);
    let lo = anchor(&p);
    let e = find_component_end(&p, lo, p.len());
    let s = find_segment_start(&p, lo, e);
    if e <= lo || (e - s == 2 && p[s] == '.' && p[s + 1] == '.') {
        proof {
            if e > lo {
                assert(p@.subrange(s as int, e as int) =~= seq!['.', '.']);
            }
        }
        None
    } else {
        proof {
            let seg = p@.subrange(s as int, e as int);
            if seg == seq!['.', '.'] {
                assert(seg.len() == 2);
            }
        }
        Some(slice(path, s, e))
    }
}

/// The parent of `path`, if it has one.
pub fn parent(path: &str) -> (dir: Option<String>)
    ensures
        dir.deep_view() == parent_of(path@),
{
    let p = chars_of(path);
    let lo = anchor(&p);
    let e = find_component_end(&p, lo, p.len());
    if e > lo {
        let s = find_segment_start(&p, lo, e);
        let k = find_component_end(&p, lo, s);
        Some(slice(path, 0, k))
    } else if lo == 1 && p[0] == '.' {
        Some(String::new())
    } else {
        None
    }
}

} // verus!
