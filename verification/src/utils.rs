//! What the surrounding checkout says about itself, read from the replies to
//! the repository queries.

use vstd::prelude::*;
use crate::failure::{Failure, FailureView, Task};
use crate::paths::{
    anchor_len, begins_at_root, child, child_path, component_end, ends_in_a_segment, file_name,
    file_name_of, is_absolute, is_plain_name, lemma_component_end, lemma_file_name_is_plain,
    lemma_parent_of_absolute, lemma_parent_of_child, lemma_segment_start, parent, parent_of,
    resolve, resolved_against,
};
use crate::process::{result_view, text_of, Operation, OperationView, Reply, ReplyView};
use crate::text::{is_space, lemma_trimmed_is_trim, same, trim, trimmed};

verus! {

/// The trimmed text that the query `task` printed. A query that could not
/// be started, that reported failure, or that printed what is no text is a
/// failure, told with what the query said.
pub open spec fn answer_of(reply: ReplyView, task: Task) -> Result<Seq<char>, FailureView> {
    match text_of(reply, task) {
        Ok(text) => Ok(trimmed(text)),
        Err(failure) => Err(failure),
    }
}

/// The configured root directory is the setting, if there is one.
pub open spec fn root_dir_of(setting: Option<Seq<char>>) -> Result<Seq<char>, FailureView> {
    match setting {
        Some(dir) => Ok(dir),
        None => Err(FailureView::MissingRootDirectory),
    }
}

/// The current directory is what was found, if anything was.
pub open spec fn current_dir_of(found: Option<Seq<char>>) -> Result<Seq<char>, FailureView> {
    match found {
        Some(dir) => Ok(dir),
        None => Err(FailureView::MissingCurrentDirectory),
    }
}

/// The checkout is the primary one exactly if its metadata lies at `.git`.
pub open spec fn is_primary_of(git_dir: ReplyView) -> Result<bool, FailureView> {
    match answer_of(git_dir, Task::QueryRepository) {
        Ok(dir) => Ok(dir == ".git"@),
        Err(failure) => Err(failure),
    }
}

/// The repository is named by the final segment of its top-level directory.
pub open spec fn repo_name_of(top_level: ReplyView) -> Result<Seq<char>, FailureView> {
    match answer_of(top_level, Task::QueryRepository) {
        Ok(dir) => match file_name_of(dir) {
            Some(name) => Ok(name),
            None => Err(FailureView::RepositoryNameUnavailable),
        },
        Err(failure) => Err(failure),
    }
}

/// The name of a repository is one meaningful segment. It does not end in
/// white space where the answer ends in a meaningful segment; white space
/// that stands behind a separator inside the answer stays in the name.
pub proof fn lemma_repo_name_is_plain(top_level: ReplyView)
    ensures
        repo_name_of(top_level) matches Ok(name) ==> {
            &&& is_plain_name(name)
            &&& ends_in_a_segment(answer_of(top_level, Task::QueryRepository)->Ok_0) ==> !is_space(
                name.last(),
            )
        },
{
    if let Ok(dir) = answer_of(top_level, Task::QueryRepository) {
        lemma_file_name_is_plain(dir);
        lemma_trimmed_is_trim(text_of(top_level, Task::QueryRepository)->Ok_0);
        let lo = anchor_len(dir);
        lemma_component_end(dir, lo, dir.len() as int);
        lemma_segment_start(dir, lo, component_end(dir, lo, dir.len() as int));
    }
}

/// The primary checkout is the parent of the shared metadata directory.
/// The query names that directory from the root or as seen from the current
/// directory; in the second case the current directory must itself be named
/// from the root. An empty answer, and a directory without a parent, give no
/// primary checkout.
pub open spec fn primary_path_of(common_dir: ReplyView, current: Seq<char>) -> Result<
    Seq<char>,
    FailureView,
> {
    match answer_of(common_dir, Task::QueryRepository) {
        Ok(dir) => if dir.len() == 0 || (!is_absolute(dir) && !is_absolute(current)) {
            Err(FailureView::MetadataLayoutUnexpected)
        } else {
            match parent_of(resolved_against(current, dir)) {
                Some(path) => Ok(path),
                None => Err(FailureView::MetadataLayoutUnexpected),
            }
        },
        Err(failure) => Err(failure),
    }
}

/// The path of the primary checkout is never empty: it begins at the root.
pub proof fn lemma_primary_path_begins_at_root(common_dir: ReplyView, current: Seq<char>)
    ensures
        primary_path_of(common_dir, current) matches Ok(path) ==> is_absolute(path),
{
    if let Ok(dir) = answer_of(common_dir, Task::QueryRepository) {
        if dir.len() > 0 && (is_absolute(dir) || is_absolute(current)) {
            lemma_parent_of_absolute(resolved_against(current, dir));
        }
    }
}

/// Where the query answers with a plain name, as it does with `.git` at the
/// top of the primary checkout, the primary checkout is the current
/// directory.
pub proof fn lemma_primary_path_at_the_top(common_dir: ReplyView, current: Seq<char>)
    requires
        answer_of(common_dir, Task::QueryRepository) matches Ok(dir) && is_plain_name(dir),
        is_absolute(current),
        ends_in_a_segment(current),
    ensures
        primary_path_of(common_dir, current) == Ok::<Seq<char>, FailureView>(current),
{
    lemma_parent_of_child(current, answer_of(common_dir, Task::QueryRepository)->Ok_0);
}

/// What goes to the output channel to move the shell to `path`.
pub open spec fn cd_command(path: Seq<char>) -> Seq<char> {
    "cd \""@ + path + "\"\n"@
}

/// The trimmed text that the query `task` printed.
pub fn answer(reply: &Reply, task: Task) -> (r: Result<String, Failure>)
    ensures
        result_view(r) == answer_of(reply@, task),
{
    match reply.text(task) {
        Ok(text) => Ok(trim(text.as_str())),
        Err(failure) => Err(failure),
    }
}

/// The configured root directory under which all worktrees live.
pub fn get_root_dir(setting: Option<String>) -> (r: Result<String, Failure>)
    ensures
        result_view(r) == root_dir_of(setting.deep_view()),
{
    match setting {
        Some(dir) => Ok(dir),
        None => Err(Failure::MissingRootDirectory),
    }
}

/// The directory in which the command was given.
pub fn get_current_dir(found: Option<String>) -> (r: Result<String, Failure>)
    ensures
        result_view(r) == current_dir_of(found.deep_view()),
{
    match found {
        Some(dir) => Ok(dir),
        None => Err(Failure::MissingCurrentDirectory),
    }
}

/// Whether the current checkout is the primary one, from the reply to
/// [`Operation::QueryGitDir`].
pub fn is_main_worktree(git_dir: &Reply) -> (r: Result<bool, Failure>)
    ensures
        result_view(r) == is_primary_of(git_dir@),
{
    match answer(git_dir, Task::QueryRepository) {
        Ok(dir) => Ok(same(dir.as_str(), ".git")),
        Err(failure) => Err(failure),
    }
}

/// The name of the repository, from the reply to [`Operation::QueryTopLevel`].
pub fn get_repo_name(top_level: &Reply) -> (r: Result<String, Failure>)
    ensures
        result_view(r) == repo_name_of(top_level@),
{
    match answer(top_level, Task::QueryRepository) {
        Ok(dir) => match file_name(dir.as_str()) {
            Some(name) => Ok(name),
            None => Err(Failure::RepositoryNameUnavailable),
        },
        Err(failure) => Err(failure),
    }
}

/// The path of the primary checkout, from the reply to
/// [`Operation::QueryCommonDir`] given in the directory `current`.
pub fn get_main_worktree_path(common_dir: &Reply, current: &str) -> (r: Result<String, Failure>)
    ensures
        result_view(r) == primary_path_of(common_dir@, current@),
{
    match answer(common_dir, Task::QueryRepository) {
        Ok(dir) => {
            let named_from_root = begins_at_root(dir.as_str());
            if dir.as_str().unicode_len() == 0 || (!named_from_root && !begins_at_root(current)) {
                Err(Failure::MetadataLayoutUnexpected)
            } else {
                match parent(resolve(current, dir.as_str()).as_str()) {
                    Some(path) => Ok(path),
                    None => Err(Failure::MetadataLayoutUnexpected),
                }
            }
        },
        Err(failure) => Err(failure),
    }
}

/// The line that, written to the output channel, moves the shell to `path`.
pub fn print_cd_command(path: &str) -> (line: String)
    ensures
        line@ == cd_command(path@),
{
    let mut line = String::from_str("cd \"");
    line.append(path);
    line.append("\"\n");
    line
}

/// The copy that brings the environment file of `src_dir` to `dest_dir`.
pub fn copy_env_file(src_dir: &str, dest_dir: &str) -> (copy: Operation)
    ensures
        copy@ == (OperationView::CopyFile {
            from: child(src_dir@, ".env"@),
            to: child(dest_dir@, ".env"@),
        }),
{
    Operation::CopyFile { from: child_path(src_dir, ".env"), to: child_path(dest_dir, ".env") }
}

} // verus!
