//! The surroundings of one command, and which worktree the command acts on.

use vstd::prelude::*;
use crate::failure::{Failure, FailureView};
use crate::paths::{
    ends_in_a_segment, file_name, file_name_of, is_absolute, is_plain_name, joined, target_path,
};
use crate::failure::Task;
use crate::process::{result_view, Reply, ReplyView};
use crate::utils::{
    answer_of, current_dir_of, get_current_dir, get_main_worktree_path, get_repo_name,
    get_root_dir, is_main_worktree, is_primary_of, lemma_primary_path_at_the_top,
    lemma_primary_path_begins_at_root, primary_path_of, repo_name_of, root_dir_of,
};

verus! {

/// Where a command runs. It is put together anew for every command and
/// handed on; nothing of it is kept between commands.
#[derive(Debug, PartialEq, Eq)]
pub struct ResolutionContext {
    /// The command was given at the top of the primary checkout.
    pub is_primary_checkout: bool,
    /// Where the command was given.
    pub current_directory: String,
    /// The name of the repository, the same in all its worktrees.
    pub repository_name: String,
    /// Where the primary checkout lies, named from the root.
    pub primary_checkout_path: String,
    /// The directory under which all worktrees live.
    pub configured_root_directory: String,
}

/// A [`ResolutionContext`] with its texts as sequences of characters.
pub struct ContextView {
    pub is_primary_checkout: bool,
    pub current_directory: Seq<char>,
    pub repository_name: Seq<char>,
    pub primary_checkout_path: Seq<char>,
    pub configured_root_directory: Seq<char>,
}

impl View for ResolutionContext {
    type V = ContextView;

    open spec fn view(&self) -> ContextView {
        ContextView {
            is_primary_checkout: self.is_primary_checkout,
            current_directory: self.current_directory@,
            repository_name: self.repository_name@,
            primary_checkout_path: self.primary_checkout_path@,
            configured_root_directory: self.configured_root_directory@,
        }
    }
}

impl DeepView for ResolutionContext {
    type V = ContextView;

    open spec fn deep_view(&self) -> ContextView {
        self@
    }
}

impl ContextView {
    /// Where the worktree `name` of this repository lives.
    pub open spec fn place_of(self, name: Seq<char>) -> Seq<char> {
        joined(self.configured_root_directory, self.repository_name, name)
    }
}

/// The name of the repository: the final segment of the path of its primary
/// checkout, so that every worktree knows it by the same name. Where that
/// path has no final segment, because it was named by way of `..` from
/// inside the primary checkout, it is the name `top_name` of the top-level
/// directory of the current checkout.
pub open spec fn repository_name_of(primary: Seq<char>, top_name: Seq<char>) -> Seq<char> {
    match file_name_of(primary) {
        Some(name) => name,
        None => top_name,
    }
}

/// The context that a setting, a current directory and the replies to the
/// three repository queries make. The first of them that is missing or
/// refused decides the failure: the setting, then the current directory, the
/// metadata directory, the top-level directory, the shared metadata directory.
pub open spec fn context_of(
    setting: Option<Seq<char>>,
    current: Option<Seq<char>>,
    git_dir: ReplyView,
    top_level: ReplyView,
    common_dir: ReplyView,
) -> Result<ContextView, FailureView> {
    match root_dir_of(setting) {
        Err(failure) => Err(failure),
        Ok(root) => match current_dir_of(current) {
            Err(failure) => Err(failure),
            Ok(current_directory) => match is_primary_of(git_dir) {
                Err(failure) => Err(failure),
                Ok(is_primary) => match repo_name_of(top_level) {
                    Err(failure) => Err(failure),
                    Ok(repo) => match primary_path_of(common_dir, current_directory) {
                        Err(failure) => Err(failure),
                        Ok(primary) => Ok(
                            ContextView {
                                is_primary_checkout: is_primary,
                                current_directory,
                                repository_name: repository_name_of(primary, repo),
                                primary_checkout_path: primary,
                                configured_root_directory: root,
                            },
                        ),
                    },
                },
            },
        },
    }
}

/// The primary checkout of a context is named from the root, so it is
/// never empty and can serve as a working directory. At the top of the
/// primary checkout, where the shared metadata is named by a plain name, it
/// is the current directory.
pub proof fn lemma_context_names_the_primary_checkout(
    setting: Option<Seq<char>>,
    current: Option<Seq<char>>,
    git_dir: ReplyView,
    top_level: ReplyView,
    common_dir: ReplyView,
)
    ensures
        context_of(setting, current, git_dir, top_level, common_dir) matches Ok(ctx) ==> {
            &&& is_absolute(ctx.primary_checkout_path)
            &&& Some(ctx.current_directory) == current
            &&& {
                &&& is_plain_name(answer_of(common_dir, Task::QueryRepository)->Ok_0)
                &&& is_absolute(ctx.current_directory)
                &&& ends_in_a_segment(ctx.current_directory)
            } ==> ctx.primary_checkout_path == ctx.current_directory
        },
{
    if let Ok(ctx) = context_of(setting, current, git_dir, top_level, common_dir) {
        lemma_primary_path_begins_at_root(common_dir, ctx.current_directory);
        if is_plain_name(answer_of(common_dir, Task::QueryRepository)->Ok_0) && is_absolute(
            ctx.current_directory,
        ) && ends_in_a_segment(ctx.current_directory) {
            lemma_primary_path_at_the_top(common_dir, ctx.current_directory);
        }
    }
}

impl ResolutionContext {
    /// Puts the context together from the configured root directory, the
    /// current directory, and the replies to the three repository queries.
    pub fn gather(
        setting: Option<String>,
        current: Option<String>,
        git_dir: &Reply,
        top_level: &Reply,
        common_dir: &Reply,
    ) -> (r: Result<ResolutionContext, Failure>)
        ensures
            result_view(r) == context_of(
                setting.deep_view(),
                current.deep_view(),
                git_dir@,
                top_level@,
                common_dir@,
            ),
    {
        let root = match get_root_dir(setting) {
            Ok(root) => root,
            Err(failure) => {
                return Err(failure);
            },
        };
        let current_directory = match get_current_dir(current) {
            Ok(current_directory) => current_directory,
            Err(failure) => {
                return Err(failure);
            },
        };
        let is_primary = match is_main_worktree(git_dir) {
            Ok(is_primary) => is_primary,
            Err(failure) => {
                return Err(failure);
            },
        };
        let repo = match get_repo_name(top_level) {
            Ok(repo) => repo,
            Err(failure) => {
                return Err(failure);
            },
        };
        let primary = match get_main_worktree_path(common_dir, current_directory.as_str()) {
            Ok(primary) => primary,
            Err(failure) => {
                return Err(failure);
            },
        };
        let repo = match file_name(primary.as_str()) {
            Some(name) => name,
            None => repo,
        };
        Ok(
            ResolutionContext {
                is_primary_checkout: is_primary,
                current_directory,
                repository_name: repo,
                primary_checkout_path: primary,
                configured_root_directory: root,
            },
        )
    }

    /// Where the worktree `name` of this repository lives.
    pub fn place_of(&self, name: &str) -> (path: String)
        ensures
            path@ == self@.place_of(name@),
    {
        target_path(
            self.configured_root_directory.as_str(),
            self.repository_name.as_str(),
            name,
        )
    }
}

/// Which worktree a command acts on.
#[derive(Debug, PartialEq, Eq)]
pub enum TargetResolution {
    /// The worktree of that name.
    Explicit { name: String },
    /// The worktree in which the command was given.
    Current,
}

/// A [`TargetResolution`] with its name as a sequence of characters.
pub enum TargetView {
    Explicit { name: Seq<char> },
    Current,
}

impl View for TargetResolution {
    type V = TargetView;

    open spec fn view(&self) -> TargetView {
        match *self {
            TargetResolution::Explicit { name } => TargetView::Explicit { name: name@ },
            TargetResolution::Current => TargetView::Current,
        }
    }
}

impl DeepView for TargetResolution {
    type V = TargetView;

    open spec fn deep_view(&self) -> TargetView {
        self@
    }
}

impl TargetView {
    /// Where the target lies.
    pub open spec fn path(self, ctx: ContextView) -> Seq<char> {
        match self {
            TargetView::Explicit { name } => ctx.place_of(name),
            TargetView::Current => ctx.current_directory,
        }
    }

    /// The caller stands in the target, so once it is gone the caller must
    /// be moved elsewhere.
    pub open spec fn requires_navigation_after_cleanup(self) -> bool {
        self is Current
    }
}

/// The target of a command given from the primary checkout or not, with a
/// name or without one.
pub open spec fn resolve_of(is_primary: bool, name: Option<Seq<char>>) -> Result<
    TargetView,
    FailureView,
> {
    match (is_primary, name) {
        (true, Some(name)) => Ok(TargetView::Explicit { name }),
        (true, None) => Err(FailureView::NameRequiredOnPrimary),
        (false, None) => Ok(TargetView::Current),
        (false, Some(name)) => Ok(TargetView::Explicit { name }),
    }
}

/// The target of a command given from the primary checkout or not, with a
/// name or without one.
pub fn resolve_target(is_primary: bool, name: Option<&str>) -> (r: Result<
    TargetResolution,
    Failure,
>)
    ensures
        result_view(r) == resolve_of(is_primary, name.deep_view()),
{
    match (is_primary, name) {
        (true, Some(name)) => Ok(TargetResolution::Explicit { name: String::from_str(name) }),
        (true, None) => Err(Failure::NameRequiredOnPrimary),
        (false, None) => Ok(TargetResolution::Current),
        (false, Some(name)) => Ok(TargetResolution::Explicit { name: String::from_str(name) }),
    }
}

impl TargetResolution {
    /// Where the target lies.
    pub fn path(&self, ctx: &ResolutionContext) -> (path: String)
        ensures
            path@ == self@.path(ctx@),
    {
        match self {
            TargetResolution::Explicit { name } => ctx.place_of(name.as_str()),
            TargetResolution::Current => ctx.current_directory.clone(),
        }
    }

    /// Whether the caller must be moved elsewhere once the target is gone.
    pub fn requires_navigation_after_cleanup(&self) -> (r: bool)
        ensures
            r == self@.requires_navigation_after_cleanup(),
    {
        match self {
            TargetResolution::Explicit { .. } => false,
            TargetResolution::Current => true,
        }
    }
}

} // verus!
