//! Removing a worktree: the one named, or with `.` the one the caller stands in.

use vstd::prelude::*;
use crate::context::{ContextView, ResolutionContext, TargetResolution, TargetView};
use crate::failure::{Failure, FailureView, Task};
use crate::process::{
    failure_of, result_view, Action, ActionView, Operation, OperationView, Reply, ReplyView,
};
use crate::text::same;
use crate::utils::{cd_command, print_cd_command};

verus! {

/// The worktree that a removal of `name` acts on: with `.` the current one,
/// which must not be the primary checkout; else the one of that name.
pub open spec fn removal_target_of(is_primary: bool, name: Seq<char>) -> Result<
    TargetView,
    FailureView,
> {
    if name == "."@ {
        if is_primary {
            Err(FailureView::CannotRemovePrimary)
        } else {
            Ok(TargetView::Current)
        }
    } else {
        Ok(TargetView::Explicit { name })
    }
}

/// What a removal of `name` asks for next, given the replies so far: the
/// removal itself, done from where the caller stands, then a move to the primary checkout if the worktree
/// removed was the current one.
pub open spec fn plan(ctx: ContextView, name: Seq<char>, replies: Seq<ReplyView>) -> ActionView {
    match removal_target_of(ctx.is_primary_checkout, name) {
        Err(failure) => ActionView::Abort(failure),
        Ok(target) => if replies.len() < 1 {
            ActionView::Run(
                OperationView::RemoveWorktree {
                    path: target.path(ctx),
                    from: ctx.current_directory,
                },
            )
        } else if !replies[0].succeeded() {
            ActionView::Abort(failure_of(replies[0], Task::RemoveWorktree))
        } else if target.requires_navigation_after_cleanup() {
            ActionView::Finish { output: Some(cd_command(ctx.primary_checkout_path)) }
        } else {
            ActionView::Finish { output: None }
        },
    }
}

/// The primary checkout is never removed by way of `.`: whatever the
/// replies, nothing is asked for and the command fails.
pub proof fn lemma_primary_checkout_stays(ctx: ContextView, replies: Seq<ReplyView>)
    requires
        ctx.is_primary_checkout,
    ensures
        plan(ctx, "."@, replies) == ActionView::Abort(FailureView::CannotRemovePrimary),
{
}

/// The worktree that a removal of `name` acts on.
pub fn removal_target(is_primary: bool, name: &str) -> (r: Result<TargetResolution, Failure>)
    ensures
        result_view(r) == removal_target_of(is_primary, name@),
{
    if same(name, ".") {
        if is_primary {
            Err(Failure::CannotRemovePrimary)
        } else {
            Ok(TargetResolution::Current)
        }
    } else {
        Ok(TargetResolution::Explicit { name: String::from_str(name) })
    }
}

/// What a removal of `name` asks for next, given the replies so far.
pub fn execute(ctx: &ResolutionContext, name: &str, replies: &Vec<Reply>) -> (action: Action)
    ensures
        action@ == plan(ctx@, name@, replies.deep_view()),
{
    match removal_target(ctx.is_primary_checkout, name) {
        Err(failure) => Action::Abort(failure),
        Ok(target) => if replies.len() < 1 {
            Action::Run(
                Operation::RemoveWorktree {
                    path: target.path(ctx),
                    from: ctx.current_directory.clone(),
                },
            )
        } else if !replies[0].succeeded() {
            Action::Abort(replies[0].failure(Task::RemoveWorktree))
        } else if target.requires_navigation_after_cleanup() {
            Action::Finish { output: Some(print_cd_command(ctx.primary_checkout_path.as_str())) }
        } else {
            Action::Finish { output: None }
        },
    }
}

} // verus!
