//! Creating a worktree for a branch, at the place that its name gives it.

use vstd::prelude::*;
use crate::context::{ContextView, ResolutionContext};
use crate::failure::{Failure, FailureView, Task};
use crate::paths::child;
use crate::process::{
    failure_of, Action, ActionView, Operation, OperationView, Reply, ReplyView,
};
use crate::utils::{cd_command, copy_env_file, print_cd_command};

verus! {

/// What the creation of the worktree `name` asks for next, given the replies
/// so far: the creation, then a copy of the environment file from where the
/// caller stands, then a move into the new worktree.
pub open spec fn plan(ctx: ContextView, name: Seq<char>, replies: Seq<ReplyView>) -> ActionView {
    let path = ctx.place_of(name);
    if replies.len() < 1 {
        ActionView::Run(OperationView::AddWorktree { path, branch: name })
    } else if !replies[0].succeeded() {
        ActionView::Abort(failure_of(replies[0], Task::CreateWorktree))
    } else if replies.len() < 2 {
        ActionView::Run(
            OperationView::CopyFile {
                from: child(ctx.current_directory, ".env"@),
                to: child(path, ".env"@),
            },
        )
    } else if !replies[1].succeeded() {
        ActionView::Abort(FailureView::EnvCopyFailed { detail: replies[1].diagnostic() })
    } else {
        ActionView::Finish { output: Some(cd_command(path)) }
    }
}

/// What the creation of the worktree `name` asks for next, given the replies
/// so far.
pub fn execute(ctx: &ResolutionContext, name: &str, replies: &Vec<Reply>) -> (action: Action)
    ensures
        action@ == plan(ctx@, name@, replies.deep_view()),
{
    let path = ctx.place_of(name);
    if replies.len() < 1 {
        Action::Run(Operation::AddWorktree { path, branch: String::from_str(name) })
    } else if !replies[0].succeeded() {
        Action::Abort(replies[0].failure(Task::CreateWorktree))
    } else if replies.len() < 2 {
        Action::Run(copy_env_file(ctx.current_directory.as_str(), path.as_str()))
    } else if !replies[1].succeeded() {
        Action::Abort(Failure::EnvCopyFailed { detail: replies[1].diagnostic() })
    } else {
        Action::Finish { output: Some(print_cd_command(path.as_str())) }
    }
}

} // verus!
