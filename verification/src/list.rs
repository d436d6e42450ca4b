//! Showing the worktrees of the repository.

use vstd::prelude::*;
use crate::failure::Task;
use crate::process::{text_of, Action, ActionView, Operation, OperationView, Reply, ReplyView};

verus! {

/// What a listing asks for next, given the replies so far: the list of
/// worktrees, which then goes to the output channel as it came. A list that
/// could not be had, or that is no text, fails the command.
pub open spec fn plan(replies: Seq<ReplyView>) -> ActionView {
    if replies.len() < 1 {
        ActionView::Run(OperationView::ListWorktrees)
    } else {
        match text_of(replies[0], Task::ListWorktrees) {
            Ok(listing) => ActionView::Finish { output: Some(listing) },
            Err(failure) => ActionView::Abort(failure),
        }
    }
}

/// What a listing asks for next, given the replies so far.
pub fn execute(replies: &Vec<Reply>) -> (action: Action)
    ensures
        action@ == plan(replies.deep_view()),
{
    if replies.len() < 1 {
        return Action::Run(Operation::ListWorktrees);
    }
    match replies[0].text(Task::ListWorktrees) {
        Ok(listing) => Action::Finish { output: Some(listing) },
        Err(failure) => Action::Abort(failure),
    }
}

} // verus!
