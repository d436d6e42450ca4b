//! Moving the caller to the primary checkout.

use vstd::prelude::*;
use crate::failure::{Failure, FailureView};
use crate::process::{Action, ActionView, Operation, OperationView, Reply, ReplyView};
use crate::utils::{cd_command, get_main_worktree_path, primary_path_of, print_cd_command};

verus! {

/// What a move to the primary checkout asks for next, given the current
/// directory and the replies so far: where the shared metadata lies, then
/// the move to its parent. Without a current directory nothing can be asked.
pub open spec fn plan(current: Option<Seq<char>>, replies: Seq<ReplyView>) -> ActionView {
    match current {
        None => ActionView::Abort(FailureView::MissingCurrentDirectory),
        Some(current) => if replies.len() < 1 {
            ActionView::Run(OperationView::QueryCommonDir)
        } else {
            match primary_path_of(replies[0], current) {
                Ok(path) => ActionView::Finish { output: Some(cd_command(path)) },
                Err(failure) => ActionView::Abort(failure),
            }
        },
    }
}

/// What a move to the primary checkout asks for next, given the current
/// directory and the replies so far.
pub fn execute(current: Option<&str>, replies: &Vec<Reply>) -> (action: Action)
    ensures
        action@ == plan(current.deep_view(), replies.deep_view()),
{
    match current {
        None => Action::Abort(Failure::MissingCurrentDirectory),
        Some(current) => {
            if replies.len() < 1 {
                return Action::Run(Operation::QueryCommonDir);
            }
            match get_main_worktree_path(&replies[0], current) {
                Ok(path) => Action::Finish { output: Some(print_cd_command(path.as_str())) },
                Err(failure) => Action::Abort(failure),
            }
        },
    }
}

} // verus!
