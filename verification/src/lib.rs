//! Worktrees of one repository, each at `root/repository/name`: which
//! worktree a command acts on, what the command asks of the outside, and how
//! it ends.
//!
//! The library runs no program and touches no file. A command is a function
//! from the replies received so far to the next [`process::Action`]: a piece
//! of outside work to do, the end of the command with what it writes to the
//! output channel, or its failure. The caller does the work and calls again
//! with the reply added.
//!
//! - [`merge`] merges a pull request and cleans up after it; [`add`],
//!   [`checkout`], [`list`], [`master`] and [`remove`] are the other commands.
//! - [`context`] and [`utils`] tell where a command runs; [`paths`] and
//!   [`text`] read paths and text; [`process`] and [`failure`] hold what
//!   passes between the library and its caller.

pub mod add;
pub mod checkout;
pub mod context;
pub mod failure;
pub mod list;
pub mod master;
pub mod merge;
pub mod paths;
pub mod process;
pub mod remove;
pub mod text;
pub mod utils;
