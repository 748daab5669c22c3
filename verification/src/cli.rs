//! The logic of the command-line debugger: its arguments, its errors and its
//! command loop.
pub mod args;
pub mod error;
pub mod repl;
