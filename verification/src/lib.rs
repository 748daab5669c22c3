//! A ptrace-based debugger library for x86-64 Linux.
//!
//! The library holds the debugger's decisions and data: the register file
//! and the copy of the tracee's user area, the run-state machine, the
//! decoding of wait statuses, the checks on a program to launch, and the
//! command line and command loop of the debugger. The system calls that the
//! decisions call for are returned as `Syscall` values for the caller to make.
pub mod abi;
pub mod attachment;
pub mod cli;
pub mod control;
pub mod convert;
pub mod debugger;
pub mod error;
pub mod le;
pub mod process;
pub mod register;
pub mod signal;
pub mod state;
pub mod syscall;
pub mod text;
pub mod user;
pub mod value;

pub use crate::attachment::Attachment;
pub use crate::debugger::Debugger;
pub use crate::error::{Errno, Error, Fatal, NonFatal, Recoverable};
pub use crate::process::{Command, Process};
pub use crate::register::{Register, RegisterInfo, RegisterKind};
pub use crate::signal::Signal;
pub use crate::state::{State, StateChange};
pub use crate::syscall::Syscall;
pub use crate::value::{f80, u8x16, u8x8, RegisterType, RegisterTypeError, RegisterValue};
