//! The errors of the command-line debugger.
use vstd::prelude::*;

use crate::cli::args::ParseArgsError;
use crate::error::{io_error_text, Fatal};

verus! {

/// How the command-line debugger is used.
pub const USAGE: &'static str = "USAGE: ddb (-p <pid> | <path>)\n  Debugs a process. If -p is provided, ddb will attach to the process with the\n  given pid. Otherwise, ddb will launch the process at the given path and attach\n  to it.";

/// An error that ends the command-line debugger.
#[derive(Debug)]
pub enum Error {
    ParseArgs(ParseArgsError),
    Debugger(Fatal),
    Io(std::io::Error),
}

impl Error {
    /// The error's message, as `Display` shows it: a refused command line
    /// comes with the usage text.
    pub fn to_string(&self) -> (r: String)
        ensures
            self matches Error::ParseArgs(e) ==> r@ == "unable to parse arguments: "@
                + e.spec_message() + "\n\n"@ + USAGE@,
            self matches Error::Debugger(f) ==> !(f is SyscallFailed) ==> r@
                == f.spec_message_prefix(),
            self matches Error::Debugger(f) ==> f is SyscallFailed ==> r@.len()
                >= f.spec_message_prefix().len() && r@.subrange(
                0,
                f.spec_message_prefix().len() as int,
            ) == f.spec_message_prefix(),
    {
        match self {
            Error::ParseArgs(e) => {
                let mut s = String::from_str("unable to parse arguments: ");
                let m = e.to_string();
                s.append(m.as_str());
                s.append("\n\n");
                s.append(USAGE);
                s
            },
            Error::Debugger(f) => f.to_string(),
            Error::Io(e) => io_error_text(e),
        }
    }
}

impl From<ParseArgsError> for Error {
    fn from(e: ParseArgsError) -> (r: Error) {
        Error::ParseArgs(e)
    }
}

impl vstd::std_specs::convert::FromSpecImpl<ParseArgsError> for Error {
    open spec fn obeys_from_spec() -> bool {
        true
    }

    open spec fn from_spec(v: ParseArgsError) -> Error {
        Error::ParseArgs(v)
    }
}

impl From<Fatal> for Error {
    fn from(e: Fatal) -> (r: Error) {
        Error::Debugger(e)
    }
}

impl vstd::std_specs::convert::FromSpecImpl<Fatal> for Error {
    open spec fn obeys_from_spec() -> bool {
        true
    }

    open spec fn from_spec(v: Fatal) -> Error {
        Error::Debugger(v)
    }
}

impl From<std::io::Error> for Error {
    fn from(e: std::io::Error) -> (r: Error) {
        Error::Io(e)
    }
}

impl vstd::std_specs::convert::FromSpecImpl<std::io::Error> for Error {
    open spec fn obeys_from_spec() -> bool {
        true
    }

    open spec fn from_spec(v: std::io::Error) -> Error {
        Error::Io(v)
    }
}

} // verus!
