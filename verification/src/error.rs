//! Errors: fatal ones, and the non-fatal ones that a caller may recover from.
use vstd::prelude::*;
use vstd::std_specs::convert::{FromSpec, FromSpecImpl};
use vstd::utf8::{decode_utf8, valid_utf8};

use crate::state::State;
use crate::text::{decimal, push_decimal};
use crate::value::RegisterTypeError;

verus! {

/// An OS error number, as `errno` held it.
#[derive(Clone, Copy, Debug, PartialEq, Eq, Structural)]
pub struct Errno {
    pub value: i32,
}

impl Errno {
    /// The calling thread's current `errno`, through `std::io::Error::last_os_error`.
    /// Nothing is stated of the value: it is whatever the last failed call left.
    #[verifier::external_body]
    pub fn read() -> (r: Errno) {
        Errno { value: std::io::Error::last_os_error().raw_os_error().unwrap_or(0) }
    }

    /// The OS's description of the error number: the `Display` of the
    /// `std::io::Error` made from it. Nothing is stated of the text: the OS
    /// supplies it.
    pub(crate) fn to_string(&self) -> (r: String) {
        let e = io_error_from_raw(self.value);
        io_error_text(&e)
    }
}

/// `std::io::Error`, which an OS error number is described through.
#[verifier::external_type_specification]
#[verifier::external_body]
pub struct ExIoError(std::io::Error);

/// `std::io::Error::from_raw_os_error`: the error for an OS error number.
/// Nothing is stated of the value, which Verus cannot look into.
#[verifier::external_body]
fn io_error_from_raw(code: i32) -> (r: std::io::Error) {
    std::io::Error::from_raw_os_error(code)
}

/// The `Display` of `std::io::Error`. Nothing is stated of the text: the OS
/// supplies it.
#[verifier::external_body]
pub(crate) fn io_error_text(e: &std::io::Error) -> (r: String) {
    e.to_string()
}

/// A byte string that should have been a C string held a NUL byte.
#[derive(Clone, Debug)]
pub struct NulError {
    position: usize,
    bytes: Vec<u8>,
}

impl NulError {
    pub closed spec fn spec_position(&self) -> usize {
        self.position
    }

    pub closed spec fn spec_bytes(&self) -> Seq<u8> {
        self.bytes@
    }

    pub fn new(position: usize, bytes: Vec<u8>) -> (r: NulError)
        ensures
            r.spec_position() == position,
            r.spec_bytes() == bytes@,
    {
        NulError { position, bytes }
    }

    /// Index of the first NUL byte.
    pub fn nul_position(&self) -> (r: usize)
        ensures
            r == self.spec_position(),
    {
        self.position
    }

    /// The bytes that held the NUL byte.
    pub fn into_vec(self) -> (r: Vec<u8>)
        ensures
            r@ == self.spec_bytes(),
    {
        self.bytes
    }

    /// The error's message, as `Display` shows it.
    pub open spec fn spec_message(&self) -> Seq<char> {
        "nul byte found in provided data at position: "@ + decimal(self.spec_position() as nat)
    }

    /// The error's message, as `Display` shows it.
    pub fn to_string(&self) -> (r: String)
        ensures
            r@ == self.spec_message(),
    {
        let mut s = String::from_str("nul byte found in provided data at position: ");
        push_decimal(&mut s, self.position as u64);
        s
    }
}

/// Bytes that should have been UTF-8 were not.
#[derive(Clone, Copy, Debug)]
pub struct Utf8Error {
    valid_up_to: usize,
    error_len: Option<usize>,
}

impl Utf8Error {
    pub closed spec fn spec_valid_up_to(&self) -> usize {
        self.valid_up_to
    }

    pub closed spec fn spec_error_len(&self) -> Option<usize> {
        self.error_len
    }

    /// What holds of the error that std reports for `bytes`: a valid prefix
    /// that no longer prefix extends, and an error length of 1 to 3 that fits
    /// in the input.
    pub open spec fn describes(&self, bytes: Seq<u8>) -> bool {
        &&& self.spec_valid_up_to() <= bytes.len()
        &&& valid_utf8(bytes.subrange(0, self.spec_valid_up_to() as int))
        &&& forall|i: int|
            self.spec_valid_up_to() < i <= bytes.len() ==> !valid_utf8(
                #[trigger] bytes.subrange(0, i),
            )
        &&& self.spec_error_len() matches Some(n) ==> 1 <= n <= 3 && self.spec_valid_up_to() + n
            <= bytes.len()
    }

    /// Length of the longest prefix that is valid UTF-8.
    pub fn valid_up_to(&self) -> (r: usize)
        ensures
            r == self.spec_valid_up_to(),
    {
        self.valid_up_to
    }

    /// Length of the invalid sequence after the valid prefix, or `None` when
    /// the input ended in the middle of a sequence.
    pub fn error_len(&self) -> (r: Option<usize>)
        ensures
            r == self.spec_error_len(),
    {
        self.error_len
    }

    /// The error's message, as `Display` shows it.
    pub open spec fn spec_message(&self) -> Seq<char> {
        match self.spec_error_len() {
            Some(n) => "invalid utf-8 sequence of "@ + decimal(n as nat) + " bytes from index "@
                + decimal(self.spec_valid_up_to() as nat),
            None => "incomplete utf-8 byte sequence from index "@ + decimal(
                self.spec_valid_up_to() as nat,
            ),
        }
    }

    /// The error's message, as `Display` shows it.
    pub fn to_string(&self) -> (r: String)
        ensures
            r@ == self.spec_message(),
    {
        match self.error_len {
            Some(n) => {
                let mut s = String::from_str("invalid utf-8 sequence of ");
                push_decimal(&mut s, n as u64);
                s.append(" bytes from index ");
                push_decimal(&mut s, self.valid_up_to as u64);
                s
            },
            None => {
                let mut s = String::from_str("incomplete utf-8 byte sequence from index ");
                push_decimal(&mut s, self.valid_up_to as u64);
                s
            },
        }
    }
}

/// The length of the invalid sequence that `std::str::from_utf8` reports
/// for `bytes` (`Utf8Error::error_len`), or `None` when the input ends in the
/// middle of a sequence. It depends on the bytes alone.
pub uninterp spec fn utf8_error_len(bytes: Seq<u8>) -> Option<usize>;

/// `std::str::from_utf8`. What it returns is stated over vstd's model of
/// UTF-8: success exactly on valid UTF-8, with the decoded characters; on
/// failure an error as `Utf8Error::describes` states it, whose error length
/// is the one std computes for these bytes (`utf8_error_len`).
#[verifier::external_body]
pub(crate) fn str_from_utf8(bytes: &[u8]) -> (r: Result<&str, Utf8Error>)
    ensures
        r is Ok <==> valid_utf8(bytes@),
        r matches Ok(s) ==> s@ == decode_utf8(bytes@),
        r matches Err(e) ==> e.describes(bytes@) && e.spec_error_len() == utf8_error_len(bytes@),
{
    match std::str::from_utf8(bytes) {
        Ok(s) => Ok(s),
        Err(e) => Err(
            Utf8Error { valid_up_to: e.valid_up_to(), error_len: e.error_len() },
        ),
    }
}

/// Bytes that should have been a UTF-8 string were not.
#[derive(Clone, Debug)]
pub struct FromUtf8Error {
    bytes: Vec<u8>,
    error: Utf8Error,
}

impl FromUtf8Error {
    /// The error for `bytes`, which are not UTF-8 as `error` says.
    pub(crate) fn new(bytes: Vec<u8>, error: Utf8Error) -> (r: FromUtf8Error)
        ensures
            r.spec_bytes() == bytes@,
            r.spec_error() == error,
    {
        FromUtf8Error { bytes, error }
    }

    pub closed spec fn spec_bytes(&self) -> Seq<u8> {
        self.bytes@
    }

    pub closed spec fn spec_error(&self) -> Utf8Error {
        self.error
    }

    /// Where the bytes stopped being UTF-8.
    pub fn utf8_error(&self) -> (r: Utf8Error)
        ensures
            r == self.spec_error(),
    {
        self.error
    }

    /// The bytes that were not UTF-8.
    pub fn into_bytes(self) -> (r: Vec<u8>)
        ensures
            r@ == self.spec_bytes(),
    {
        self.bytes
    }

    /// The error's message, as `Display` shows it.
    pub open spec fn spec_message(&self) -> Seq<char> {
        self.spec_error().spec_message()
    }

    /// The error's message, as `Display` shows it.
    pub fn to_string(&self) -> (r: String)
        ensures
            r@ == self.spec_message(),
    {
        self.error.to_string()
    }
}

/// An error after which the tracee is in an unknown or unusable condition.
#[derive(Debug)]
pub enum Fatal {
    SyscallFailed { name: &'static str, errno: Errno },
    InvalidArg(NulError),
    InvalidChildMessage(FromUtf8Error),
    ChildFailed(String),
    RegisterTypeError(RegisterTypeError),
    CannotResume(State),
    CannotStop(State),
}

/// An error that leaves the tracee as it was: the request did not fit its state.
#[derive(Debug)]
pub enum NonFatal {
    CannotResume(State),
    CannotStop(State),
}

/// The message of a refused resume or stop.
pub open spec fn state_message(verb: Seq<char>, state: State) -> Seq<char> {
    "cannot "@ + verb + " from '"@ + state.spec_name() + "' state"@
}

fn state_message_exec(verb: &str, state: State) -> (r: String)
    ensures
        r@ == state_message(verb@, state),
{
    let mut s = String::from_str("cannot ");
    s.append(verb);
    s.append(" from '");
    let n = state.to_string();
    s.append(n.as_str());
    s.append("' state");
    s
}

impl NonFatal {
    /// The same error, counted as fatal.
    pub open spec fn spec_worsen(self) -> Fatal {
        match self {
            NonFatal::CannotResume(s) => Fatal::CannotResume(s),
            NonFatal::CannotStop(s) => Fatal::CannotStop(s),
        }
    }

    /// The same error, counted as fatal.
    pub fn worsen(self) -> (r: Fatal)
        ensures
            r == self.spec_worsen(),
    {
        match self {
            NonFatal::CannotResume(s) => Fatal::CannotResume(s),
            NonFatal::CannotStop(s) => Fatal::CannotStop(s),
        }
    }

    /// The error's message, as `Display` shows it.
    pub open spec fn spec_message(&self) -> Seq<char> {
        match self {
            NonFatal::CannotResume(s) => state_message("resume"@, *s),
            NonFatal::CannotStop(s) => state_message("stop"@, *s),
        }
    }

    /// The error's message, as `Display` shows it.
    pub fn to_string(&self) -> (r: String)
        ensures
            r@ == self.spec_message(),
    {
        match self {
            NonFatal::CannotResume(s) => state_message_exec("resume", *s),
            NonFatal::CannotStop(s) => state_message_exec("stop", *s),
        }
    }
}

impl Fatal {
    /// A failed system call named `name`, with the `errno` it left.
    pub fn syscall(name: &'static str) -> (r: Fatal)
        ensures
            r matches Fatal::SyscallFailed { name: n, errno: _ } && n@ == name@,
    {
        Fatal::SyscallFailed { name, errno: Errno::read() }
    }

    /// Whether the error is one that a caller may recover from.
    pub open spec fn is_recoverable(&self) -> bool {
        self is CannotResume || self is CannotStop
    }

    /// The non-fatal error that a recoverable error stands for.
    pub open spec fn spec_soften(self) -> NonFatal
        recommends
            self.is_recoverable(),
    {
        match self {
            Fatal::CannotStop(s) => NonFatal::CannotStop(s),
            Fatal::CannotResume(s) => NonFatal::CannotResume(s),
            _ => NonFatal::CannotResume(State::Running),
        }
    }

    /// The error's message, as `Display` shows it; for a failed system call
    /// it ends with the OS's description of the error number.
    pub open spec fn spec_message_prefix(&self) -> Seq<char> {
        match self {
            Fatal::SyscallFailed { name, errno: _ } => "`"@ + name@ + "` failed: "@,
            Fatal::InvalidArg(e) => e.spec_message(),
            Fatal::InvalidChildMessage(e) => "invalid child messaage: "@ + e.spec_message(),
            Fatal::ChildFailed(m) => "child process failed: "@ + m@,
            Fatal::RegisterTypeError(e) => e.spec_message(),
            Fatal::CannotResume(s) => state_message("resume"@, *s),
            Fatal::CannotStop(s) => state_message("stop"@, *s),
        }
    }

    /// The error's message, as `Display` shows it.
    pub fn to_string(&self) -> (r: String)
        ensures
            !(self is SyscallFailed) ==> r@ == self.spec_message_prefix(),
            self is SyscallFailed ==> r@.len() >= self.spec_message_prefix().len() && r@.subrange(
                0,
                self.spec_message_prefix().len() as int,
            ) == self.spec_message_prefix(),
    {
        match self {
            Fatal::SyscallFailed { name, errno } => {
                let mut s = String::from_str("`");
                s.append(name);
                s.append("` failed: ");
                let ghost prefix = s@;
                let e = errno.to_string();
                s.append(e.as_str());
                assert(s@.subrange(0, prefix.len() as int) =~= prefix);
                s
            },
            Fatal::InvalidArg(e) => e.to_string(),
            Fatal::InvalidChildMessage(e) => {
                let mut s = String::from_str("invalid child messaage: ");
                let m = e.to_string();
                s.append(m.as_str());
                s
            },
            Fatal::ChildFailed(m) => {
                let mut s = String::from_str("child process failed: ");
                s.append(m.as_str());
                s
            },
            Fatal::RegisterTypeError(e) => e.to_string(),
            Fatal::CannotResume(s) => state_message_exec("resume", *s),
            Fatal::CannotStop(s) => state_message_exec("stop", *s),
        }
    }
}

/// An error of this library: fatal, or recoverable by the caller.
#[derive(Debug)]
pub struct Error {
    fatal: Fatal,
}

impl Error {
    /// The error, seen as fatal.
    pub closed spec fn spec_fatal(&self) -> Fatal {
        self.fatal
    }

    /// The non-fatal error if the error is recoverable, else the fatal one.
    pub open spec fn spec_recover(self) -> Result<NonFatal, Fatal> {
        if self.spec_fatal().is_recoverable() {
            Ok(self.spec_fatal().spec_soften())
        } else {
            Err(self.spec_fatal())
        }
    }

    /// Splits the error into the non-fatal ones and the fatal ones.
    pub fn recover(self) -> (r: Result<NonFatal, Fatal>)
        ensures
            r == self.spec_recover(),
    {
        match self.fatal {
            Fatal::CannotResume(s) => Ok(NonFatal::CannotResume(s)),
            Fatal::CannotStop(s) => Ok(NonFatal::CannotStop(s)),
            other => Err(other),
        }
    }

    /// The error's message, as `Display` shows it.
    pub fn to_string(&self) -> (r: String)
        ensures
            !(self.spec_fatal() is SyscallFailed) ==> r@ == self.spec_fatal().spec_message_prefix(),
            self.spec_fatal() is SyscallFailed ==> r@.len() >= self.spec_fatal().spec_message_prefix().len()
                && r@.subrange(0, self.spec_fatal().spec_message_prefix().len() as int)
                == self.spec_fatal().spec_message_prefix(),
    {
        self.fatal.to_string()
    }
}

impl From<Fatal> for Error {
    fn from(fatal: Fatal) -> (r: Error) {
        Error { fatal }
    }
}

impl FromSpecImpl<Fatal> for Error {
    open spec fn obeys_from_spec() -> bool {
        true
    }

    closed spec fn from_spec(v: Fatal) -> Error {
        Error { fatal: v }
    }
}

impl From<NonFatal> for Error {
    fn from(non_fatal: NonFatal) -> (r: Error) {
        Error { fatal: non_fatal.worsen() }
    }
}

impl FromSpecImpl<NonFatal> for Error {
    open spec fn obeys_from_spec() -> bool {
        true
    }

    closed spec fn from_spec(v: NonFatal) -> Error {
        Error { fatal: v.spec_worsen() }
    }
}

/// Builds an error from a fatal one.
pub proof fn lemma_from_fatal(f: Fatal)
    ensures
        <Error as FromSpec<Fatal>>::from_spec(f).spec_fatal() == f,
{
}

/// Builds an error from a non-fatal one.
pub proof fn lemma_from_non_fatal(n: NonFatal)
    ensures
        <Error as FromSpec<NonFatal>>::from_spec(n).spec_fatal() == n.spec_worsen(),
{
}

/// A split result with every error counted as fatal.
pub open spec fn worsened<T>(r: Result<Result<T, NonFatal>, Fatal>) -> Result<T, Fatal> {
    match r {
        Ok(Ok(v)) => Ok(v),
        Ok(Err(n)) => Err(n.spec_worsen()),
        Err(f) => Err(f),
    }
}

/// Results whose errors may be split into fatal and non-fatal ones.
pub trait Recoverable: Sized {
    type Value;

    /// The result with its error split into the non-fatal and the fatal kind.
    spec fn spec_recover(self) -> Result<Result<Self::Value, NonFatal>, Fatal>;

    /// The result with every error counted as fatal.
    fn worsen(self) -> (r: Result<Self::Value, Fatal>)
        ensures
            r == worsened(self.spec_recover()),
    {
        match self.recover() {
            Ok(Ok(v)) => Ok(v),
            Ok(Err(n)) => Err(n.worsen()),
            Err(f) => Err(f),
        }
    }

    /// The result with its error split into the non-fatal and the fatal kind.
    fn recover(self) -> (r: Result<Result<Self::Value, NonFatal>, Fatal>)
        ensures
            r == self.spec_recover(),
    ;
}

impl<T> Recoverable for Result<T, Error> {
    type Value = T;

    open spec fn spec_recover(self) -> Result<Result<T, NonFatal>, Fatal> {
        match self {
            Ok(v) => Ok(Ok(v)),
            Err(e) => match e.spec_recover() {
                Ok(n) => Ok(Err(n)),
                Err(f) => Err(f),
            },
        }
    }

    fn recover(self) -> (r: Result<Result<T, NonFatal>, Fatal>) {
        match self {
            Ok(value) => Ok(Ok(value)),
            Err(e) => match e.recover() {
                Ok(n) => Ok(Err(n)),
                Err(f) => Err(f),
            },
        }
    }
}

/// Recovering an error made from a non-fatal one gives that error back, and
/// counting it as fatal again gives the same fatal error.
pub proof fn lemma_recover_non_fatal(n: NonFatal)
    ensures
        <Error as FromSpec<NonFatal>>::from_spec(n).spec_recover() == Ok::<NonFatal, Fatal>(n),
{
}

/// Recovering an error made from a fatal one that is not a refused request
/// gives the fatal error back.
pub proof fn lemma_recover_fatal(f: Fatal)
    requires
        !f.is_recoverable(),
    ensures
        <Error as FromSpec<Fatal>>::from_spec(f).spec_recover() == Err::<NonFatal, Fatal>(f),
{
}

/// `worsen` of a result is the result with its error taken as fatal.
pub proof fn lemma_worsen_result<T>(r: Result<T, Error>)
    ensures
        worsened(r.spec_recover()) == match r {
            Ok(v) => Ok(v),
            Err(e) => Err(e.spec_fatal()),
        },
{
    match r {
        Ok(v) => {},
        Err(e) => {
            if e.spec_fatal().is_recoverable() {
                assert(e.spec_fatal().spec_soften().spec_worsen() == e.spec_fatal());
            }
        },
    }
}

} // verus!
