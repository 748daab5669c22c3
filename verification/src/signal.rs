//! Signal numbers of x86-64 Linux and their descriptions.
use vstd::prelude::*;

use crate::text::{push_signed_decimal, signed_decimal};

verus! {

/// Hangup on the controlling terminal.
pub const SIGHUP: i32 = 1;
/// Interrupt from the keyboard.
pub const SIGINT: i32 = 2;
/// Quit from the keyboard.
pub const SIGQUIT: i32 = 3;
/// Illegal instruction.
pub const SIGILL: i32 = 4;
/// Trace or breakpoint trap.
pub const SIGTRAP: i32 = 5;
/// Abort; also `SIGIOT`.
pub const SIGABRT: i32 = 6;
/// Bus error.
pub const SIGBUS: i32 = 7;
/// Erroneous arithmetic operation.
pub const SIGFPE: i32 = 8;
/// Kill.
pub const SIGKILL: i32 = 9;
/// User-defined signal 1.
pub const SIGUSR1: i32 = 10;
/// Invalid memory reference.
pub const SIGSEGV: i32 = 11;
/// User-defined signal 2.
pub const SIGUSR2: i32 = 12;
/// Broken pipe.
pub const SIGPIPE: i32 = 13;
/// Timer signal.
pub const SIGALRM: i32 = 14;
/// Termination.
pub const SIGTERM: i32 = 15;
/// Stack fault on the coprocessor.
pub const SIGSTKFLT: i32 = 16;
/// Child stopped, terminated, or continued.
pub const SIGCHLD: i32 = 17;
/// Continue if stopped.
pub const SIGCONT: i32 = 18;
/// Stop the process.
pub const SIGSTOP: i32 = 19;
/// Stop typed at the terminal.
pub const SIGTSTP: i32 = 20;
/// Terminal input for a background process.
pub const SIGTTIN: i32 = 21;
/// Terminal output for a background process.
pub const SIGTTOU: i32 = 22;
/// Urgent condition on a socket.
pub const SIGURG: i32 = 23;
/// CPU time limit exceeded.
pub const SIGXCPU: i32 = 24;
/// File size limit exceeded.
pub const SIGXFSZ: i32 = 25;
/// Virtual alarm clock.
pub const SIGVTALRM: i32 = 26;
/// Profiling timer expired.
pub const SIGPROF: i32 = 27;
/// Window resize.
pub const SIGWINCH: i32 = 28;
/// I/O now possible; also `SIGPOLL`.
pub const SIGIO: i32 = 29;
/// Power failure.
pub const SIGPWR: i32 = 30;
/// Bad system call.
pub const SIGSYS: i32 = 31;

/// The description of a known signal number.
pub open spec fn known_description(value: i32) -> Option<Seq<char>> {
    if value == SIGABRT {
        Some("SIGABRT: Abort signal from abort(3)"@)
    } else if value == SIGALRM {
        Some("SIGALRM: Timer signal from alarm(2)"@)
    } else if value == SIGBUS {
        Some("SIGBUS: Bus error (bad memory access)"@)
    } else if value == SIGCHLD {
        Some("SIGCHLD: Child stopped, terminated, or continued"@)
    } else if value == SIGCONT {
        Some("SIGCONT: Continue if stopped"@)
    } else if value == SIGFPE {
        Some("SIGFPE: Erroneous arithmetic operation"@)
    } else if value == SIGHUP {
        Some(
            "SIGHUP: Hangup detected on controlling terminal or death of controlling process"@,
        )
    } else if value == SIGILL {
        Some("SIGILL: Illegal Instruction"@)
    } else if value == SIGINT {
        Some("SIGINT: Interrupt from keyboard"@)
    } else if value == SIGIO {
        Some("SIGIO: I/O now possible (4.2BSD)"@)
    } else if value == SIGKILL {
        Some("SIGKILL: Kill signal"@)
    } else if value == SIGPIPE {
        Some("SIGPIPE: Broken pipe: write to pipe with no readers; see pipe(7)"@)
    } else if value == SIGPROF {
        Some("SIGPROF: Profiling timer expired"@)
    } else if value == SIGPWR {
        Some("SIGPWR: Power failure (System V)"@)
    } else if value == SIGQUIT {
        Some("SIGQUIT: Quit from keyboard"@)
    } else if value == SIGSEGV {
        Some("SIGSEGV: Invalid memory reference"@)
    } else if value == SIGSTKFLT {
        Some("SIGSTKFLT: Stack fault on coprocessor (unused)"@)
    } else if value == SIGSTOP {
        Some("SIGSTOP: Stop process"@)
    } else if value == SIGTSTP {
        Some("SIGTSTP: Stop typed at terminal"@)
    } else if value == SIGSYS {
        Some("SIGSYS: Bad system call (SVr4); see also seccomp(2)"@)
    } else if value == SIGTERM {
        Some("SIGTERM: Termination signal"@)
    } else if value == SIGTRAP {
        Some("SIGTRAP: Trace/breakpoint trap"@)
    } else if value == SIGTTIN {
        Some("SIGTTIN: Terminal input for background process"@)
    } else if value == SIGTTOU {
        Some("SIGTTOU: Terminal output for background process"@)
    } else if value == SIGURG {
        Some("SIGURG: Urgent condition on socket (4.2BSD)"@)
    } else if value == SIGUSR1 {
        Some("SIGUSR1: User-defined signal 1"@)
    } else if value == SIGUSR2 {
        Some("SIGUSR2: User-defined signal 2"@)
    } else if value == SIGVTALRM {
        Some("SIGVTALRM: Virtual alarm clock (4.2BSD)"@)
    } else if value == SIGXCPU {
        Some("SIGXCPU: CPU time limit exceeded (4.2BSD); see setrlimit(2)"@)
    } else if value == SIGXFSZ {
        Some("SIGXFSZ: File size limit exceeded (4.2BSD); see setrlimit(2)"@)
    } else if value == SIGWINCH {
        Some("SIGWINCH: Window resize signal (4.3BSD, Sun)"@)
    } else {
        None
    }
}

/// A signal number, or the exit status that a state change carries.
#[derive(Debug)]
pub struct Signal {
    value: i32,
}

impl Signal {
    pub closed spec fn spec_value(&self) -> i32 {
        self.value
    }

    /// The signal's text, as `Display` shows it.
    pub open spec fn spec_description(&self) -> Seq<char> {
        match known_description(self.spec_value()) {
            Some(d) => d,
            None => "unknown signal: "@ + signed_decimal(self.spec_value() as int),
        }
    }

    pub fn new(value: i32) -> (r: Signal)
        ensures
            r.spec_value() == value,
    {
        Signal { value }
    }

    /// The signal number.
    pub fn value(&self) -> (r: i32)
        ensures
            r == self.spec_value(),
    {
        self.value
    }

    /// The signal's text, as `Display` shows it.
    pub fn to_string(&self) -> (r: String)
        ensures
            r@ == self.spec_description(),
    {
        let v = self.value;
        let text = if v == SIGABRT {
            "SIGABRT: Abort signal from abort(3)"
        } else if v == SIGALRM {
            "SIGALRM: Timer signal from alarm(2)"
        } else if v == SIGBUS {
            "SIGBUS: Bus error (bad memory access)"
        } else if v == SIGCHLD {
            "SIGCHLD: Child stopped, terminated, or continued"
        } else if v == SIGCONT {
            "SIGCONT: Continue if stopped"
        } else if v == SIGFPE {
            "SIGFPE: Erroneous arithmetic operation"
        } else if v == SIGHUP {
            "SIGHUP: Hangup detected on controlling terminal or death of controlling process"
        } else if v == SIGILL {
            "SIGILL: Illegal Instruction"
        } else if v == SIGINT {
            "SIGINT: Interrupt from keyboard"
        } else if v == SIGIO {
            "SIGIO: I/O now possible (4.2BSD)"
        } else if v == SIGKILL {
            "SIGKILL: Kill signal"
        } else if v == SIGPIPE {
            "SIGPIPE: Broken pipe: write to pipe with no readers; see pipe(7)"
        } else if v == SIGPROF {
            "SIGPROF: Profiling timer expired"
        } else if v == SIGPWR {
            "SIGPWR: Power failure (System V)"
        } else if v == SIGQUIT {
            "SIGQUIT: Quit from keyboard"
        } else if v == SIGSEGV {
            "SIGSEGV: Invalid memory reference"
        } else if v == SIGSTKFLT {
            "SIGSTKFLT: Stack fault on coprocessor (unused)"
        } else if v == SIGSTOP {
            "SIGSTOP: Stop process"
        } else if v == SIGTSTP {
            "SIGTSTP: Stop typed at terminal"
        } else if v == SIGSYS {
            "SIGSYS: Bad system call (SVr4); see also seccomp(2)"
        } else if v == SIGTERM {
            "SIGTERM: Termination signal"
        } else if v == SIGTRAP {
            "SIGTRAP: Trace/breakpoint trap"
        } else if v == SIGTTIN {
            "SIGTTIN: Terminal input for background process"
        } else if v == SIGTTOU {
            "SIGTTOU: Terminal output for background process"
        } else if v == SIGURG {
            "SIGURG: Urgent condition on socket (4.2BSD)"
        } else if v == SIGUSR1 {
            "SIGUSR1: User-defined signal 1"
        } else if v == SIGUSR2 {
            "SIGUSR2: User-defined signal 2"
        } else if v == SIGVTALRM {
            "SIGVTALRM: Virtual alarm clock (4.2BSD)"
        } else if v == SIGXCPU {
            "SIGXCPU: CPU time limit exceeded (4.2BSD); see setrlimit(2)"
        } else if v == SIGXFSZ {
            "SIGXFSZ: File size limit exceeded (4.2BSD); see setrlimit(2)"
        } else if v == SIGWINCH {
            "SIGWINCH: Window resize signal (4.3BSD, Sun)"
        } else {
            let mut s = String::from_str("unknown signal: ");
            push_signed_decimal(&mut s, v as i64);
            return s;
        };
        String::from_str(text)
    }
}

} // verus!

verus! {

/// The name of the constant above that has the signal number `value`.
pub open spec fn signal_name(value: i32) -> Option<Seq<char>> {
    if value == SIGHUP {
        Some("SIGHUP"@)
    } else if value == SIGINT {
        Some("SIGINT"@)
    } else if value == SIGQUIT {
        Some("SIGQUIT"@)
    } else if value == SIGILL {
        Some("SIGILL"@)
    } else if value == SIGTRAP {
        Some("SIGTRAP"@)
    } else if value == SIGABRT {
        Some("SIGABRT"@)
    } else if value == SIGBUS {
        Some("SIGBUS"@)
    } else if value == SIGFPE {
        Some("SIGFPE"@)
    } else if value == SIGKILL {
        Some("SIGKILL"@)
    } else if value == SIGUSR1 {
        Some("SIGUSR1"@)
    } else if value == SIGSEGV {
        Some("SIGSEGV"@)
    } else if value == SIGUSR2 {
        Some("SIGUSR2"@)
    } else if value == SIGPIPE {
        Some("SIGPIPE"@)
    } else if value == SIGALRM {
        Some("SIGALRM"@)
    } else if value == SIGTERM {
        Some("SIGTERM"@)
    } else if value == SIGSTKFLT {
        Some("SIGSTKFLT"@)
    } else if value == SIGCHLD {
        Some("SIGCHLD"@)
    } else if value == SIGCONT {
        Some("SIGCONT"@)
    } else if value == SIGSTOP {
        Some("SIGSTOP"@)
    } else if value == SIGTSTP {
        Some("SIGTSTP"@)
    } else if value == SIGTTIN {
        Some("SIGTTIN"@)
    } else if value == SIGTTOU {
        Some("SIGTTOU"@)
    } else if value == SIGURG {
        Some("SIGURG"@)
    } else if value == SIGXCPU {
        Some("SIGXCPU"@)
    } else if value == SIGXFSZ {
        Some("SIGXFSZ"@)
    } else if value == SIGVTALRM {
        Some("SIGVTALRM"@)
    } else if value == SIGPROF {
        Some("SIGPROF"@)
    } else if value == SIGWINCH {
        Some("SIGWINCH"@)
    } else if value == SIGIO {
        Some("SIGIO"@)
    } else if value == SIGPWR {
        Some("SIGPWR"@)
    } else if value == SIGSYS {
        Some("SIGSYS"@)
    } else {
        None
    }
}

/// A signal's text names it: the text of every signal number that has a
/// constant starts with that constant's name and `": "`; any other number
/// reads as an unknown signal.
pub proof fn lemma_signal_text_names_signal(s: Signal)
    ensures
        signal_name(s.spec_value()) matches Some(n) ==> {
            &&& s.spec_description().len() > n.len() + 2
            &&& s.spec_description().subrange(0, n.len() + 2int) == n + ": "@
        },
        signal_name(s.spec_value()) is None ==> s.spec_description() == "unknown signal: "@
            + signed_decimal(s.spec_value() as int),
{
    reveal_strlit(": ");
    let v = s.spec_value();
    if v == SIGHUP {
        reveal_strlit("SIGHUP");
        reveal_strlit("SIGHUP: Hangup detected on controlling terminal or death of controlling process");
        assert(s.spec_description().subrange(0, 8) =~= "SIGHUP"@ + ": "@);
    } else if v == SIGINT {
        reveal_strlit("SIGINT");
        reveal_strlit("SIGINT: Interrupt from keyboard");
        assert(s.spec_description().subrange(0, 8) =~= "SIGINT"@ + ": "@);
    } else if v == SIGQUIT {
        reveal_strlit("SIGQUIT");
        reveal_strlit("SIGQUIT: Quit from keyboard");
        assert(s.spec_description().subrange(0, 9) =~= "SIGQUIT"@ + ": "@);
    } else if v == SIGILL {
        reveal_strlit("SIGILL");
        reveal_strlit("SIGILL: Illegal Instruction");
        assert(s.spec_description().subrange(0, 8) =~= "SIGILL"@ + ": "@);
    } else if v == SIGTRAP {
        reveal_strlit("SIGTRAP");
        reveal_strlit("SIGTRAP: Trace/breakpoint trap");
        assert(s.spec_description().subrange(0, 9) =~= "SIGTRAP"@ + ": "@);
    } else if v == SIGABRT {
        reveal_strlit("SIGABRT");
        reveal_strlit("SIGABRT: Abort signal from abort(3)");
        assert(s.spec_description().subrange(0, 9) =~= "SIGABRT"@ + ": "@);
    } else if v == SIGBUS {
        reveal_strlit("SIGBUS");
        reveal_strlit("SIGBUS: Bus error (bad memory access)");
        assert(s.spec_description().subrange(0, 8) =~= "SIGBUS"@ + ": "@);
    } else if v == SIGFPE {
        reveal_strlit("SIGFPE");
        reveal_strlit("SIGFPE: Erroneous arithmetic operation");
        assert(s.spec_description().subrange(0, 8) =~= "SIGFPE"@ + ": "@);
    } else if v == SIGKILL {
        reveal_strlit("SIGKILL");
        reveal_strlit("SIGKILL: Kill signal");
        assert(s.spec_description().subrange(0, 9) =~= "SIGKILL"@ + ": "@);
    } else if v == SIGUSR1 {
        reveal_strlit("SIGUSR1");
        reveal_strlit("SIGUSR1: User-defined signal 1");
        assert(s.spec_description().subrange(0, 9) =~= "SIGUSR1"@ + ": "@);
    } else if v == SIGSEGV {
        reveal_strlit("SIGSEGV");
        reveal_strlit("SIGSEGV: Invalid memory reference");
        assert(s.spec_description().subrange(0, 9) =~= "SIGSEGV"@ + ": "@);
    } else if v == SIGUSR2 {
        reveal_strlit("SIGUSR2");
        reveal_strlit("SIGUSR2: User-defined signal 2");
        assert(s.spec_description().subrange(0, 9) =~= "SIGUSR2"@ + ": "@);
    } else if v == SIGPIPE {
        reveal_strlit("SIGPIPE");
        reveal_strlit("SIGPIPE: Broken pipe: write to pipe with no readers; see pipe(7)");
        assert(s.spec_description().subrange(0, 9) =~= "SIGPIPE"@ + ": "@);
    } else if v == SIGALRM {
        reveal_strlit("SIGALRM");
        reveal_strlit("SIGALRM: Timer signal from alarm(2)");
        assert(s.spec_description().subrange(0, 9) =~= "SIGALRM"@ + ": "@);
    } else if v == SIGTERM {
        reveal_strlit("SIGTERM");
        reveal_strlit("SIGTERM: Termination signal");
        assert(s.spec_description().subrange(0, 9) =~= "SIGTERM"@ + ": "@);
    } else if v == SIGSTKFLT {
        reveal_strlit("SIGSTKFLT");
        reveal_strlit("SIGSTKFLT: Stack fault on coprocessor (unused)");
        assert(s.spec_description().subrange(0, 11) =~= "SIGSTKFLT"@ + ": "@);
    } else if v == SIGCHLD {
        reveal_strlit("SIGCHLD");
        reveal_strlit("SIGCHLD: Child stopped, terminated, or continued");
        assert(s.spec_description().subrange(0, 9) =~= "SIGCHLD"@ + ": "@);
    } else if v == SIGCONT {
        reveal_strlit("SIGCONT");
        reveal_strlit("SIGCONT: Continue if stopped");
        assert(s.spec_description().subrange(0, 9) =~= "SIGCONT"@ + ": "@);
    } else if v == SIGSTOP {
        reveal_strlit("SIGSTOP");
        reveal_strlit("SIGSTOP: Stop process");
        assert(s.spec_description().subrange(0, 9) =~= "SIGSTOP"@ + ": "@);
    } else if v == SIGTSTP {
        reveal_strlit("SIGTSTP");
        reveal_strlit("SIGTSTP: Stop typed at terminal");
        assert(s.spec_description().subrange(0, 9) =~= "SIGTSTP"@ + ": "@);
    } else if v == SIGTTIN {
        reveal_strlit("SIGTTIN");
        reveal_strlit("SIGTTIN: Terminal input for background process");
        assert(s.spec_description().subrange(0, 9) =~= "SIGTTIN"@ + ": "@);
    } else if v == SIGTTOU {
        reveal_strlit("SIGTTOU");
        reveal_strlit("SIGTTOU: Terminal output for background process");
        assert(s.spec_description().subrange(0, 9) =~= "SIGTTOU"@ + ": "@);
    } else if v == SIGURG {
        reveal_strlit("SIGURG");
        reveal_strlit("SIGURG: Urgent condition on socket (4.2BSD)");
        assert(s.spec_description().subrange(0, 8) =~= "SIGURG"@ + ": "@);
    } else if v == SIGXCPU {
        reveal_strlit("SIGXCPU");
        reveal_strlit("SIGXCPU: CPU time limit exceeded (4.2BSD); see setrlimit(2)");
        assert(s.spec_description().subrange(0, 9) =~= "SIGXCPU"@ + ": "@);
    } else if v == SIGXFSZ {
        reveal_strlit("SIGXFSZ");
        reveal_strlit("SIGXFSZ: File size limit exceeded (4.2BSD); see setrlimit(2)");
        assert(s.spec_description().subrange(0, 9) =~= "SIGXFSZ"@ + ": "@);
    } else if v == SIGVTALRM {
        reveal_strlit("SIGVTALRM");
        reveal_strlit("SIGVTALRM: Virtual alarm clock (4.2BSD)");
        assert(s.spec_description().subrange(0, 11) =~= "SIGVTALRM"@ + ": "@);
    } else if v == SIGPROF {
        reveal_strlit("SIGPROF");
        reveal_strlit("SIGPROF: Profiling timer expired");
        assert(s.spec_description().subrange(0, 9) =~= "SIGPROF"@ + ": "@);
    } else if v == SIGWINCH {
        reveal_strlit("SIGWINCH");
        reveal_strlit("SIGWINCH: Window resize signal (4.3BSD, Sun)");
        assert(s.spec_description().subrange(0, 10) =~= "SIGWINCH"@ + ": "@);
    } else if v == SIGIO {
        reveal_strlit("SIGIO");
        reveal_strlit("SIGIO: I/O now possible (4.2BSD)");
        assert(s.spec_description().subrange(0, 7) =~= "SIGIO"@ + ": "@);
    } else if v == SIGPWR {
        reveal_strlit("SIGPWR");
        reveal_strlit("SIGPWR: Power failure (System V)");
        assert(s.spec_description().subrange(0, 8) =~= "SIGPWR"@ + ": "@);
    } else if v == SIGSYS {
        reveal_strlit("SIGSYS");
        reveal_strlit("SIGSYS: Bad system call (SVr4); see also seccomp(2)");
        assert(s.spec_description().subrange(0, 8) =~= "SIGSYS"@ + ": "@);
    }
}

} // verus!
