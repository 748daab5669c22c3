use ddb::cli::args::{parse_i32, Args, IntErrorKind, ParseArgsError, Subcommand};
use ddb::cli::error::{Error, USAGE};
use ddb::cli::repl::{Action, History, HISTORY_LIMIT};

fn argv(items: &[&[u8]]) -> Vec<Vec<u8>> {
    items.iter().map(|a| a.to_vec()).collect()
}

#[test]
fn parse_launch_and_attach() {
    match Args::parse(argv(&[b"ddb", b"/bin/true"])).unwrap().command {
        Subcommand::Launch { path } => assert_eq!(path, b"/bin/true".to_vec()),
        other => panic!("unexpected {other:?}"),
    }
    match Args::parse(argv(&[b"ddb", b"-p", b"1234"])).unwrap().command {
        Subcommand::Attach { pid } => assert_eq!(pid, 1234),
        other => panic!("unexpected {other:?}"),
    }
}

#[test]
fn parse_refusals() {
    assert!(matches!(Args::parse(argv(&[b"ddb"])), Err(ParseArgsError::MissingArgs)));
    assert!(matches!(Args::parse(argv(&[])), Err(ParseArgsError::MissingArgs)));
    assert!(matches!(Args::parse(argv(&[b"ddb", b"-p"])), Err(ParseArgsError::ExpectedPid)));
    assert!(matches!(
        Args::parse(argv(&[b"ddb", b"a", b"b"])),
        Err(ParseArgsError::TrailingArgs)
    ));
    assert!(matches!(
        Args::parse(argv(&[b"ddb", b"-p", b"1", b"b"])),
        Err(ParseArgsError::TrailingArgs)
    ));
    assert!(matches!(
        Args::parse(argv(&[b"ddb", b"-p", b"x", b"b"])),
        Err(ParseArgsError::PidNotInteger(e)) if e.kind == IntErrorKind::InvalidDigit
    ));
    match Args::parse(argv(&[b"ddb", b"-p", &[0x31, 0xff]])) {
        Err(ParseArgsError::PidNotUtf8(e)) => assert_eq!(e.valid_up_to(), 1),
        other => panic!("unexpected {other:?}"),
    }
}

#[test]
fn parse_integers() {
    assert_eq!(parse_i32("42").unwrap(), 42);
    assert_eq!(parse_i32("+7").unwrap(), 7);
    assert_eq!(parse_i32("-0").unwrap(), 0);
    assert_eq!(parse_i32("2147483647").unwrap(), i32::MAX);
    assert_eq!(parse_i32("-2147483648").unwrap(), i32::MIN);
    assert_eq!(parse_i32("2147483648").unwrap_err().kind, IntErrorKind::PosOverflow);
    assert_eq!(parse_i32("-2147483649").unwrap_err().kind, IntErrorKind::NegOverflow);
    assert_eq!(parse_i32("").unwrap_err().kind, IntErrorKind::Empty);
    assert_eq!(parse_i32("+").unwrap_err().kind, IntErrorKind::InvalidDigit);
    assert_eq!(parse_i32("-").unwrap_err().kind, IntErrorKind::InvalidDigit);
    assert_eq!(parse_i32("1a").unwrap_err().kind, IntErrorKind::InvalidDigit);
    assert_eq!(parse_i32(" 1").unwrap_err().kind, IntErrorKind::InvalidDigit);
    assert_eq!(parse_i32("99999999999x").unwrap_err().kind, IntErrorKind::PosOverflow);
    for s in ["0", "17", "-17", "+2147483647", "2147483648", "abc", "--1", "12345678901"] {
        assert_eq!(parse_i32(s).ok(), s.parse::<i32>().ok());
    }
}

#[test]
fn parse_messages() {
    assert_eq!(ParseArgsError::MissingArgs.to_string(), "no attach target was provided");
    assert_eq!(ParseArgsError::ExpectedPid.to_string(), "expected pid after -p");
    assert_eq!(ParseArgsError::TrailingArgs.to_string(), "unrecognized trailing arguments");
    let e = parse_i32("x").unwrap_err();
    assert_eq!(
        ParseArgsError::PidNotInteger(e).to_string(),
        "pid was not a valid integer: invalid digit found in string"
    );
    let e = Error::from(ParseArgsError::ExpectedPid);
    assert_eq!(
        e.to_string(),
        format!("unable to parse arguments: expected pid after -p\n\n{USAGE}")
    );
    assert!(USAGE.starts_with("USAGE: ddb (-p <pid> | <path>)\n"));
}

#[test]
fn command_words() {
    assert!(matches!(Action::parse("help"), Action::Help));
    assert!(matches!(Action::parse("h extra"), Action::Help));
    assert!(matches!(Action::parse("q"), Action::Quit));
    assert!(matches!(Action::parse("quit"), Action::Quit));
    assert!(matches!(Action::parse("c"), Action::Continue));
    assert!(matches!(Action::parse("continue now"), Action::Continue));
    assert!(matches!(Action::parse("w"), Action::Wait));
    assert!(matches!(Action::parse("wait"), Action::Wait));
    assert!(matches!(Action::parse("xyz a"), Action::Unknown(w) if w == "xyz"));
    assert!(matches!(Action::parse(""), Action::Unknown(w) if w.is_empty()));
    assert!(matches!(Action::parse(" c"), Action::Unknown(w) if w.is_empty()));
}

#[test]
fn history_keeps_last_lines() {
    let mut h = History::new();
    assert_eq!(h.resolve("\n"), "");
    assert_eq!(h.resolve("c\n"), "c");
    h.record(String::new());
    assert_eq!(h.len(), 0);
    for i in 0..105 {
        h.record(format!("line {i}"));
    }
    assert_eq!(h.len(), HISTORY_LIMIT);
    assert_eq!(h.resolve("\n"), "line 104");
    assert_eq!(h.resolve(""), "line 104");
    assert_eq!(h.resolve("w\n"), "w");
}

#[test]
fn history_over_a_run() {
    let mut h = History::new();
    let lines = ["c", "", "w", "", "q"];
    for l in lines {
        h.record(l.to_string());
    }
    assert_eq!(h.len(), 3);
    assert_eq!(h.resolve("\n"), "q");
    let mut h = History::new();
    for i in 0..250 {
        if i % 2 == 0 {
            h.record(String::new());
        } else {
            h.record(format!("{i}"));
        }
    }
    assert_eq!(h.len(), HISTORY_LIMIT);
    assert_eq!(h.resolve("\n"), "249");
}

#[test]
fn debugger_error_messages() {
    let e = Error::from(ddb::Fatal::syscall("waitpid"));
    assert!(e.to_string().starts_with("`waitpid` failed: "));
    let e = Error::from(ddb::Fatal::CannotStop(ddb::State::Exited));
    assert_eq!(e.to_string(), "cannot stop from 'exited' state");
}

#[test]
fn pid_not_utf8_message() {
    match Args::parse(argv(&[b"ddb", b"-p", &[b'1', 0xff]])) {
        Err(e @ ParseArgsError::PidNotUtf8(_)) => assert_eq!(
            e.to_string(),
            "pid was not valid UTF-8: invalid utf-8 sequence of 1 bytes from index 1"
        ),
        other => panic!("unexpected {other:?}"),
    }
}
