//! The command line of the debugger: `ddb (-p <pid> | <path>)`.
use vstd::prelude::*;
use vstd::string::StrSliceExecFns;
use vstd::utf8::{decode_utf8, valid_utf8};

use crate::error::{str_from_utf8, utf8_error_len, Utf8Error};

verus! {

/// Why a string is not a decimal integer of the target type.
#[derive(Clone, Copy, Debug, PartialEq, Eq, Structural)]
pub enum IntErrorKind {
    Empty,
    InvalidDigit,
    PosOverflow,
    NegOverflow,
}

/// A string that should have been a decimal integer was not.
#[derive(Clone, Copy, Debug, PartialEq, Eq, Structural)]
pub struct ParseIntError {
    pub kind: IntErrorKind,
}

impl ParseIntError {
    /// The error's message, as `Display` shows it.
    pub open spec fn spec_message(&self) -> Seq<char> {
        match self.kind {
            IntErrorKind::Empty => "cannot parse integer from empty string"@,
            IntErrorKind::InvalidDigit => "invalid digit found in string"@,
            IntErrorKind::PosOverflow => "number too large to fit in target type"@,
            IntErrorKind::NegOverflow => "number too small to fit in target type"@,
        }
    }

    /// The error's message, as `Display` shows it.
    pub fn to_string(&self) -> (r: String)
        ensures
            r@ == self.spec_message(),
    {
        match self.kind {
            IntErrorKind::Empty => String::from_str("cannot parse integer from empty string"),
            IntErrorKind::InvalidDigit => String::from_str("invalid digit found in string"),
            IntErrorKind::PosOverflow => String::from_str("number too large to fit in target type"),
            IntErrorKind::NegOverflow => String::from_str("number too small to fit in target type"),
        }
    }
}

/// Whether `c` is a decimal digit.
pub open spec fn is_digit(c: char) -> bool {
    48 <= (c as u32) <= 57
}

/// The outcome of reading the digits `d` from left to right into a 32-bit
/// value that grows away from zero (downwards when `neg`): the value, or the
/// first invalid digit or overflow met.
pub open spec fn scan_digits(d: Seq<char>, neg: bool) -> Result<int, IntErrorKind>
    decreases d.len(),
{
    if d.len() == 0 {
        Ok(0)
    } else {
        match scan_digits(d.drop_last(), neg) {
            Err(k) => Err(k),
            Ok(acc) => if !is_digit(d.last()) {
                Err(IntErrorKind::InvalidDigit)
            } else {
                let digit = (d.last() as u32) - 48;
                if neg {
                    if acc * 10 - digit < i32::MIN {
                        Err(IntErrorKind::NegOverflow)
                    } else {
                        Ok(acc * 10 - digit)
                    }
                } else {
                    if acc * 10 + digit > i32::MAX {
                        Err(IntErrorKind::PosOverflow)
                    } else {
                        Ok(acc * 10 + digit)
                    }
                }
            },
        }
    }
}

/// The outcome of reading `s` as a decimal `i32`: an optional sign, then
/// digits, as `str::parse::<i32>` reads it.
pub open spec fn parse_i32_spec(s: Seq<char>) -> Result<i32, IntErrorKind> {
    if s.len() == 0 {
        Err(IntErrorKind::Empty)
    } else {
        let signed = s[0] == '+' || s[0] == '-';
        let neg = s[0] == '-';
        let d = if signed {
            s.drop_first()
        } else {
            s
        };
        if d.len() == 0 {
            Err(IntErrorKind::InvalidDigit)
        } else {
            match scan_digits(d, neg) {
                Ok(v) => Ok(v as i32),
                Err(k) => Err(k),
            }
        }
    }
}

/// Reads `s` as a decimal `i32`.
pub fn parse_i32(s: &str) -> (r: Result<i32, ParseIntError>)
    ensures
        r == match parse_i32_spec(s@) {
            Ok(v) => Ok::<i32, ParseIntError>(v),
            Err(k) => Err(ParseIntError { kind: k }),
        },
{
    let n = s.unicode_len();
    if n == 0 {
        return Err(ParseIntError { kind: IntErrorKind::Empty });
    }
    let c0 = s.get_char(0);
    let signed = c0 == '+' || c0 == '-';
    let neg = c0 == '-';
    let start: usize = if signed {
        1
    } else {
        0
    };
    let ghost d = if signed {
        s@.drop_first()
    } else {
        s@
    };
    if start == n {
        return Err(ParseIntError { kind: IntErrorKind::InvalidDigit });
    }
    let mut acc: i32 = 0;
    let mut i: usize = start;
    assert(d.subrange(0, 0) =~= Seq::<char>::empty());
    while i < n
        invariant
            n == s@.len(),
            n > 0,
            signed == (s@[0] == '+' || s@[0] == '-'),
            neg == (s@[0] == '-'),
            neg ==> acc <= 0,
            !neg ==> acc >= 0,
            start <= i <= n,
            d.len() == n - start,
            forall|k: int| 0 <= k < d.len() ==> d[k] == s@[k + start],
            scan_digits(d.subrange(0, i - start), neg) == Ok::<int, IntErrorKind>(acc as int),
            d == (if signed {
                s@.drop_first()
            } else {
                s@
            }),
            start == (if signed {
                1usize
            } else {
                0usize
            }),
        decreases n - i,
    {
        let c = s.get_char(i);
        let ghost prefix = d.subrange(0, i + 1 - start);
        assert(prefix.drop_last() =~= d.subrange(0, i - start));
        assert(prefix.last() == c);
        if !((c as u32) >= 48 && (c as u32) <= 57) {
            proof {
                lemma_scan_prefix_err(d, (i + 1 - start) as nat, neg);
            }
            return Err(ParseIntError { kind: IntErrorKind::InvalidDigit });
        }
        let digit = ((c as u32) - 48) as i64;
        if neg {
            let v = (acc as i64) * 10 - digit;
            if v < i32::MIN as i64 {
                proof {
                    lemma_scan_prefix_err(d, (i + 1 - start) as nat, neg);
                }
                return Err(ParseIntError { kind: IntErrorKind::NegOverflow });
            }
            acc = v as i32;
        } else {
            let v = (acc as i64) * 10 + digit;
            if v > i32::MAX as i64 {
                proof {
                    lemma_scan_prefix_err(d, (i + 1 - start) as nat, neg);
                }
                return Err(ParseIntError { kind: IntErrorKind::PosOverflow });
            }
            acc = v as i32;
        }
        i = i + 1;
    }
    assert(d.subrange(0, n - start) =~= d);
    Ok(acc)
}

/// Once a prefix of the digits fails, the whole scan fails in the same way.
proof fn lemma_scan_prefix_err(d: Seq<char>, k: nat, neg: bool)
    requires
        k <= d.len(),
        scan_digits(d.subrange(0, k as int), neg) is Err,
    ensures
        scan_digits(d, neg) == scan_digits(d.subrange(0, k as int), neg),
    decreases d.len() - k,
{
    if k < d.len() {
        let next = d.subrange(0, (k + 1) as int);
        assert(next.drop_last() =~= d.subrange(0, k as int));
        lemma_scan_prefix_err(d, (k + 1) as nat, neg);
    } else {
        assert(d.subrange(0, k as int) =~= d);
    }
}

/// The bytes of the `-p` flag.
pub open spec fn attach_flag() -> Seq<u8> {
    seq![45u8, 112u8]
}

/// Why the command line was refused.
#[derive(Debug)]
pub enum ParseArgsError {
    MissingArgs,
    ExpectedPid,
    PidNotUtf8(Utf8Error),
    PidNotInteger(ParseIntError),
    TrailingArgs,
}

impl ParseArgsError {
    /// The error's message, as `Display` shows it.
    pub open spec fn spec_message(&self) -> Seq<char> {
        match self {
            ParseArgsError::MissingArgs => "no attach target was provided"@,
            ParseArgsError::ExpectedPid => "expected pid after -p"@,
            ParseArgsError::PidNotUtf8(e) => "pid was not valid UTF-8: "@ + e.spec_message(),
            ParseArgsError::PidNotInteger(e) => "pid was not a valid integer: "@ + e.spec_message(),
            ParseArgsError::TrailingArgs => "unrecognized trailing arguments"@,
        }
    }

    /// The error's message, as `Display` shows it.
    pub fn to_string(&self) -> (r: String)
        ensures
            r@ == self.spec_message(),
    {
        match self {
            ParseArgsError::MissingArgs => String::from_str("no attach target was provided"),
            ParseArgsError::ExpectedPid => String::from_str("expected pid after -p"),
            ParseArgsError::PidNotUtf8(e) => {
                let mut s = String::from_str("pid was not valid UTF-8: ");
                let m = e.to_string();
                s.append(m.as_str());
                s
            },
            ParseArgsError::PidNotInteger(e) => {
                let mut s = String::from_str("pid was not a valid integer: ");
                let m = e.to_string();
                s.append(m.as_str());
                s
            },
            ParseArgsError::TrailingArgs => String::from_str("unrecognized trailing arguments"),
        }
    }
}

/// What the debugger was asked to debug.
#[derive(Debug)]
pub enum Subcommand {
    /// Attach to a running process.
    Attach { pid: i32 },
    /// Launch the program at `path` (its bytes as the OS holds them) and attach to it.
    Launch { path: Vec<u8> },
}

/// The parsed command line.
#[derive(Debug)]
pub struct Args {
    pub command: Subcommand,
}

impl Args {
    /// Parses the command line `args`, whose first entry is the program's
    /// own name: either `-p <pid>` or a path, and nothing after it.
    pub fn parse(args: Vec<Vec<u8>>) -> (r: Result<Args, ParseArgsError>)
        ensures
            args@.len() <= 1 ==> (r matches Err(ParseArgsError::MissingArgs)),
            args@.len() == 2 && args@[1]@ != attach_flag() ==> (r matches Ok(
                Args { command: Subcommand::Launch { path } },
            ) && path@ == args@[1]@),
            args@.len() > 2 && args@[1]@ != attach_flag() ==> (r matches Err(
                ParseArgsError::TrailingArgs,
            )),
            args@.len() == 2 && args@[1]@ == attach_flag() ==> (r matches Err(
                ParseArgsError::ExpectedPid,
            )),
            args@.len() >= 3 && args@[1]@ == attach_flag() && !valid_utf8(args@[2]@) ==> (
            r matches Err(ParseArgsError::PidNotUtf8(e)) && e.describes(args@[2]@)
                && e.spec_error_len() == utf8_error_len(args@[2]@)),
            args@.len() >= 3 && args@[1]@ == attach_flag() && valid_utf8(args@[2]@) ==> (
            parse_i32_spec(decode_utf8(args@[2]@)) matches Err(k) ==> (r matches Err(
                ParseArgsError::PidNotInteger(e),
            ) && e.kind == k)),
            args@.len() == 3 && args@[1]@ == attach_flag() && valid_utf8(args@[2]@) ==> (
            parse_i32_spec(decode_utf8(args@[2]@)) matches Ok(pid) ==> (r matches Ok(
                Args { command: Subcommand::Attach { pid: p } },
            ) && p == pid)),
            args@.len() > 3 && args@[1]@ == attach_flag() && valid_utf8(args@[2]@) ==> (
            parse_i32_spec(decode_utf8(args@[2]@)) is Ok ==> (r matches Err(
                ParseArgsError::TrailingArgs,
            ))),
    {
        let n = args.len();
        if n <= 1 {
            return Err(ParseArgsError::MissingArgs);
        }
        let first = &args[1];
        let is_flag = first.len() == 2 && first[0] == 45u8 && first[1] == 112u8;
        assert(is_flag <==> args@[1]@ == attach_flag()) by {
            if first@.len() == 2 && first@[0] == 45u8 && first@[1] == 112u8 {
                assert(first@ =~= attach_flag());
            }
        }
        let command = if is_flag {
            if n == 2 {
                return Err(ParseArgsError::ExpectedPid);
            }
            let text = match str_from_utf8(args[2].as_slice()) {
                Ok(t) => t,
                Err(e) => return Err(ParseArgsError::PidNotUtf8(e)),
            };
            let pid = match parse_i32(text) {
                Ok(p) => p,
                Err(e) => return Err(ParseArgsError::PidNotInteger(e)),
            };
            if n > 3 {
                return Err(ParseArgsError::TrailingArgs);
            }
            Subcommand::Attach { pid }
        } else {
            if n > 2 {
                return Err(ParseArgsError::TrailingArgs);
            }
            Subcommand::Launch { path: args[1].clone() }
        };
        Ok(Args { command })
    }
}

} // verus!
