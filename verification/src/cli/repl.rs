//! The command loop of the command-line debugger: which command a line
//! names, and the history of lines.
use vstd::prelude::*;
use vstd::string::StrSliceExecFns;

use crate::text::str_eq;

verus! {

/// The help text of the command loop.
pub const HELP: &'static str = "Commands:\n\nhelp (h)\n    Print commands and descriptions.\n\nquit (q)\n    Halt debugging, detach, and exit. If the attached program was launched by\n    ddb, it will be terminated. Otherwise, it will resume execution.\n\ncontinue (c)\n    Continue execution of the program.\n\nwait (w)\n    Wait for a state change in the attached program.";

/// How many lines the history keeps.
pub const HISTORY_LIMIT: usize = 100;

/// The characters of `s` before its first space.
pub open spec fn first_word(s: Seq<char>) -> Seq<char>
    decreases s.len(),
{
    if s.len() == 0 {
        s
    } else if s[0] == ' ' {
        Seq::empty()
    } else {
        seq![s[0]] + first_word(s.drop_first())
    }
}

proof fn lemma_first_word(s: Seq<char>, i: int)
    requires
        0 <= i <= s.len(),
        forall|j: int| 0 <= j < i ==> s[j] != ' ',
        i == s.len() || s[i] == ' ',
    ensures
        first_word(s) == s.subrange(0, i),
    decreases i,
{
    if i == 0 {
        assert(s.subrange(0, 0) =~= Seq::<char>::empty());
    } else {
        lemma_first_word(s.drop_first(), i - 1);
        assert(s.subrange(0, i) =~= seq![s[0]] + s.drop_first().subrange(0, i - 1));
    }
}

/// A command of the command loop.
#[derive(Debug)]
pub enum Action {
    Help,
    Quit,
    Continue,
    Wait,
    /// A word that names no command.
    Unknown(String),
}

impl Action {
    /// The command that `line` names by its first word: `h`/`help`, `q`/`quit`,
    /// `c`/`continue` or `w`/`wait`; any other word is unknown.
    pub fn parse(line: &str) -> (r: Action)
        ensures
            (first_word(line@) == "h"@ || first_word(line@) == "help"@) ==> r is Help,
            (first_word(line@) == "q"@ || first_word(line@) == "quit"@) ==> r is Quit,
            (first_word(line@) == "c"@ || first_word(line@) == "continue"@) ==> r is Continue,
            (first_word(line@) == "w"@ || first_word(line@) == "wait"@) ==> r is Wait,
            !(first_word(line@) == "h"@ || first_word(line@) == "help"@ || first_word(line@)
                == "q"@ || first_word(line@) == "quit"@ || first_word(line@) == "c"@
                || first_word(line@) == "continue"@ || first_word(line@) == "w"@
                || first_word(line@) == "wait"@) ==> (r matches Action::Unknown(w) && w@
                == first_word(line@)),
    {
        let n = line.unicode_len();
        let mut i: usize = 0;
        while i < n
            invariant
                n == line@.len(),
                i <= n,
                forall|j: int| 0 <= j < i ==> line@[j] != ' ',
            ensures
                n == line@.len(),
                i <= n,
                forall|j: int| 0 <= j < i ==> line@[j] != ' ',
                i == n || line@[i as int] == ' ',
            decreases n - i,
        {
            if line.get_char(i) == ' ' {
                break;
            }
            i = i + 1;
        }
        proof {
            lemma_first_word(line@, i as int);
            reveal_strlit("h");
            reveal_strlit("help");
            reveal_strlit("q");
            reveal_strlit("quit");
            reveal_strlit("c");
            reveal_strlit("continue");
            reveal_strlit("w");
            reveal_strlit("wait");
            assert("h"@.len() == 1 && "h"@[0] == 'h');
            assert("help"@.len() == 4 && "help"@[0] == 'h');
            assert("q"@.len() == 1 && "q"@[0] == 'q');
            assert("quit"@.len() == 4 && "quit"@[0] == 'q');
            assert("c"@.len() == 1 && "c"@[0] == 'c');
            assert("continue"@.len() == 8 && "continue"@[0] == 'c');
            assert("w"@.len() == 1 && "w"@[0] == 'w');
            assert("wait"@.len() == 4 && "wait"@[0] == 'w');
        }
        let word = line.substring_char(0, i);
        if str_eq(word, "h") || str_eq(word, "help") {
            Action::Help
        } else if str_eq(word, "q") || str_eq(word, "quit") {
            Action::Quit
        } else if str_eq(word, "c") || str_eq(word, "continue") {
            Action::Continue
        } else if str_eq(word, "w") || str_eq(word, "wait") {
            Action::Wait
        } else {
            Action::Unknown(String::from_str(word))
        }
    }
}

/// The lines that the command loop ran, oldest first, at most `HISTORY_LIMIT`.
#[derive(Debug)]
pub struct History {
    lines: Vec<String>,
}

/// The last `HISTORY_LIMIT` entries of `s`.
pub open spec fn keep_last(s: Seq<Seq<char>>) -> Seq<Seq<char>> {
    if s.len() > HISTORY_LIMIT {
        s.subrange(s.len() - HISTORY_LIMIT, s.len() as int)
    } else {
        s
    }
}

/// The history `h` after the command loop ran `line`: an empty line is not
/// kept; otherwise the line goes last and only the newest `HISTORY_LIMIT`
/// lines stay.
pub open spec fn recorded(h: Seq<Seq<char>>, line: Seq<char>) -> Seq<Seq<char>> {
    if line.len() == 0 {
        h
    } else {
        keep_last(h.push(line))
    }
}

/// The history `h` after the command loop ran `lines`, in order.
pub open spec fn recorded_all(h: Seq<Seq<char>>, lines: Seq<Seq<char>>) -> Seq<Seq<char>>
    decreases lines.len(),
{
    if lines.len() == 0 {
        h
    } else {
        recorded(recorded_all(h, lines.drop_last()), lines.last())
    }
}

/// Whether a line is kept in the history.
pub open spec fn is_kept(line: Seq<char>) -> bool {
    line.len() > 0
}

proof fn lemma_keep_last_push(a: Seq<Seq<char>>, x: Seq<char>)
    ensures
        keep_last(keep_last(a).push(x)) == keep_last(a.push(x)),
{
    if a.len() > HISTORY_LIMIT {
        assert(keep_last(keep_last(a).push(x)) =~= keep_last(a.push(x)));
    }
}

/// Over a whole run of the command loop, the history holds the newest
/// `HISTORY_LIMIT` (at most) of the lines it started with followed by the
/// non-empty lines that ran, in the order they ran, the oldest dropped first.
pub proof fn lemma_history_run(h: Seq<Seq<char>>, lines: Seq<Seq<char>>)
    requires
        h.len() <= HISTORY_LIMIT,
    ensures
        recorded_all(h, lines) == keep_last(h + lines.filter(|l: Seq<char>| is_kept(l))),
        recorded_all(h, lines).len() <= HISTORY_LIMIT,
    decreases lines.len(),
{
    let p = |l: Seq<char>| is_kept(l);
    if lines.len() == 0 {
        reveal(Seq::filter);
        assert(lines.filter(p) =~= Seq::<Seq<char>>::empty());
        assert(h + lines.filter(p) =~= h);
    } else {
        lemma_history_run(h, lines.drop_last());
        let before = h + lines.drop_last().filter(p);
        let x = lines.last();
        reveal(Seq::filter);
        if x.len() == 0 {
            assert(lines.filter(p) == lines.drop_last().filter(p));
        } else {
            assert(lines.filter(p) == lines.drop_last().filter(p).push(x));
            assert(h + lines.filter(p) =~= before.push(x));
            lemma_keep_last_push(before, x);
        }
    }
}

impl History {
    #[verifier::type_invariant]
    spec fn inv(self) -> bool {
        self.lines@.len() <= HISTORY_LIMIT
    }

    /// The lines, oldest first.
    pub closed spec fn view(&self) -> Seq<Seq<char>> {
        self.lines@.map_values(|l: String| l@)
    }

    pub fn new() -> (r: History)
        ensures
            r@ == Seq::<Seq<char>>::empty(),
    {
        let r = History { lines: Vec::new() };
        assert(r@ =~= Seq::<Seq<char>>::empty());
        r
    }

    /// Number of lines kept.
    pub fn len(&self) -> (r: usize)
        ensures
            r == self@.len(),
            r <= HISTORY_LIMIT,
    {
        proof {
            use_type_invariant(self);
        }
        self.lines.len()
    }

    /// The line to run for the input `input` (a line as read, ending in its
    /// newline): the input without its last character, or, when that leaves
    /// nothing, the newest line of the history (nothing if there is none).
    pub fn resolve(&self, input: &str) -> (r: String)
        ensures
            input@.len() > 1 ==> r@ == input@.subrange(0, input@.len() - 1),
            input@.len() <= 1 && self@.len() > 0 ==> r@ == self@.last(),
            input@.len() <= 1 && self@.len() == 0 ==> r@ == Seq::<char>::empty(),
    {
        let n = input.unicode_len();
        if n > 1 {
            return String::from_str(input.substring_char(0, n - 1));
        }
        let k = self.lines.len();
        if k > 0 {
            let last = self.lines[k - 1].clone();
            assert(self@.last() == self.lines@[k - 1]@);
            last
        } else {
            String::new()
        }
    }

    /// Adds a line that was run; an empty line is not kept, and the oldest
    /// lines go once more than `HISTORY_LIMIT` are kept.
    pub fn record(&mut self, line: String)
        ensures
            final(self)@ == recorded(old(self)@, line@),
            final(self)@.len() <= HISTORY_LIMIT,
    {
        proof {
            use_type_invariant(&*self);
        }
        if line.as_str().is_empty() {
            return;
        }
        let ghost before = self@;
        let mut lines = Vec::new();
        std::mem::swap(&mut lines, &mut self.lines);
        lines.push(line);
        assert(lines@.map_values(|l: String| l@) =~= before.push(line@));
        if lines.len() > HISTORY_LIMIT {
            lines.remove(0);
            assert(lines@.map_values(|l: String| l@) =~= keep_last(before.push(line@)));
        }
        self.lines = lines;
    }
}

} // verus!
