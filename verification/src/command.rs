use vstd::prelude::*;

verus! {

/// A debugger command: step some number of instructions, repeat the last
/// command (an empty line), or leave.
#[derive(Clone, Copy, PartialEq, Eq, Structural, Debug)]
pub enum Command {
    Step(usize),
    Repeat,
    Exit,
}

/// A space or a horizontal tab.
pub open spec fn is_ws(b: u8) -> bool {
    b == 32 || b == 9
}

/// An ASCII decimal digit.
pub open spec fn is_digit(b: u8) -> bool {
    48 <= b <= 57
}

/// The index of the first non-blank byte at or after `i`.
pub open spec fn ws_end(s: Seq<u8>, i: int) -> int
    decreases s.len() - i,
{
    if 0 <= i < s.len() && is_ws(s[i]) {
        ws_end(s, i + 1)
    } else {
        i
    }
}

/// Every byte from `i` on is a digit.
pub open spec fn all_digits(s: Seq<u8>, i: int) -> bool
    decreases s.len() - i,
{
    if 0 <= i < s.len() {
        is_digit(s[i]) && all_digits(s, i + 1)
    } else {
        true
    }
}

/// The decimal number starting at `i` accumulated onto `acc`, or nothing
/// when the value leaves the machine's range.
pub open spec fn digits_to_usize(s: Seq<u8>, i: int, acc: usize) -> Option<usize>
    decreases s.len() - i,
{
    if 0 <= i < s.len() {
        let d = (s[i] - 48) as usize;
        if acc * 10 + d > usize::MAX {
            None
        } else {
            digits_to_usize(s, i + 1, (acc * 10 + d) as usize)
        }
    } else {
        Some(acc)
    }
}

/// The input is exactly one of the leave words: "exit", "quit", "e" or "q".
pub open spec fn is_exit_word(s: Seq<u8>) -> bool {
    (s.len() == 4 && s[0] == 101 && s[1] == 120 && s[2] == 105 && s[3] == 116) || (s.len() == 4
        && s[0] == 113 && s[1] == 117 && s[2] == 105 && s[3] == 116) || (s.len() == 1 && s[0]
        == 101) || (s.len() == 1 && s[0] == 113)
}

/// The input starts with the word "step".
pub open spec fn starts_step(s: Seq<u8>) -> bool {
    s.len() >= 4 && s[0] == 115 && s[1] == 116 && s[2] == 101 && s[3] == 112
}

/// What follows a step word at index `j`: nothing (one step), or blanks and
/// a decimal count filling the rest of the line.
pub open spec fn spec_parse_count(s: Seq<u8>, j: int) -> Option<Command> {
    if j == s.len() {
        Some(Command::Step(1))
    } else {
        let k = ws_end(s, j);
        if k == j || k == s.len() || !all_digits(s, k) {
            None
        } else {
            match digits_to_usize(s, k, 0) {
                None => None,
                Some(v) => Some(Command::Step(v)),
            }
        }
    }
}

/// The command grammar: an empty line repeats the last command; "step" or
/// "s", optionally followed by blanks and a decimal count, steps; one of
/// the leave words leaves.  Anything else, including trailing text, is
/// rejected.
pub open spec fn spec_parse(s: Seq<u8>) -> Option<Command> {
    if s.len() == 0 {
        Some(Command::Repeat)
    } else if starts_step(s) {
        spec_parse_count(s, 4)
    } else if s[0] == 115 {
        spec_parse_count(s, 1)
    } else if is_exit_word(s) {
        Some(Command::Exit)
    } else {
        None
    }
}

fn ws_end_at(s: &[u8], i: usize) -> (r: usize)
    requires
        i <= s@.len(),
    ensures
        r == ws_end(s@, i as int),
        i <= r <= s@.len(),
    decreases s@.len() - i,
{
    if i < s.len() && (s[i] == 32 || s[i] == 9) {
        ws_end_at(s, i + 1)
    } else {
        i
    }
}

fn all_digits_at(s: &[u8], i: usize) -> (r: bool)
    requires
        i <= s@.len(),
    ensures
        r == all_digits(s@, i as int),
    decreases s@.len() - i,
{
    if i < s.len() {
        48 <= s[i] && s[i] <= 57 && all_digits_at(s, i + 1)
    } else {
        true
    }
}

fn digits_value(s: &[u8], i: usize, acc: usize) -> (r: Option<usize>)
    requires
        i <= s@.len(),
        all_digits(s@, i as int),
    ensures
        r == digits_to_usize(s@, i as int, acc),
    decreases s@.len() - i,
{
    if i < s.len() {
        let d = (s[i] - 48) as usize;
        if acc > (usize::MAX - d) / 10 {
            proof {
                assert(acc * 10 + d > usize::MAX) by (nonlinear_arith)
                    requires
                        acc > (usize::MAX - d) / 10,
                        d <= 9,
                ;
            }
            None
        } else {
            proof {
                assert(acc * 10 + d <= usize::MAX) by (nonlinear_arith)
                    requires
                        acc <= (usize::MAX - d) / 10,
                        d <= 9,
                ;
            }
            digits_value(s, i + 1, acc * 10 + d)
        }
    } else {
        Some(acc)
    }
}

fn parse_count(s: &[u8], j: usize) -> (r: Option<Command>)
    requires
        j <= s@.len(),
    ensures
        r == spec_parse_count(s@, j as int),
{
    if j == s.len() {
        Some(Command::Step(1))
    } else {
        let k = ws_end_at(s, j);
        if k == j || k == s.len() {
            None
        } else if !all_digits_at(s, k) {
            None
        } else {
            match digits_value(s, k, 0) {
                None => None,
                Some(v) => Some(Command::Step(v)),
            }
        }
    }
}

/// Parses one debugger input line, already trimmed of its newline.
pub fn parse_command(s: &[u8]) -> (r: Option<Command>)
    ensures
        r == spec_parse(s@),
{
    if s.len() == 0 {
        Some(Command::Repeat)
    } else if s.len() >= 4 && s[0] == 115 && s[1] == 116 && s[2] == 101 && s[3] == 112 {
        parse_count(s, 4)
    } else if s[0] == 115 {
        parse_count(s, 1)
    } else if (s.len() == 4 && s[0] == 101 && s[1] == 120 && s[2] == 105 && s[3] == 116) || (s.len()
        == 4 && s[0] == 113 && s[1] == 117 && s[2] == 105 && s[3] == 116) || (s.len() == 1 && s[0]
        == 101) || (s.len() == 1 && s[0] == 113) {
        Some(Command::Exit)
    } else {
        None
    }
}

/// What a parsed line means given the previous command: a repeat stands
/// for the last command and is refused when there is none; an unparsable
/// line is refused.
pub open spec fn spec_resolve(parsed: Option<Command>, last: Option<Command>) -> Option<Command> {
    match parsed {
        None => None,
        Some(Command::Repeat) => last,
        Some(c) => Some(c),
    }
}

/// Resolves a parsed line against the previously run command.
pub fn resolve_command(parsed: Option<Command>, last: Option<Command>) -> (r: Option<Command>)
    ensures
        r == spec_resolve(parsed, last),
{
    match parsed {
        None => None,
        Some(Command::Repeat) => last,
        Some(c) => Some(c),
    }
}

} // verus!
