//! Whether an input line is complete, or still waits for closing brackets.
use vstd::prelude::*;
use vstd::string::*;

verus! {

/// What the validator says of a line.
#[derive(Debug, Clone, Copy, PartialEq, Eq, Structural)]
pub enum LineStatus {
    Complete,
    Incomplete,
}

/// The bracket that was opened first (`{` or `(`), if any, and how many of
/// that kind are still open after the characters. Only that kind counts; a
/// closing bracket with none open is ignored.
pub open spec fn bracket_scan(s: Seq<char>) -> (Option<char>, nat)
    decreases s.len(),
{
    if s.len() == 0 {
        (None, 0)
    } else {
        let (kind, depth) = bracket_scan(s.drop_last());
        let c = s.last();
        match kind {
            None => if c == '{' || c == '(' {
                (Some(c), depth + 1)
            } else {
                (None, depth)
            },
            Some(o) => if (o == '{' && c == '}') || (o == '(' && c == ')') {
                (Some(o), if depth > 0 { (depth - 1) as nat } else { 0 })
            } else if o == c {
                (Some(o), depth + 1)
            } else {
                (Some(o), depth)
            },
        }
    }
}

/// Whether the line leaves a bracket of the first kind it opened unclosed.
pub fn incomplete_brackets(line: &str) -> (r: bool)
    ensures
        r == (bracket_scan(line@).1 > 0),
{
    let mut kind: Option<char> = None;
    let mut depth: usize = 0;
    let ghost chars = line@;
    let n = line.unicode_len();
    for c in it: line.chars()
        invariant
            it.seq() == chars,
            (kind, depth as nat) == bracket_scan(chars.take(it.index() as int)),
            depth <= it.index(),
            chars.len() == n,
    {
        assert(chars.take(it.index() + 1).drop_last() =~= chars.take(it.index() as int));
        match kind {
            None => {
                if c == '{' || c == '(' {
                    depth += 1;
                    kind = Some(c);
                }
            },
            Some(o) => {
                if (o == '{' && c == '}') || (o == '(' && c == ')') {
                    if depth > 0 {
                        depth -= 1;
                    }
                } else if o == c {
                    depth += 1;
                }
            },
        }
    }
    assert(chars.take(chars.len() as int) =~= chars);
    depth > 0
}

/// Checks input lines for unbalanced brackets, so that a line editor can ask
/// for more input.
pub struct ReplValidator;

impl ReplValidator {
    pub fn validate(&self, line: &str) -> (r: LineStatus)
        ensures
            r == (if bracket_scan(line@).1 > 0 { LineStatus::Incomplete } else { LineStatus::Complete }),
    {
        if incomplete_brackets(line) {
            LineStatus::Incomplete
        } else {
            LineStatus::Complete
        }
    }
}

} // verus!
