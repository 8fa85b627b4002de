//! The pattern classifier: one forward scan over the pattern bytes decides
//! whether the backtracking backend is needed, and a literal-prefix check
//! detects patterns that already carry a start-of-text anchor.
//!
//! Both are heuristic sniffs of the pattern text, not parsers: they run once
//! per distinct pattern, never per match call.
use vstd::prelude::*;
use vstd::string::StringSliceAdditionalSpecFns;

verus! {

/// Pattern bytes the scans look for, by ASCII code.
pub const BYTE_BACKSLASH: u8 = 92;

pub const BYTE_CARET: u8 = 94;

pub const BYTE_LPAREN: u8 = 40;

pub const BYTE_QUESTION: u8 = 63;

pub const BYTE_EQ: u8 = 61;

pub const BYTE_BANG: u8 = 33;

pub const BYTE_LT: u8 = 60;

pub const BYTE_UPPER_A: u8 = 65;

pub const BYTE_ONE: u8 = 49;

pub const BYTE_NINE: u8 = 57;

/// A byte standing for one of the backreference digits `1` to `9`.
pub open spec fn is_backref_digit(b: u8) -> bool {
    BYTE_ONE <= b && b <= BYTE_NINE
}

/// Whether the scan flags the pattern for the backtracking backend: a
/// backslash followed by a digit 1-9 (a backreference), or one of the
/// lookaround openers `(?=`, `(?!`, `(?<=`, `(?<!`. Any other escaped byte is
/// consumed without deeper interpretation.
pub open spec fn spec_needs_backtracking(p: Seq<u8>) -> bool
    decreases p.len(),
{
    if p.len() == 0 {
        false
    } else if p[0] == BYTE_BACKSLASH {
        if p.len() == 1 {
            false
        } else if is_backref_digit(p[1]) {
            true
        } else {
            spec_needs_backtracking(p.skip(2))
        }
    } else if p[0] == BYTE_LPAREN && p.len() >= 3 && p[1] == BYTE_QUESTION && (p[2] == BYTE_EQ || p[2] == BYTE_BANG) {
        true
    } else if p[0] == BYTE_LPAREN && p.len() >= 4 && p[1] == BYTE_QUESTION && p[2] == BYTE_LT && (p[3] == BYTE_EQ
        || p[3] == BYTE_BANG) {
        true
    } else {
        spec_needs_backtracking(p.skip(1))
    }
}

/// Scans the pattern once, forward, and reports whether it needs the
/// backtracking backend.
pub fn needs_backtracking(pattern: &str) -> (r: bool)
    ensures
        r == spec_needs_backtracking(pattern.spec_bytes()),
{
    let b = pattern.as_bytes();
    let n = b.len();
    let mut i: usize = 0;
    proof {
        assert(b@.skip(0) =~= b@);
    }
    loop
        invariant
            0 <= i <= n,
            n == b@.len(),
            b@ == pattern.spec_bytes(),
            spec_needs_backtracking(pattern.spec_bytes()) == spec_needs_backtracking(
                b@.skip(i as int),
            ),
        decreases n - i,
    {
        if i >= n {
            return false;
        }
        let c = b[i];
        if c == BYTE_BACKSLASH {
            if i + 1 >= n {
                return false;
            }
            if b[i + 1] >= BYTE_ONE && b[i + 1] <= BYTE_NINE {
                return true;
            }
            proof {
                assert(b@.skip(i as int).skip(2) =~= b@.skip(i as int + 2));
            }
            i = i + 2;
        } else if c == BYTE_LPAREN && n - i > 2 && b[i + 1] == BYTE_QUESTION && (b[i + 2] == BYTE_EQ || b[i + 2]
            == BYTE_BANG) {
            return true;
        } else if c == BYTE_LPAREN && n - i > 3 && b[i + 1] == BYTE_QUESTION && b[i + 2] == BYTE_LT && (b[i + 3]
            == BYTE_EQ || b[i + 3] == BYTE_BANG) {
            return true;
        } else {
            proof {
                assert(b@.skip(i as int).skip(1) =~= b@.skip(i as int + 1));
            }
            i = i + 1;
        }
    }
}

/// Whether the pattern literally begins with a start-of-text anchor: a `^`,
/// or its two-character spelling as a backslash followed by `A`.
pub open spec fn spec_starts_anchored(p: Seq<u8>) -> bool {
    ||| (p.len() >= 1 && p[0] == BYTE_CARET)
    ||| (p.len() >= 2 && p[0] == BYTE_BACKSLASH && p[1] == BYTE_UPPER_A)
}

/// Reports whether the pattern literally begins with a start-of-text anchor,
/// so that the search automaton can double as the match automaton.
pub fn has_start_anchor(pattern: &str) -> (r: bool)
    ensures
        r == spec_starts_anchored(pattern.spec_bytes()),
{
    let b = pattern.as_bytes();
    let n = b.len();
    if n >= 1 && b[0] == BYTE_CARET {
        true
    } else if n >= 2 && b[0] == BYTE_BACKSLASH && b[1] == BYTE_UPPER_A {
        true
    } else {
        false
    }
}

} // verus!
