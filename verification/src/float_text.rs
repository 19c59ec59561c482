//! The textual grammar of floating-point values: an optional sign, digits
//! with an optional fractional part, and an optional exponent. A value of a
//! floating-point type is kept as validated text, so the grammar is the whole
//! decision; no floating-point arithmetic is involved.

use vstd::prelude::*;
use crate::numeral::is_dec_digit;

verus! {

/// One state of the scan over a floating-point text. The grammar is
///
/// ```text
/// sign? ( digits | digits '.' digits? | '.' digits ) ( ('e'|'E') sign? digits )?
/// ```
///
/// read left to right, one state per position in that shape.
#[derive(Clone, Copy, Debug, PartialEq, Eq, Structural)]
pub enum FloatScan {
    /// Nothing read yet.
    Start,
    /// A leading sign was read.
    AfterSign,
    /// Inside the digits before any dot or exponent; a complete text.
    IntDigits,
    /// A dot was read with no digit before it; digits must follow.
    LeadDot,
    /// Past the dot, with at least one digit somewhere; a complete text.
    FracDigits,
    /// An exponent mark was read; a sign or digits must follow.
    ExpMark,
    /// The exponent's sign was read; digits must follow.
    ExpSigned,
    /// Inside the exponent's digits; a complete text.
    ExpDigits,
    /// The text left the grammar.
    Dead,
}

/// Where one more character takes the scan.
pub open spec fn float_step(st: FloatScan, c: char) -> FloatScan {
    match st {
        FloatScan::Start => if is_dec_digit(c) {
            FloatScan::IntDigits
        } else if c == '+' || c == '-' {
            FloatScan::AfterSign
        } else if c == '.' {
            FloatScan::LeadDot
        } else {
            FloatScan::Dead
        },
        FloatScan::AfterSign => if is_dec_digit(c) {
            FloatScan::IntDigits
        } else if c == '.' {
            FloatScan::LeadDot
        } else {
            FloatScan::Dead
        },
        FloatScan::IntDigits => if is_dec_digit(c) {
            FloatScan::IntDigits
        } else if c == '.' {
            FloatScan::FracDigits
        } else if c == 'e' || c == 'E' {
            FloatScan::ExpMark
        } else {
            FloatScan::Dead
        },
        FloatScan::LeadDot => if is_dec_digit(c) {
            FloatScan::FracDigits
        } else {
            FloatScan::Dead
        },
        FloatScan::FracDigits => if is_dec_digit(c) {
            FloatScan::FracDigits
        } else if c == 'e' || c == 'E' {
            FloatScan::ExpMark
        } else {
            FloatScan::Dead
        },
        FloatScan::ExpMark => if is_dec_digit(c) {
            FloatScan::ExpDigits
        } else if c == '+' || c == '-' {
            FloatScan::ExpSigned
        } else {
            FloatScan::Dead
        },
        FloatScan::ExpSigned => if is_dec_digit(c) {
            FloatScan::ExpDigits
        } else {
            FloatScan::Dead
        },
        FloatScan::ExpDigits => if is_dec_digit(c) {
            FloatScan::ExpDigits
        } else {
            FloatScan::Dead
        },
        FloatScan::Dead => FloatScan::Dead,
    }
}

/// The states in which the text read so far is a complete float text.
pub open spec fn float_complete(st: FloatScan) -> bool {
    match st {
        FloatScan::IntDigits | FloatScan::FracDigits | FloatScan::ExpDigits => true,
        _ => false,
    }
}

/// The state after scanning all of `s` from `st`.
pub open spec fn float_run(st: FloatScan, s: Seq<char>) -> FloatScan
    decreases s.len(),
{
    if s.len() == 0 {
        st
    } else {
        float_run(float_step(st, s[0]), s.subrange(1, s.len() as int))
    }
}

/// The float grammar as a predicate on whole texts.
pub open spec fn float_text_valid(s: Seq<char>) -> bool {
    float_complete(float_run(FloatScan::Start, s))
}

/// One step of the scan, as runnable code.
fn float_step_exec(st: FloatScan, c: char) -> (r: FloatScan)
    ensures
        r == float_step(st, c),
{
    let cu: u32 = c as u32;
    let digit: bool = 48 <= cu && cu <= 57;
    match st {
        FloatScan::Start => if digit {
            FloatScan::IntDigits
        } else if c == '+' || c == '-' {
            FloatScan::AfterSign
        } else if c == '.' {
            FloatScan::LeadDot
        } else {
            FloatScan::Dead
        },
        FloatScan::AfterSign => if digit {
            FloatScan::IntDigits
        } else if c == '.' {
            FloatScan::LeadDot
        } else {
            FloatScan::Dead
        },
        FloatScan::IntDigits => if digit {
            FloatScan::IntDigits
        } else if c == '.' {
            FloatScan::FracDigits
        } else if c == 'e' || c == 'E' {
            FloatScan::ExpMark
        } else {
            FloatScan::Dead
        },
        FloatScan::LeadDot => if digit {
            FloatScan::FracDigits
        } else {
            FloatScan::Dead
        },
        FloatScan::FracDigits => if digit {
            FloatScan::FracDigits
        } else if c == 'e' || c == 'E' {
            FloatScan::ExpMark
        } else {
            FloatScan::Dead
        },
        FloatScan::ExpMark => if digit {
            FloatScan::ExpDigits
        } else if c == '+' || c == '-' {
            FloatScan::ExpSigned
        } else {
            FloatScan::Dead
        },
        FloatScan::ExpSigned => if digit {
            FloatScan::ExpDigits
        } else {
            FloatScan::Dead
        },
        FloatScan::ExpDigits => if digit {
            FloatScan::ExpDigits
        } else {
            FloatScan::Dead
        },
        FloatScan::Dead => FloatScan::Dead,
    }
}

/// Decides whether `s` is of the float grammar.
pub fn is_float_text(s: &str) -> (r: bool)
    ensures
        r == float_text_valid(s@),
{
    let len = s.unicode_len();
    let mut st = FloatScan::Start;
    let mut i: usize = 0;
    proof {
        assert(s@.subrange(0, len as int) =~= s@);
    }
    while i < len
        invariant
            s@.len() == len,
            0 <= i <= len,
            float_run(FloatScan::Start, s@) == float_run(st, s@.subrange(i as int, len as int)),
        decreases len - i,
    {
        let c = s.get_char(i);
        proof {
            let rest = s@.subrange(i as int, len as int);
            assert(rest[0] == s@[i as int]);
            assert(rest.subrange(1, rest.len() as int) =~= s@.subrange(i + 1, len as int));
        }
        st = float_step_exec(st, c);
        i += 1;
    }
    proof {
        assert(s@.subrange(len as int, len as int) =~= Seq::<char>::empty());
    }
    match st {
        FloatScan::IntDigits | FloatScan::FracDigits | FloatScan::ExpDigits => true,
        _ => false,
    }
}

} // verus!
