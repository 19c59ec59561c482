//! The output of a successful expansion: a typed numeric literal, and its
//! rendering as the text of a suffixed literal token.

use vstd::prelude::*;
use crate::tag::TypeTag;
use crate::numeral::{canonical_int_text, dec_rec, dec_str};
use crate::float_text::float_text_valid;

verus! {

/// A numeric literal of one of the ten supported types. An integer carries
/// its value; a floating-point literal carries the validated text of the
/// variable, since the value it denotes is no concern of the rules here.
#[derive(Clone, Debug, PartialEq, Eq)]
pub enum Literal {
    /// An integer literal; the value lies in `tag`'s range.
    Int { tag: TypeTag, value: i128 },
    /// A floating-point literal; the text is of the float grammar.
    Float { tag: TypeTag, text: String },
}

impl Literal {
    /// Well-formedness: the tag matches the variant and the payload lies in
    /// the tag's grammar or range.
    pub open spec fn wf(self) -> bool {
        match self {
            Literal::Int { tag, value } => !tag.is_float() && tag.in_range(value as int),
            Literal::Float { tag, text } => tag.is_float() && float_text_valid(text@),
        }
    }

    /// The characters of the literal token this value emits: the value's
    /// canonical decimal text (for a float, the variable's own text), then
    /// the type's suffix.
    pub open spec fn spec_token_text(self) -> Seq<char> {
        match self {
            Literal::Int { tag, value } => canonical_int_text(value as int) + tag.spec_suffix(),
            Literal::Float { tag, text } => text@ + tag.spec_suffix(),
        }
    }

    /// Renders the literal token's text.
    pub fn token_text(&self) -> (r: String)
        requires
            self.wf(),
        ensures
            r@ == self.spec_token_text(),
    {
        match self {
            Literal::Int { tag, value } => {
                let v: i128 = *value;
                if v < 0 {
                    let mag: u64 = (-v) as u64;
                    proof {
                        assert(mag as int == -(v as int));
                        assert(canonical_int_text(v as int) == "-"@ + dec_rec(mag as int));
                    }
                    let mut r = String::from_str("-");
                    let digits = dec_str(mag);
                    r.append(digits.as_str());
                    r.append(tag.suffix());
                    r
                } else {
                    let mag: u64 = v as u64;
                    proof {
                        assert(canonical_int_text(v as int) == dec_rec(mag as int));
                    }
                    let mut r = dec_str(mag);
                    r.append(tag.suffix());
                    r
                }
            },
            Literal::Float { tag, text } => {
                let mut r = text.clone();
                r.append(tag.suffix());
                r
            },
        }
    }
}

} // verus!
