//! The expansion pipeline. Stages, each terminal on failure: the argument
//! must be a cast expression; its left operand a string literal; its right
//! operand one of the ten recognized type names; the named variable must be
//! readable; and its text must parse as the requested type. Success yields
//! the literal; every failure yields the diagnostic of the stage that
//! refused, pointed at the part of the call that caused it.

use vstd::prelude::*;
use crate::tag::TypeTag;
use crate::model::{CastExpr, EnvLookup, Operand, Request, TypePath};
use crate::diag::Diagnostic;
use crate::literal::Literal;
use crate::numeral::{canonical_int_text, int_text_valid, int_text_value, lemma_canonical_int_text,
    parse_int};
use crate::float_text::{float_text_valid, is_float_text};

verus! {

/// Equality of two texts, decided character by character.
fn str_eq(a: &str, b: &str) -> (r: bool)
    ensures
        r == (a@ == b@),
{
    let a_len = a.unicode_len();
    let b_len = b.unicode_len();
    if a_len != b_len {
        return false;
    }
    let mut i: usize = 0;
    while i < a_len
        invariant
            a@.len() == a_len,
            b@.len() == a_len,
            0 <= i <= a_len,
            forall|j: int| 0 <= j < i ==> a@[j] == b@[j],
        decreases a_len - i,
    {
        if a.get_char(i) != b.get_char(i) {
            return false;
        }
        i += 1;
    }
    proof {
        assert(a@ =~= b@);
    }
    true
}

/// Which type tag a bare identifier names, if any. The match is exact and
/// case-sensitive; no alias or qualification is recognized.
pub open spec fn spec_tag_of_ident(id: Seq<char>) -> Option<TypeTag> {
    if id == "i8"@ {
        Some(TypeTag::I8)
    } else if id == "u8"@ {
        Some(TypeTag::U8)
    } else if id == "i16"@ {
        Some(TypeTag::I16)
    } else if id == "u16"@ {
        Some(TypeTag::U16)
    } else if id == "i32"@ {
        Some(TypeTag::I32)
    } else if id == "u32"@ {
        Some(TypeTag::U32)
    } else if id == "i64"@ {
        Some(TypeTag::I64)
    } else if id == "u64"@ {
        Some(TypeTag::U64)
    } else if id == "f32"@ {
        Some(TypeTag::F32)
    } else if id == "f64"@ {
        Some(TypeTag::F64)
    } else {
        None
    }
}

/// Resolves a type identifier to its tag.
pub fn tag_of_ident(id: &str) -> (r: Option<TypeTag>)
    ensures
        r == spec_tag_of_ident(id@),
{
    if str_eq(id, "i8") {
        Some(TypeTag::I8)
    } else if str_eq(id, "u8") {
        Some(TypeTag::U8)
    } else if str_eq(id, "i16") {
        Some(TypeTag::I16)
    } else if str_eq(id, "u16") {
        Some(TypeTag::U16)
    } else if str_eq(id, "i32") {
        Some(TypeTag::I32)
    } else if str_eq(id, "u32") {
        Some(TypeTag::U32)
    } else if str_eq(id, "i64") {
        Some(TypeTag::I64)
    } else if str_eq(id, "u64") {
        Some(TypeTag::U64)
    } else if str_eq(id, "f32") {
        Some(TypeTag::F32)
    } else if str_eq(id, "f64") {
        Some(TypeTag::F64)
    } else {
        None
    }
}

/// The validation stages that need no environment: the argument must be a
/// cast, its operand a string literal, its type one of the ten names.
pub open spec fn spec_resolve(expr: CastExpr) -> Result<Request, Diagnostic> {
    match expr {
        CastExpr::NotCast => Err(Diagnostic::MalformedExpression),
        CastExpr::Cast { operand, ty } => match operand {
            Operand::NotStrLit => Err(Diagnostic::NonLiteralOperand),
            Operand::StrLit(name) => match ty {
                TypePath::NotIdent => Err(Diagnostic::UnsupportedType),
                TypePath::Ident(id) => match spec_tag_of_ident(id@) {
                    Some(tag) => Ok(Request { var_name: name, tag }),
                    None => Err(Diagnostic::UnsupportedType),
                },
            },
        },
    }
}

/// Runs the validation stages that need no environment, in order, stopping
/// at the first that refuses.
pub fn resolve(expr: &CastExpr) -> (r: Result<Request, Diagnostic>)
    ensures
        r == spec_resolve(*expr),
{
    match expr {
        CastExpr::NotCast => Err(Diagnostic::MalformedExpression),
        CastExpr::Cast { operand, ty } => match operand {
            Operand::NotStrLit => Err(Diagnostic::NonLiteralOperand),
            Operand::StrLit(name) => match ty {
                TypePath::NotIdent => Err(Diagnostic::UnsupportedType),
                TypePath::Ident(id) => match tag_of_ident(id.as_str()) {
                    Some(tag) => Ok(Request { var_name: name.clone(), tag }),
                    None => Err(Diagnostic::UnsupportedType),
                },
            },
        },
    }
}

/// The magnitude bound of `tag` for the given sign: how far from zero a
/// value of the tag may lie.
fn max_magnitude(tag: TypeTag, neg: bool) -> (r: u64)
    ensures
        neg ==> r as int == -tag.spec_min(),
        !neg ==> r as int == tag.spec_max(),
{
    if neg {
        match tag {
            TypeTag::I8 => 128,
            TypeTag::I16 => 32768,
            TypeTag::I32 => 2147483648,
            TypeTag::I64 => 9223372036854775808,
            _ => 0,
        }
    } else {
        match tag {
            TypeTag::I8 => 127,
            TypeTag::I16 => 32767,
            TypeTag::I32 => 2147483647,
            TypeTag::I64 => 9223372036854775807,
            TypeTag::U8 => 255,
            TypeTag::U16 => 65535,
            TypeTag::U32 => 4294967295,
            TypeTag::U64 => 18446744073709551615,
            _ => 0,
        }
    }
}

/// What the environment stages yield: the diagnostic of a failed read; for
/// a readable variable, the typed literal exactly when the text is of the
/// tag's grammar and, for an integer, in the tag's range, and the
/// unparseable-value diagnostic otherwise.
pub open spec fn spec_synthesize(tag: TypeTag, lookup: EnvLookup) -> Result<Literal, Diagnostic> {
    match lookup {
        EnvLookup::Failed(err) => Err(Diagnostic::EnvironmentReadFailure(err)),
        EnvLookup::Present(val) => if tag.is_float() {
            if float_text_valid(val@) {
                Ok(Literal::Float { tag, text: val })
            } else {
                Err(Diagnostic::UnparseableValue)
            }
        } else {
            if int_text_valid(val@, tag.is_signed()) && tag.in_range(int_text_value(val@)) {
                Ok(Literal::Int { tag, value: int_text_value(val@) as i128 })
            } else {
                Err(Diagnostic::UnparseableValue)
            }
        },
    }
}

/// Runs the environment stages: turns the lookup's outcome into the typed
/// literal or the diagnostic that `spec_synthesize` names.
pub fn synthesize(tag: TypeTag, lookup: &EnvLookup) -> (r: Result<Literal, Diagnostic>)
    ensures
        r == spec_synthesize(tag, *lookup),
        r is Ok ==> r->Ok_0.wf(),
{
    match lookup {
        EnvLookup::Failed(err) => Err(Diagnostic::EnvironmentReadFailure(err.clone())),
        EnvLookup::Present(val) => {
            let is_float = match tag {
                TypeTag::F32 | TypeTag::F64 => true,
                _ => false,
            };
            if is_float {
                if is_float_text(val.as_str()) {
                    Ok(Literal::Float { tag, text: val.clone() })
                } else {
                    Err(Diagnostic::UnparseableValue)
                }
            } else {
                let signed = match tag {
                    TypeTag::I8 | TypeTag::I16 | TypeTag::I32 | TypeTag::I64 => true,
                    _ => false,
                };
                proof {
                    assert(tag.spec_max() <= u64::MAX as int);
                    assert(-(u64::MAX as int) <= tag.spec_min() <= 0);
                }
                match parse_int(val.as_str(), signed) {
                    None => Err(Diagnostic::UnparseableValue),
                    Some((neg, mag)) => {
                        let limit = max_magnitude(tag, neg);
                        if mag <= limit {
                            let value: i128 = if neg {
                                -(mag as i128)
                            } else {
                                mag as i128
                            };
                            Ok(Literal::Int { tag, value })
                        } else {
                            Err(Diagnostic::UnparseableValue)
                        }
                    },
                }
            }
        },
    }
}

/// One whole expansion, given the shape of the call and the environment's
/// answer for the variable it names (ignored when validation already
/// refuses the call).
pub open spec fn spec_expand(expr: CastExpr, lookup: EnvLookup) -> Result<Literal, Diagnostic> {
    match spec_resolve(expr) {
        Ok(req) => spec_synthesize(req.tag, lookup),
        Err(d) => Err(d),
    }
}

/// Runs one whole expansion from plain values: the modelled call shape and
/// the outcome of the environment read.
pub fn expand(expr: &CastExpr, lookup: &EnvLookup) -> (r: Result<Literal, Diagnostic>)
    ensures
        r == spec_expand(*expr, *lookup),
        r is Ok ==> r->Ok_0.wf(),
{
    match resolve(expr) {
        Ok(req) => synthesize(req.tag, lookup),
        Err(d) => Err(d),
    }
}

/// Expansion keeps no hidden state: its outcome is a function of the call's
/// shape and the environment's answer alone, so two expansions of the same
/// call under the same environment state yield identical results.
pub proof fn lemma_expansion_deterministic(
    e1: CastExpr,
    l1: EnvLookup,
    e2: CastExpr,
    l2: EnvLookup,
)
    requires
        e1 == e2,
        l1 == l2,
    ensures
        spec_expand(e1, l1) == spec_expand(e2, l2),
{
}

/// Round trip: for every integer tag and every value in its range, a
/// variable set to the value's canonical decimal text expands to exactly
/// the integer literal of that value.
pub proof fn lemma_round_trip(tag: TypeTag, v: int)
    requires
        !tag.is_float(),
        tag.in_range(v),
    ensures
        forall|val: String|
            val@ == canonical_int_text(v) ==> #[trigger] spec_synthesize(
                tag,
                EnvLookup::Present(val),
            ) == Ok::<Literal, Diagnostic>(Literal::Int { tag, value: v as i128 }),
{
    if v < 0 {
        assert(tag.is_signed());
    }
    lemma_canonical_int_text(v, tag.is_signed());
    assert forall|val: String| val@ == canonical_int_text(v) implies #[trigger] spec_synthesize(
        tag,
        EnvLookup::Present(val),
    ) == Ok::<Literal, Diagnostic>(Literal::Int { tag, value: v as i128 }) by {
        assert(int_text_valid(val@, tag.is_signed()));
        assert(int_text_value(val@) == v);
    }
}

} // verus!
