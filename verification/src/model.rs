//! Plain-value models of what expansion consumes: the shape of the argument
//! expression as far as the rules read it, and the outcome of the one
//! environment lookup. The front end that owns the real syntax tree and the
//! process environment builds these values and hands them in.

use vstd::prelude::*;
use crate::tag::TypeTag;

verus! {

/// The cast's left operand, as far as the rules read it: either a string
/// literal carrying the variable name, or something else.
#[derive(Clone, Debug, PartialEq, Eq)]
pub enum Operand {
    /// A string literal; the decoded text is the environment variable name.
    StrLit(String),
    /// Any other expression, a non-string literal among them.
    NotStrLit,
}

/// The cast's right operand: either a bare type path of a single
/// identifier, whose text is kept, or some other type form.
#[derive(Clone, Debug, PartialEq, Eq)]
pub enum TypePath {
    /// A plain, unqualified identifier.
    Ident(String),
    /// A qualified path, or a type that is no path at all.
    NotIdent,
}

/// The argument expression of one expansion, reduced to what the rules
/// inspect: either a cast `operand as ty`, or any other expression shape.
#[derive(Clone, Debug, PartialEq, Eq)]
pub enum CastExpr {
    /// A cast expression with its two operands.
    Cast { operand: Operand, ty: TypePath },
    /// Any expression that is not a cast.
    NotCast,
}

/// What one validated expansion asks of the environment: the variable to
/// look up and the type its value must take.
#[derive(Clone, Debug, PartialEq, Eq)]
pub struct Request {
    /// The environment variable's name.
    pub var_name: String,
    /// The numeric type the cast names.
    pub tag: TypeTag,
}

/// The outcome of reading the named variable from the build environment:
/// its text, or the reason the read failed (the variable absent, or its
/// value not valid text), as the host describes it.
#[derive(Clone, Debug, PartialEq, Eq)]
pub enum EnvLookup {
    /// The variable is set to this text.
    Present(String),
    /// The read failed; the text describes why.
    Failed(String),
}

} // verus!
