//! Build-time diagnostics: the five ways an expansion fails, the message
//! text of each, and which part of the call the message points at.

use vstd::prelude::*;

verus! {

/// The five terminal failures of an expansion, in pipeline order. Each
/// carries exactly what its message needs.
#[derive(Clone, Debug, PartialEq, Eq)]
pub enum Diagnostic {
    /// The argument is not a cast expression.
    MalformedExpression,
    /// The cast's left operand is not a string literal.
    NonLiteralOperand,
    /// The cast's right operand is not one of the ten recognized type names.
    UnsupportedType,
    /// The named variable is absent or unreadable; the text is the host's
    /// description of the failure.
    EnvironmentReadFailure(String),
    /// The variable's text does not parse as the requested type, malformed
    /// and out-of-range cases alike.
    UnparseableValue,
}

/// The part of the call a diagnostic's message points at.
#[derive(Clone, Copy, Debug, PartialEq, Eq, Structural)]
pub enum SpanTarget {
    /// The whole argument expression.
    WholeExpression,
    /// The cast's left operand.
    Operand,
    /// The cast's right operand, the type.
    TypeName,
    /// The string literal naming the variable.
    VarLiteral,
}

impl Diagnostic {
    /// The characters of this diagnostic's message.
    pub open spec fn spec_message(self) -> Seq<char> {
        match self {
            Diagnostic::MalformedExpression => "Must be of the form <var> as <type>"@,
            Diagnostic::NonLiteralOperand => "Must be a string literal"@,
            Diagnostic::UnsupportedType => "Must be one of i8, u8, i16, u16, i32, u32, i64, u64, f32, f64"@,
            Diagnostic::EnvironmentReadFailure(err) => "Failed to read environment: "@ + err@,
            Diagnostic::UnparseableValue => "Environment variable not parseable"@,
        }
    }

    /// This diagnostic's message, as text.
    pub fn message(&self) -> (r: String)
        ensures
            r@ == self.spec_message(),
    {
        match self {
            Diagnostic::MalformedExpression => String::from_str(
                "Must be of the form <var> as <type>",
            ),
            Diagnostic::NonLiteralOperand => String::from_str("Must be a string literal"),
            Diagnostic::UnsupportedType => String::from_str(
                "Must be one of i8, u8, i16, u16, i32, u32, i64, u64, f32, f64",
            ),
            Diagnostic::EnvironmentReadFailure(err) => {
                let mut r = String::from_str("Failed to read environment: ");
                r.append(err.as_str());
                r
            },
            Diagnostic::UnparseableValue => String::from_str("Environment variable not parseable"),
        }
    }

    /// Which part of the call this diagnostic points at: each failure is
    /// reported at the tightest source range that caused it.
    pub open spec fn spec_span_target(self) -> SpanTarget {
        match self {
            Diagnostic::MalformedExpression => SpanTarget::WholeExpression,
            Diagnostic::NonLiteralOperand => SpanTarget::Operand,
            Diagnostic::UnsupportedType => SpanTarget::TypeName,
            Diagnostic::EnvironmentReadFailure(_) => SpanTarget::VarLiteral,
            Diagnostic::UnparseableValue => SpanTarget::VarLiteral,
        }
    }

    /// The span this diagnostic points at, as runnable code.
    pub fn span_target(&self) -> (r: SpanTarget)
        ensures
            r == self.spec_span_target(),
    {
        match self {
            Diagnostic::MalformedExpression => SpanTarget::WholeExpression,
            Diagnostic::NonLiteralOperand => SpanTarget::Operand,
            Diagnostic::UnsupportedType => SpanTarget::TypeName,
            Diagnostic::EnvironmentReadFailure(_) => SpanTarget::VarLiteral,
            Diagnostic::UnparseableValue => SpanTarget::VarLiteral,
        }
    }
}

} // verus!
