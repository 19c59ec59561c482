// Whole expansions: the environment stages, end-to-end scenarios, and the
// absence of hidden state between expansions.

use env_cast::diag::{Diagnostic, SpanTarget};
use env_cast::expand::expand;
use env_cast::literal::Literal;
use env_cast::model::{CastExpr, EnvLookup, Operand, TypePath};
use env_cast::tag::TypeTag;

fn cast(name: &str, ty: &str) -> CastExpr {
    CastExpr::Cast {
        operand: Operand::StrLit(name.to_string()),
        ty: TypePath::Ident(ty.to_string()),
    }
}

#[test]
fn missing_variable_reports_the_read_failure() {
    let lookup = EnvLookup::Failed("environment variable not found".to_string());
    let r = expand(&cast("VAR", "i32"), &lookup);
    let d = r.unwrap_err();
    assert_eq!(
        d,
        Diagnostic::EnvironmentReadFailure("environment variable not found".to_string())
    );
    assert_eq!(d.message(), "Failed to read environment: environment variable not found");
    assert_eq!(d.span_target(), SpanTarget::VarLiteral);
}

#[test]
fn count_as_u16_expands_to_a_usable_literal() {
    let lookup = EnvLookup::Present("42".to_string());
    let lit = expand(&cast("COUNT", "u16"), &lookup).unwrap();
    assert_eq!(lit, Literal::Int { tag: TypeTag::U16, value: 42 });
    assert_eq!(lit.token_text(), "42u16");
    // What the emitted token stands for takes part in arithmetic as any
    // u16 constant would.
    let emitted: u16 = 42u16;
    assert_eq!(emitted * 2 + 1, 85);
}

#[test]
fn bad_text_as_i64_fails_the_expansion() {
    let lookup = EnvLookup::Present("notanumber".to_string());
    let r = expand(&cast("BAD", "i64"), &lookup);
    assert_eq!(r, Err(Diagnostic::UnparseableValue));
    assert_eq!(r.unwrap_err().message(), "Environment variable not parseable");
}

#[test]
fn same_call_and_environment_expand_identically() {
    let call = cast("RATIO", "f32");
    let lookup = EnvLookup::Present("3.14".to_string());
    let first = expand(&call, &lookup);
    let second = expand(&call, &lookup);
    assert_eq!(first, second);
    let third = expand(&cast("RATIO", "f32"), &EnvLookup::Present("3.14".to_string()));
    assert_eq!(first, third);
}

#[test]
fn empty_value_is_unparseable_not_a_read_failure() {
    let lookup = EnvLookup::Present("".to_string());
    assert_eq!(expand(&cast("VAR", "u8"), &lookup), Err(Diagnostic::UnparseableValue));
}
