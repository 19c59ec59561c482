// Floating-point texts: what the grammar accepts and refuses, and the
// token a floating-point expansion emits.

use env_cast::diag::Diagnostic;
use env_cast::expand::synthesize;
use env_cast::literal::Literal;
use env_cast::model::EnvLookup;
use env_cast::tag::TypeTag;

fn float_text(tag: TypeTag, text: &str) -> String {
    match synthesize(tag, &EnvLookup::Present(text.to_string())) {
        Ok(Literal::Float { tag: t, text }) => {
            assert_eq!(t, tag);
            text
        }
        other => panic!("expected a float literal, got {:?}", other),
    }
}

fn rejected(tag: TypeTag, text: &str) {
    let r = synthesize(tag, &EnvLookup::Present(text.to_string()));
    assert_eq!(r, Err(Diagnostic::UnparseableValue));
}

#[test]
fn ratio_value_round_trips_through_f32() {
    let text = float_text(TypeTag::F32, "3.14");
    assert_eq!(text, "3.14");
    let v: f32 = text.parse().unwrap();
    assert!((v - 3.14f32).abs() < 1e-6);
}

#[test]
fn float_token_text_carries_the_suffix() {
    let lit = synthesize(TypeTag::F32, &EnvLookup::Present("3.14".to_string())).unwrap();
    assert_eq!(lit.token_text(), "3.14f32");
    let lit = synthesize(TypeTag::F64, &EnvLookup::Present("-2.5E-3".to_string())).unwrap();
    assert_eq!(lit.token_text(), "-2.5E-3f64");
}

#[test]
fn accepted_float_shapes() {
    float_text(TypeTag::F32, "0");
    float_text(TypeTag::F32, "42");
    float_text(TypeTag::F32, "-7");
    float_text(TypeTag::F64, "+1.5");
    float_text(TypeTag::F64, "1.");
    float_text(TypeTag::F64, ".5");
    float_text(TypeTag::F64, "-.5");
    float_text(TypeTag::F64, "1e5");
    float_text(TypeTag::F64, "1.25e-3");
    float_text(TypeTag::F64, "1.E2");
    float_text(TypeTag::F64, "9e+01");
}

#[test]
fn rejected_float_shapes() {
    rejected(TypeTag::F32, "");
    rejected(TypeTag::F32, ".");
    rejected(TypeTag::F32, "+");
    rejected(TypeTag::F32, "1.2.3");
    rejected(TypeTag::F32, "e5");
    rejected(TypeTag::F32, "1e");
    rejected(TypeTag::F32, "1e+");
    rejected(TypeTag::F32, "1e1.5");
    rejected(TypeTag::F32, " 1.0");
    rejected(TypeTag::F32, "1,5");
    rejected(TypeTag::F64, "notanumber");
}

#[test]
fn float_parse_does_not_change_the_text() {
    // The emitted token carries the variable's own digits; nothing is
    // rounded or reformatted on the way through.
    let text = float_text(TypeTag::F64, "0.30000000000000004");
    assert_eq!(text, "0.30000000000000004");
}
