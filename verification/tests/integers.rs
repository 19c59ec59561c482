// Integer parsing: round trips at the edges of every integer type, one-unit
// range overruns, sign handling, and malformed texts.

use env_cast::diag::Diagnostic;
use env_cast::expand::synthesize;
use env_cast::literal::Literal;
use env_cast::model::EnvLookup;
use env_cast::numeral::{dec_str, parse_int};
use env_cast::tag::TypeTag;

fn ok_int(tag: TypeTag, text: &str) -> i128 {
    match synthesize(tag, &EnvLookup::Present(text.to_string())) {
        Ok(Literal::Int { tag: t, value }) => {
            assert_eq!(t, tag);
            value
        }
        other => panic!("expected an integer literal, got {:?}", other),
    }
}

fn unparseable(tag: TypeTag, text: &str) {
    let r = synthesize(tag, &EnvLookup::Present(text.to_string()));
    assert_eq!(r, Err(Diagnostic::UnparseableValue));
}

#[test]
fn round_trip_at_type_bounds() {
    assert_eq!(ok_int(TypeTag::I8, "-128"), -128);
    assert_eq!(ok_int(TypeTag::I8, "127"), 127);
    assert_eq!(ok_int(TypeTag::U8, "0"), 0);
    assert_eq!(ok_int(TypeTag::U8, "255"), 255);
    assert_eq!(ok_int(TypeTag::I16, "-32768"), -32768);
    assert_eq!(ok_int(TypeTag::I16, "32767"), 32767);
    assert_eq!(ok_int(TypeTag::U16, "65535"), 65535);
    assert_eq!(ok_int(TypeTag::I32, "-2147483648"), -2147483648);
    assert_eq!(ok_int(TypeTag::I32, "2147483647"), 2147483647);
    assert_eq!(ok_int(TypeTag::U32, "4294967295"), 4294967295);
    assert_eq!(ok_int(TypeTag::I64, "-9223372036854775808"), -9223372036854775808);
    assert_eq!(ok_int(TypeTag::I64, "9223372036854775807"), 9223372036854775807);
    assert_eq!(ok_int(TypeTag::U64, "18446744073709551615"), 18446744073709551615);
}

#[test]
fn one_unit_past_the_range_is_rejected() {
    unparseable(TypeTag::U8, "256");
    unparseable(TypeTag::I8, "128");
    unparseable(TypeTag::I8, "-129");
    unparseable(TypeTag::U16, "65536");
    unparseable(TypeTag::I16, "32768");
    unparseable(TypeTag::I16, "-32769");
    unparseable(TypeTag::U32, "4294967296");
    unparseable(TypeTag::I32, "2147483648");
    unparseable(TypeTag::I32, "-2147483649");
    unparseable(TypeTag::U64, "18446744073709551616");
    unparseable(TypeTag::I64, "9223372036854775808");
    unparseable(TypeTag::I64, "-9223372036854775809");
}

#[test]
fn far_out_of_range_is_rejected() {
    unparseable(TypeTag::U8, "99999999999999999999999999999999");
    unparseable(TypeTag::I64, "-99999999999999999999999999999999");
}

#[test]
fn plus_sign_is_accepted_for_all_integer_types() {
    assert_eq!(ok_int(TypeTag::I32, "+42"), 42);
    assert_eq!(ok_int(TypeTag::U32, "+42"), 42);
}

#[test]
fn minus_is_rejected_for_unsigned_types() {
    unparseable(TypeTag::U8, "-1");
    unparseable(TypeTag::U64, "-0");
}

#[test]
fn negative_zero_is_zero_for_signed_types() {
    assert_eq!(ok_int(TypeTag::I8, "-0"), 0);
}

#[test]
fn leading_zeros_are_accepted() {
    assert_eq!(ok_int(TypeTag::U8, "007"), 7);
}

#[test]
fn malformed_integer_texts_are_rejected() {
    unparseable(TypeTag::I32, "");
    unparseable(TypeTag::I32, "+");
    unparseable(TypeTag::I32, "-");
    unparseable(TypeTag::I32, " 42");
    unparseable(TypeTag::I32, "42 ");
    unparseable(TypeTag::I32, "4 2");
    unparseable(TypeTag::I32, "0x1f");
    unparseable(TypeTag::I32, "1_000");
    unparseable(TypeTag::I32, "3.14");
    unparseable(TypeTag::I32, "--5");
    unparseable(TypeTag::I32, "+-5");
}

#[test]
fn integer_token_text_carries_the_suffix() {
    let lit = synthesize(TypeTag::U16, &EnvLookup::Present("42".to_string())).unwrap();
    assert_eq!(lit.token_text(), "42u16");
    let lit = synthesize(TypeTag::I8, &EnvLookup::Present("-128".to_string())).unwrap();
    assert_eq!(lit.token_text(), "-128i8");
    let lit = synthesize(TypeTag::U64, &EnvLookup::Present("18446744073709551615".to_string()))
        .unwrap();
    assert_eq!(lit.token_text(), "18446744073709551615u64");
    let lit = synthesize(TypeTag::I64, &EnvLookup::Present("-9223372036854775808".to_string()))
        .unwrap();
    assert_eq!(lit.token_text(), "-9223372036854775808i64");
}

#[test]
fn parser_reports_sign_and_magnitude() {
    assert_eq!(parse_int("42", false), Some((false, 42)));
    assert_eq!(parse_int("+42", false), Some((false, 42)));
    assert_eq!(parse_int("-42", true), Some((true, 42)));
    assert_eq!(parse_int("-42", false), None);
    assert_eq!(parse_int("18446744073709551615", false), Some((false, u64::MAX)));
    assert_eq!(parse_int("18446744073709551616", false), None);
}

#[test]
fn decimal_rendering_is_plain_digits() {
    assert_eq!(dec_str(0), "0");
    assert_eq!(dec_str(10), "10");
    assert_eq!(dec_str(9876543210), "9876543210");
}

#[test]
fn token_text_is_canonical_not_the_input() {
    let lit = synthesize(TypeTag::U8, &EnvLookup::Present("+007".to_string())).unwrap();
    assert_eq!(lit.token_text(), "7u8");
}
