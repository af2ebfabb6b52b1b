use std::str::FromStr;

use hems_core::commodity::{
    complex_literal, decode_commodities, decode_commodity, number_text, signed_factor, Commodity,
    Direction, Sign,
};
use hems_core::wire::{DecodeError, Field, Number, Wire};
use num_complex::Complex;

#[test]
fn complex_literal_strips_prefix_and_parentheses() {
    assert_eq!(complex_literal("c:(1.5+2j)").unwrap(), "1.5+2j");
    assert_eq!(complex_literal("c:3-4j").unwrap(), "3-4j");
    assert_eq!(complex_literal("ab").unwrap(), "");
}

#[test]
fn complex_literal_too_short() {
    assert_eq!(complex_literal("c"), Err(DecodeError::ShortLiteral));
    assert_eq!(complex_literal(""), Err(DecodeError::ShortLiteral));
}

#[test]
fn complex_literal_round_trip() {
    let value = Complex::new(230.5, -12.25);
    let literal = complex_literal("c:(230.5-12.25j)").unwrap();
    assert_eq!(Complex::<f64>::from_str(&literal).unwrap(), value);
    let wrapped = format!("c:({})", literal);
    let again = complex_literal(&wrapped).unwrap();
    assert_eq!(again, literal);
    assert_eq!(Complex::<f64>::from_str(&again).unwrap(), value);
}

#[test]
fn real_reading_has_zero_imaginary_part() {
    let c = decode_commodity(&Wire::Number(Number::Float("2.5".to_string())), Field::Electricity)
        .unwrap()
        .unwrap();
    let literal = c.literal().unwrap();
    let value = Complex::<f64>::from_str(&literal).unwrap();
    assert_eq!(value.re, 2.5);
    assert_eq!(value.im, 0.0);

    let c = decode_commodity(&Wire::Number(Number::NegInt(-120)), Field::Electricity)
        .unwrap()
        .unwrap();
    let value = Complex::<f64>::from_str(&c.literal().unwrap()).unwrap();
    assert_eq!(value, Complex::new(-120.0, 0.0));
}

#[test]
fn number_texts() {
    assert_eq!(number_text(&Number::PosInt(0)), "0");
    assert_eq!(number_text(&Number::PosInt(18446744073709551615)), "18446744073709551615");
    assert_eq!(number_text(&Number::NegInt(-9223372036854775808)), "-9223372036854775808");
    assert_eq!(number_text(&Number::NegInt(-42)), "-42");
    assert_eq!(number_text(&Number::Float("1e-7".to_string())), "1e-7");
}

#[test]
fn string_reading_is_complex() {
    let c = decode_commodity(&Wire::Str("c:(1+1j)".to_string()), Field::Heat).unwrap();
    match c {
        Some(Commodity::Complex(s)) => assert_eq!(s, "c:(1+1j)"),
        _ => panic!("expected a complex reading"),
    }
}

#[test]
fn reading_of_wrong_type() {
    assert!(matches!(
        decode_commodity(&Wire::Bool(true), Field::Heat),
        Err(DecodeError::WrongType(Field::Heat))
    ));
    assert!(matches!(decode_commodity(&Wire::Null, Field::Heat), Ok(None)));
}

#[test]
fn commodities_object() {
    let raw = Wire::Object(vec![
        ("ELECTRICITY".to_string(), Wire::Str("c:(5+0j)".to_string())),
        ("NATGAS".to_string(), Wire::Bool(false)),
    ]);
    let c = decode_commodities(&raw).unwrap();
    assert!(c.heat.is_none());
    assert_eq!(c.electricity.unwrap().literal().unwrap(), "5+0j");
}

#[test]
fn commodities_rejects_bad_carrier() {
    let raw = Wire::Object(vec![("HEAT".to_string(), Wire::Array(vec![]))]);
    assert!(matches!(decode_commodities(&raw), Err(DecodeError::WrongType(Field::Heat))));
    assert!(matches!(
        decode_commodities(&Wire::Str("x".to_string())),
        Err(DecodeError::WrongType(Field::Consumption))
    ));
}

#[test]
fn signed_factors() {
    assert_eq!(signed_factor(Sign::Positive, Direction::Import), 1);
    assert_eq!(signed_factor(Sign::Negative, Direction::Import), -1);
    assert_eq!(signed_factor(Sign::Positive, Direction::Export), -1);
    assert_eq!(signed_factor(Sign::Negative, Direction::Export), 1);
    assert_eq!(signed_factor(Sign::Zero, Direction::Import), 0);
    assert_eq!(signed_factor(Sign::Zero, Direction::Export), 0);
}
