//! Tests for the canonical text forms.

use base64::Engine;

use exirs::data::Name;
use exirs::data::Value;
use exirs::datetime::DateTime;
use exirs::float::ExiFloat;
use exirs::text::int_to_string;

#[test]
fn integer_text() {
    assert_eq!(int_to_string(0), "0");
    assert_eq!(int_to_string(55), "55");
    assert_eq!(int_to_string(-1001), "-1001");
    assert_eq!(int_to_string(i64::MAX), "9223372036854775807");
    assert_eq!(int_to_string(i64::MIN), "-9223372036854775808");
    assert_eq!(Value::Integer(1001).canonical_string(), "1001");
}

#[test]
fn boolean_text() {
    assert_eq!(Value::Boolean(true).canonical_string(), "true");
    assert_eq!(Value::Boolean(false).canonical_string(), "false");
}

#[test]
fn string_text_is_identity() {
    assert_eq!(Value::String(String::from("hej")).canonical_string(), "hej");
}

#[test]
fn binary_text_is_base64() {
    let bytes = vec![0x02u8, 0x6d, 0x2f, 0xa5, 0x20, 0xf2, 0x61, 0x9c, 0xee, 0x0f];
    let expected = base64::engine::general_purpose::STANDARD.encode(&bytes);
    assert_eq!(Value::Binary(bytes).canonical_string(), expected);
    assert_eq!(Value::Binary(vec![]).canonical_string(), "");
    // A fresh spot check of the alphabet, independent of the crate call
    // above: "Man" is the classic fixture.
    assert_eq!(Value::Binary(vec![b'M', b'a', b'n']).canonical_string(), "TWFu");
}

#[test]
fn timestamp_text() {
    let dt = DateTime::new(2012, 7, 31, 13, 33, 55, 839_000).unwrap();
    assert_eq!(Value::Timestamp(dt).canonical_string(), "2012-07-31 13:33:55.000839");
    let whole = DateTime::new(2012, 7, 31, 13, 33, 55, 0).unwrap();
    assert_eq!(Value::Timestamp(whole).canonical_string(), "2012-07-31 13:33:55");
    let millis = DateTime::new(99, 1, 2, 3, 4, 5, 60_000_000).unwrap();
    assert_eq!(Value::Timestamp(millis).canonical_string(), "0099-01-02 03:04:05.060");
    let nanos = DateTime::new(2000, 12, 31, 23, 59, 59, 123_456_789).unwrap();
    assert_eq!(
        Value::Timestamp(nanos).canonical_string(),
        "2000-12-31 23:59:59.123456789"
    );
}

#[test]
fn list_text_concatenates() {
    let list = Value::List(vec![
        Value::Integer(1),
        Value::String(String::from(" and ")),
        Value::Boolean(true),
    ]);
    assert_eq!(list.canonical_string(), "1 and true");
    assert_eq!(Value::List(vec![]).canonical_string(), "");
}

#[test]
fn qname_text_format() {
    let with_prefix = Value::QName(Name {
        local_name: String::from("item"),
        namespace: String::from("urn:ns"),
        prefix: Some(String::from("p")),
    });
    assert_eq!(with_prefix.canonical_string(), "p:urn:ns=\"item\"");
    let bare = Value::QName(Name {
        local_name: String::from("item"),
        namespace: String::from("urn:ns"),
        prefix: None,
    });
    assert_eq!(bare.canonical_string(), "urn:ns=\"item\"");
}

#[test]
fn floats_have_no_text_form() {
    let f = Value::Float(ExiFloat::from_bits(1.5f64.to_bits()));
    assert!(f.try_canonical_string().is_none());
    let nested = Value::List(vec![Value::Integer(1), f]);
    assert!(nested.try_canonical_string().is_none());
    assert!(Value::Integer(1).try_canonical_string().is_some());
}
