use ajson::{Number, Value};

fn scalars() -> Vec<Value> {
    vec![
        Value::String("ajson".to_owned()),
        Value::Number(Number::from(b"12")),
        Value::Boolean(true),
        Value::Boolean(false),
    ]
}

#[test]
fn true_reads_as_one() {
    let v = Value::Boolean(true);
    assert_eq!(v.to_u64(), 1);
    assert_eq!(v.to_i64(), 1);
    assert!(v.to_bool());
}

#[test]
fn false_reads_as_zero() {
    let v = Value::Boolean(false);
    assert_eq!(v.to_u64(), 0);
    assert_eq!(v.to_i64(), 0);
    assert!(!v.to_bool());
}

#[test]
fn non_booleans_read_false() {
    let values = vec![
        Value::String("true".to_owned()),
        Value::Object("{}".to_owned()),
        Value::Array("[true]".to_owned()),
        Value::Null,
        Value::Number(Number::from(b"1")),
    ];
    for v in values {
        assert!(!v.to_bool());
    }
}

#[test]
fn as_str_of_literals() {
    assert_eq!(Value::Boolean(true).as_str(), "true");
    assert_eq!(Value::Boolean(false).as_str(), "false");
    assert_eq!(Value::Null.as_str(), "null");
    assert_eq!(Value::Array("[1, 2]".to_owned()).as_str(), "[1, 2]");
    assert_eq!(Value::Number(Number::from(b"1.50")).as_str(), "1.50");
}

#[test]
fn debug_and_display_of_string() {
    let v = Value::String("ajson".into());
    assert_eq!(v.debug_string(), r#""ajson""#);
    assert_eq!(v.display_string(), "ajson");
}

#[test]
fn debug_of_other_variants_is_unquoted() {
    assert_eq!(Value::Null.debug_string(), "null");
    assert_eq!(Value::Object("{}".to_owned()).debug_string(), "{}");
    assert_eq!(Value::Number(Number::from(b"3")).display_string(), "3");
}

#[test]
fn number_equals_its_text() {
    let v = Value::Number(Number::from(b"3"));
    assert!(v == "3");
    assert!(!(v == "3.0"));
    assert!(Value::Boolean(true) == "true");
    assert!(!(Value::String("null".to_owned()) == "nul"));
}

#[test]
fn string_true_is_not_a_boolean() {
    assert!(!Value::String("true".to_owned()).to_bool());
    assert!(Value::Boolean(true).to_bool());
}

#[test]
fn predicates_name_the_variant() {
    let v = Value::Array("[]".to_owned());
    assert!(v.is_array());
    assert!(!v.is_object() && !v.is_string() && !v.is_number() && !v.is_bool() && !v.is_null());
    assert!(Value::Object("{}".to_owned()).is_object());
    assert!(Value::String(String::new()).is_string());
    assert!(Value::Number(Number::from(b"0")).is_number());
    assert!(Value::Boolean(false).is_bool());
    assert!(Value::Null.is_null());
}

#[test]
fn integers_from_numbers() {
    assert_eq!(Value::Number(Number::from(b"42")).to_u64(), 42);
    assert_eq!(Value::Number(Number::from(b"+7")).to_u64(), 7);
    assert_eq!(Value::Number(Number::from(b"-3")).to_u64(), 0);
    assert_eq!(Value::Number(Number::from(b"-3")).to_i64(), -3);
    assert_eq!(Value::Number(Number::from(b"18446744073709551615")).to_u64(), u64::MAX);
    assert_eq!(Value::Number(Number::from(b"18446744073709551616")).to_u64(), 0);
    assert_eq!(Value::Number(Number::from(b"-9223372036854775808")).to_i64(), i64::MIN);
    assert_eq!(Value::Number(Number::from(b"9223372036854775807")).to_i64(), i64::MAX);
    assert_eq!(Value::Number(Number::from(b"9223372036854775808")).to_i64(), 0);
    assert_eq!(Value::Number(Number::from(b"1.5")).to_i64(), 0);
    assert_eq!(Value::Number(Number::from(b"")).to_u64(), 0);
    assert_eq!(Value::Number(Number::from(b"-")).to_i64(), 0);
}

#[test]
fn integers_from_strings() {
    assert_eq!(Value::String("105".to_owned()).to_u64(), 105);
    assert_eq!(Value::String("-105".to_owned()).to_i64(), -105);
    assert_eq!(Value::String("ten".to_owned()).to_i64(), 0);
    assert_eq!(Value::String("４２".to_owned()).to_u64(), 0);
}

#[test]
fn composites_and_null_read_as_zero() {
    assert_eq!(Value::Array("[1]".to_owned()).to_u64(), 0);
    assert_eq!(Value::Object(r#"{"a":1}"#.to_owned()).to_i64(), 0);
    assert_eq!(Value::Null.to_i64(), 0);
}

#[test]
fn number_from_invalid_bytes_is_replaced() {
    let n = Number::from(&[b'1', 0xff]);
    assert_eq!(n.as_str(), "1\u{fffd}");
    assert_eq!(n.to_u64(), 0);
}

#[test]
fn equality_is_by_variant_and_content() {
    assert!(Value::Object("{}".to_owned()) == Value::Object("{}".to_owned()));
    assert!(!(Value::Object("[]".to_owned()) == Value::Array("[]".to_owned())));
    assert!(!(Value::String("1".to_owned()) == Value::Number(Number::from(b"1"))));
    assert!(Value::Number(Number::from(b"1")) == Value::Number(Number::from(b"1")));
    assert!(Value::Null == Value::Null);
}

#[test]
fn clone_keeps_the_value() {
    for v in scalars() {
        assert!(v.clone() == v);
    }
    let a = Value::Array("[1,2,3]".to_owned());
    assert!(a.clone() == a);
}
