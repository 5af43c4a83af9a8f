use sql_builder::value::{string_text, Value};

#[test]
fn null_renders_as_null() {
    assert_eq!(Value::Null.to_string(), "NULL");
}

#[test]
fn none_converts_to_null() {
    let v: Value = Value::from(None::<i32>);
    assert!(matches!(v, Value::Null));
    assert_eq!(v.to_string(), "NULL");
}

#[test]
fn some_converts_as_its_value() {
    let v: Value = Value::from(Some(7i32));
    assert!(matches!(v, Value::Int(7)));
    assert_eq!(Value::from(Some("x")).to_string(), "'x'");
}

#[test]
fn booleans_render_as_digits() {
    assert_eq!(Value::Boolean(true).to_string(), "1");
    assert_eq!(Value::Boolean(false).to_string(), "0");
    assert_eq!(Value::from(true).to_string(), "1");
}

#[test]
fn plain_string_is_quoted() {
    assert_eq!(Value::from("foo").to_string(), "'foo'");
    assert_eq!(Value::String(String::new()).to_string(), "''");
}

#[test]
fn quote_inside_string_is_not_escaped() {
    assert_eq!(Value::from("it's").to_string(), "'it's'");
}

#[test]
fn colon_string_is_raw_without_colons() {
    assert_eq!(Value::from("a:b:c").to_string(), "abc");
    assert_eq!(string_text(":NOW()"), "NOW()");
    assert_eq!(string_text(":"), "");
}

#[test]
fn integers_render_in_decimal() {
    assert_eq!(Value::Int(0).to_string(), "0");
    assert_eq!(Value::Int(-42).to_string(), "-42");
    assert_eq!(Value::Int(i64::MIN).to_string(), "-9223372036854775808");
    assert_eq!(Value::Int(i64::MAX).to_string(), "9223372036854775807");
    assert_eq!(Value::UInt(u64::MAX).to_string(), "18446744073709551615");
    assert_eq!(Value::UInt(1000).to_string(), "1000");
}

#[test]
fn narrow_integers_widen() {
    assert!(matches!(Value::from(200u8), Value::UInt(200)));
    assert!(matches!(Value::from(60000u16), Value::UInt(60000)));
    assert!(matches!(Value::from(7u32), Value::UInt(7)));
    assert!(matches!(Value::from(9u64), Value::UInt(9)));
    assert!(matches!(Value::from(-5i8), Value::Int(-5)));
    assert!(matches!(Value::from(-300i16), Value::Int(-300)));
    assert!(matches!(Value::from(-70000i32), Value::Int(-70000)));
    assert!(matches!(Value::from(-1i64), Value::Int(-1)));
    assert_eq!(Value::from(-5i8).to_string(), "-5");
}

#[test]
fn float_text_renders_as_held() {
    let f = 1.5f32;
    assert_eq!(Value::Float(format!("{}", f)).to_string(), "1.5");
    let d = 0.25f64;
    assert_eq!(Value::Double(format!("{}", d)).to_string(), "0.25");
}

#[test]
fn rendering_is_deterministic() {
    let v = Value::from("a:b");
    assert_eq!(v.to_string(), v.to_string());
    assert_eq!(Value::Int(12).to_string(), Value::Int(12).to_string());
}

#[test]
fn borrowed_values_convert_as_owned() {
    assert!(matches!(Value::from(&5i32), Value::Int(5)));
    assert_eq!(Value::from(&"x".to_string()).to_string(), "'x'");
    assert_eq!(Value::from(&Some(3u8)).to_string(), "3");
}

#[test]
fn raw_renders_as_is() {
    assert_eq!(Value::Raw("NOW()".to_string()).to_string(), "NOW()");
}
