use gate0::Value;

#[test]
fn test_value_bool() {
    let v = Value::Bool(true);
    assert!(v.is_bool());
    assert!(!v.is_int());
    assert!(!v.is_string());
    assert_eq!(v.as_bool(), Some(true));
    assert_eq!(v.as_int(), None);
    assert_eq!(v.as_str(), None);
    assert_eq!(v.type_label(), "Bool");
}

#[test]
fn test_value_int() {
    let v = Value::Int(42);
    assert!(!v.is_bool());
    assert!(v.is_int());
    assert!(!v.is_string());
    assert_eq!(v.as_bool(), None);
    assert_eq!(v.as_int(), Some(42));
    assert_eq!(v.as_str(), None);
    assert_eq!(v.type_label(), "Int");
}

#[test]
fn test_value_string() {
    let v = Value::String("hello");
    assert!(!v.is_bool());
    assert!(!v.is_int());
    assert!(v.is_string());
    assert_eq!(v.as_bool(), None);
    assert_eq!(v.as_int(), None);
    assert_eq!(v.as_str(), Some("hello"));
    assert_eq!(v.type_label(), "String");
}

#[test]
fn test_value_equality() {
    assert_eq!(Value::Bool(true), Value::Bool(true));
    assert_ne!(Value::Bool(true), Value::Bool(false));
    assert_ne!(Value::Bool(true), Value::Int(1));
    assert_eq!(Value::Int(0), Value::Int(0));
    assert_eq!(Value::String("a"), Value::String("a"));
    assert_ne!(Value::String("a"), Value::String("b"));
}

#[test]
fn value_cross_variant_never_equal() {
    assert_ne!(Value::String("1"), Value::Int(1));
    assert_ne!(Value::Int(0), Value::Bool(false));
    assert_ne!(Value::String("true"), Value::Bool(true));
    assert!(!Value::String("x").equals(&Value::Int(0)));
}

#[test]
fn value_string_equality_is_byte_exact() {
    assert_ne!(Value::String("Admin"), Value::String("admin"));
    assert_ne!(Value::String("ab"), Value::String("abc"));
    assert_eq!(Value::String("日本"), Value::String("日本"));
    assert_eq!(Value::String(""), Value::String(""));
}

#[test]
fn value_from_conversions() {
    assert_eq!(Value::from("s"), Value::String("s"));
    assert_eq!(Value::from(7i64), Value::Int(7));
    assert_eq!(Value::from(false), Value::Bool(false));
}
