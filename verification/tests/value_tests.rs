//! Value model behavior: type names, classification, widening.

use ferrumpy_core::value::Value;

#[test]
fn test_value_type_names() {
    assert_eq!(Value::I32(42).type_label(), "i32");
    assert_eq!(Value::Bool(true).type_label(), "bool");
    assert_eq!(Value::String("hello".to_string()).type_label(), "String");
}

#[test]
fn test_value_classification() {
    assert!(Value::I32(1).is_numeric());
    assert!(Value::F64(0).is_numeric());
    assert!(!Value::Bool(true).is_numeric());
    assert!(Value::U8(1).is_integer());
    assert!(!Value::F32(0).is_integer());
    assert!(Value::I64(-1).is_signed());
    assert!(!Value::U64(1).is_signed());
}

#[test]
fn test_widening_to_i128() {
    assert_eq!(Value::I8(-5).to_i128(), Some(-5));
    assert_eq!(Value::U64(u64::MAX).to_i128(), Some(u64::MAX as i128));
    assert_eq!(Value::U128(u128::MAX).to_i128(), None);
    assert_eq!(Value::U128(7).to_i128(), Some(7));
    assert_eq!(Value::Bool(true).to_i128(), None);
}

#[test]
fn test_to_bool() {
    assert_eq!(Value::Bool(false).to_bool(), Some(false));
    assert_eq!(Value::I32(1).to_bool(), None);
}

#[test]
fn test_same_type_matches_labels() {
    let a = Value::I32(1);
    let b = Value::I32(2);
    let c = Value::I64(1);
    assert!(a.same_type(&b));
    assert!(!a.same_type(&c));
    assert_eq!(a.type_label() == c.type_label(), a.same_type(&c));
}

#[test]
fn test_ref_value() {
    let r = Value::Ref {
        address: 0x1000,
        type_label: "MyStruct".to_string(),
    };
    assert_eq!(r.type_label(), "ref");
    assert!(!r.is_numeric());
}
