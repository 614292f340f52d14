//! Debug-info type-name conversion.

use ferrumpy_core::dwarf::{VariableInfo, dwarf_type_to_rust};

#[test]
fn test_dwarf_type_to_rust() {
    assert_eq!(
        dwarf_type_to_rust("alloc::string::String").unwrap(),
        "String"
    );
    assert_eq!(
        dwarf_type_to_rust("alloc::vec::Vec<i32>").unwrap(),
        "Vec<i32>"
    );
    assert_eq!(
        dwarf_type_to_rust("core::option::Option<alloc::string::String>").unwrap(),
        "Option<String>"
    );
    assert_eq!(
        dwarf_type_to_rust("core::result::Result<i32, alloc::string::String>").unwrap(),
        "Result<i32, String>"
    );
}

#[test]
fn test_hash_suffix_removed() {
    assert_eq!(
        dwarf_type_to_rust("mycrate::Thing::h1a2b3c4d").unwrap(),
        "mycrate::Thing"
    );
    // a suffix with non-hex characters stays
    assert_eq!(
        dwarf_type_to_rust("mycrate::hello").unwrap(),
        "mycrate::hello"
    );
}

#[test]
fn test_variable_info_new() {
    let vi = VariableInfo::new("x".to_string(), "alloc::string::String".to_string()).unwrap();
    assert_eq!(vi.name, "x");
    assert_eq!(vi.type_label, "alloc::string::String");
    assert_eq!(vi.rust_type, "String");
    assert_eq!(vi.value, "");
}

#[test]
fn test_variable_info_with_value() {
    let vi = VariableInfo::with_value(
        "n".to_string(),
        "i32".to_string(),
        "42".to_string(),
    )
    .unwrap();
    assert_eq!(vi.rust_type, "i32");
    assert_eq!(vi.value, "42");
}
