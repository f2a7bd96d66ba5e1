use bindgen_parse::attr_checks::{
    check_extern_rust_function, check_extern_rust_type, check_subclass, cpp_peer_ident, FieldsShape,
    ItemKind, MacroError,
};

#[test]
fn extern_rust_type_accepts_structs_enums_and_functions() {
    assert_eq!(check_extern_rust_type(true, Some(ItemKind::Struct)), Ok(()));
    assert_eq!(check_extern_rust_type(true, Some(ItemKind::Enum)), Ok(()));
    assert_eq!(check_extern_rust_type(true, Some(ItemKind::Fn)), Ok(()));
    assert_eq!(check_extern_rust_type(true, Some(ItemKind::Other)), Err(MacroError::ExpectedStructOrEnum));
    assert_eq!(check_extern_rust_type(true, None), Err(MacroError::ExpectedItem));
    assert_eq!(check_extern_rust_type(false, Some(ItemKind::Struct)), Err(MacroError::ExpectedNoAttributes));
}

#[test]
fn extern_rust_function_accepts_functions_only() {
    assert_eq!(check_extern_rust_function(true, Some(ItemKind::Fn)), Ok(()));
    assert_eq!(check_extern_rust_function(true, Some(ItemKind::Struct)), Err(MacroError::ExpectedFunction));
    assert_eq!(check_extern_rust_function(false, Some(ItemKind::Fn)), Err(MacroError::ExpectedNoAttributes));
}

#[test]
fn subclass_checks() {
    assert_eq!(check_subclass(Some(ItemKind::Struct), true, FieldsShape::Named), Ok(()));
    assert_eq!(check_subclass(Some(ItemKind::Struct), true, FieldsShape::Unit), Ok(()));
    assert_eq!(check_subclass(Some(ItemKind::Struct), true, FieldsShape::Unnamed), Err(MacroError::ExpectedNamedFields));
    assert_eq!(check_subclass(Some(ItemKind::Struct), false, FieldsShape::Named), Err(MacroError::SubclassNotPublic));
    assert_eq!(check_subclass(Some(ItemKind::Enum), true, FieldsShape::Named), Err(MacroError::ExpectedStruct));
    assert_eq!(MacroError::ExpectedStruct.message(), "Expected a struct");
}

#[test]
fn peer_ident_appends_cpp() {
    assert_eq!(cpp_peer_ident("MyObserver"), "MyObserverCpp");
}
