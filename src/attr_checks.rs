//! What the attribute macros accept, and the names they derive.
use vstd::prelude::*;
use vstd::string::StringExecFns;

verus! {

/// The kind of item that an attribute is placed on.
#[derive(Clone, Copy, Debug, PartialEq, Eq, Structural)]
pub enum ItemKind {
    Struct,
    Enum,
    Fn,
    Other,
}

/// The shape of a struct's fields.
#[derive(Clone, Copy, Debug, PartialEq, Eq, Structural)]
pub enum FieldsShape {
    Named,
    Unit,
    Unnamed,
}

/// Why an attribute macro refuses its input.
#[derive(Clone, Copy, Debug, PartialEq, Eq, Structural)]
pub enum MacroError {
    ExpectedNoAttributes,
    ExpectedItem,
    ExpectedStructOrEnum,
    ExpectedFunction,
    ExpectedStruct,
    SubclassNotPublic,
    ExpectedNamedFields,
}

impl MacroError {
    /// The message that the macro reports.
    pub fn message(&self) -> (r: &'static str)
        ensures
            r@ == match *self {
                MacroError::ExpectedNoAttributes => "Expected no attributes"@,
                MacroError::ExpectedItem => "Expected an item"@,
                MacroError::ExpectedStructOrEnum => "Expected a struct or enum"@,
                MacroError::ExpectedFunction => "Expected a function"@,
                MacroError::ExpectedStruct => "Expected a struct"@,
                MacroError::SubclassNotPublic => "Rust subclasses of C++ types must by public"@,
                MacroError::ExpectedNamedFields =>
                    "Expect a struct with named fields - use struct A{} or struct A; as opposed to struct A()"@,
            },
    {
        match self {
            MacroError::ExpectedNoAttributes => "Expected no attributes",
            MacroError::ExpectedItem => "Expected an item",
            MacroError::ExpectedStructOrEnum => "Expected a struct or enum",
            MacroError::ExpectedFunction => "Expected a function",
            MacroError::ExpectedStruct => "Expected a struct",
            MacroError::SubclassNotPublic => "Rust subclasses of C++ types must by public",
            MacroError::ExpectedNamedFields =>
                "Expect a struct with named fields - use struct A{} or struct A; as opposed to struct A()",
        }
    }
}

/// Checks the input of the attribute that exports a Rust type: no attribute
/// arguments, and an item that is a struct, an enum or a function (`None`
/// where the input is not an item).
pub fn check_extern_rust_type(attr_is_empty: bool, kind: Option<ItemKind>) -> (r: Result<(), MacroError>)
    ensures
        !attr_is_empty ==> r == Err::<(), MacroError>(MacroError::ExpectedNoAttributes),
        attr_is_empty ==> r == match kind {
            None => Err(MacroError::ExpectedItem),
            Some(ItemKind::Struct) | Some(ItemKind::Enum) | Some(ItemKind::Fn) => Ok(()),
            Some(ItemKind::Other) => Err(MacroError::ExpectedStructOrEnum),
        },
{
    if !attr_is_empty {
        return Err(MacroError::ExpectedNoAttributes);
    }
    match kind {
        None => Err(MacroError::ExpectedItem),
        Some(ItemKind::Struct) | Some(ItemKind::Enum) | Some(ItemKind::Fn) => Ok(()),
        Some(ItemKind::Other) => Err(MacroError::ExpectedStructOrEnum),
    }
}

/// Checks the input of the attribute that exports a Rust function: no
/// attribute arguments, and an item that is a function.
pub fn check_extern_rust_function(attr_is_empty: bool, kind: Option<ItemKind>) -> (r: Result<(), MacroError>)
    ensures
        !attr_is_empty ==> r == Err::<(), MacroError>(MacroError::ExpectedNoAttributes),
        attr_is_empty ==> r == match kind {
            None => Err(MacroError::ExpectedItem),
            Some(ItemKind::Fn) => Ok(()),
            Some(_) => Err(MacroError::ExpectedFunction),
        },
{
    if !attr_is_empty {
        return Err(MacroError::ExpectedNoAttributes);
    }
    match kind {
        None => Err(MacroError::ExpectedItem),
        Some(ItemKind::Fn) => Ok(()),
        Some(_) => Err(MacroError::ExpectedFunction),
    }
}

/// Checks the input of the subclass attribute: a struct, public, whose fields
/// are named or absent; the peer field is then added to named fields, or
/// makes a unit struct one with named fields.
pub fn check_subclass(kind: Option<ItemKind>, is_public: bool, shape: FieldsShape) -> (r: Result<(), MacroError>)
    ensures
        r == if kind != Some(ItemKind::Struct) {
            Err::<(), MacroError>(MacroError::ExpectedStruct)
        } else if !is_public {
            Err(MacroError::SubclassNotPublic)
        } else if shape == FieldsShape::Unnamed {
            Err(MacroError::ExpectedNamedFields)
        } else {
            Ok(())
        },
{
    if !matches!(kind, Some(ItemKind::Struct)) {
        Err(MacroError::ExpectedStruct)
    } else if !is_public {
        Err(MacroError::SubclassNotPublic)
    } else if matches!(shape, FieldsShape::Unnamed) {
        Err(MacroError::ExpectedNamedFields)
    } else {
        Ok(())
    }
}

/// The name of the native peer type of subclass `id`: `id` followed by `Cpp`.
pub fn cpp_peer_ident(id: &str) -> (r: String)
    ensures
        r@ == id@ + "Cpp"@,
{
    String::from_str(id).concat("Cpp")
}

} // verus!
