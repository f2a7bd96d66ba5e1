//! Errors of the conversion.
use vstd::prelude::*;
use crate::names::QualifiedName;

verus! {

/// Why a declaration, or the whole pass, could not be converted.
#[derive(Debug)]
pub enum ConvertError {
    /// The outer shape of the declaration tree is not one root group.
    UnexpectedOuterItem,
    /// A declaration of a kind that may not stand in a namespace.
    UnexpectedItemInMod,
    /// A re-export of an unexpected shape; carries the last path segment seen.
    UnexpectedUseStatement(Option<String>),
    /// A renaming re-export that names itself.
    InfinitelyRecursiveTypedef(QualifiedName),
    /// A name that had to be generated is missing from the result.
    DidNotGenerateAnything(QualifiedName),
    /// The declaration uses a template parameter that cannot be expressed.
    UnusedTemplateParam,
    /// The identifier is not acceptable as a Rust identifier.
    ReservedName(String),
    /// The identifier holds two adjacent underscores.
    TooManyUnderscores,
    /// A recognized tag whose payload cannot be read; carries the tag's name.
    MalformedAnnotation(String),
}

/// The declaration that an error is attributed to.
#[derive(Debug)]
pub enum ErrorContext {
    Item(String),
}

/// An error together with the declaration it is attributed to, if any.
#[derive(Debug)]
pub struct ConvertErrorWithContext(pub ConvertError, pub Option<ErrorContext>);

} // verus!
