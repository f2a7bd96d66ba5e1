//! Whether an identifier can be used on both sides of the bridge.
use vstd::prelude::*;
use crate::errors::ConvertError;
use crate::text::{contains_double_underscore, has_double_underscore};

verus! {

/// Whether syn reads a text as one identifier: one identifier token, with
/// only whitespace or comments around it, that is not on syn's list of
/// reserved words.
pub uninterp spec fn is_rust_ident(s: Seq<char>) -> bool;

/// Relies on `syn::parse_str::<syn::Ident>`: whether syn reads the text as one
/// identifier not on its list of reserved words; the answer depends on the
/// text alone.
#[verifier::external_body]
fn parses_as_ident(s: &str) -> (r: bool)
    ensures
        r == is_rust_ident(s@),
{
    syn::parse_str::<syn::Ident>(s).is_ok()
}

/// How an identifier fares: accepted, refused as a Rust name, or refused for
/// holding two adjacent underscores.
pub open spec fn ident_verdict(s: Seq<char>) -> Result<(), bool> {
    if !is_rust_ident(s) {
        Err(true)
    } else if has_double_underscore(s) {
        Err(false)
    } else {
        Ok(())
    }
}

/// Checks that an identifier can be used on both sides of the bridge.
pub fn validate_ident_ok_for_cxx(id: &str) -> (r: Result<(), ConvertError>)
    ensures
        match r {
            Ok(()) => ident_verdict(id@) is Ok,
            Err(ConvertError::ReservedName(n)) => ident_verdict(id@) == Err::<(), bool>(true) && n@ == id@,
            Err(ConvertError::TooManyUnderscores) => ident_verdict(id@) == Err::<(), bool>(false),
            _ => false,
        },
{
    if !parses_as_ident(id) {
        Err(ConvertError::ReservedName(id.to_owned()))
    } else if contains_double_underscore(id) {
        Err(ConvertError::TooManyUnderscores)
    } else {
        Ok(())
    }
}

} // verus!
