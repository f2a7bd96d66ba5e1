//! Turns the declaration tree that a header extractor emits, with its
//! machine-written metadata tags, into a validated list of API entries.

pub mod text;
pub mod names;
pub mod errors;
pub mod tokens;
pub mod annotations;
pub mod ident;
pub mod api;
pub mod parse;
pub mod walk;
pub mod pass;
pub mod laws;
pub mod attr_checks;
