//! Derives an error type's `Display`, `Error` and `From` implementations from
//! an annotated enum definition.
//!
//! The definition arrives already parsed, as a [`syntax::DeriveInput`]. The
//! parser checks every variant and its fields and builds a [`parser::UserEnum`];
//! the generators in [`traits`] then write the implementations out as source
//! text; [`derive::derive_error`] does both in turn. Every step is a verified
//! function whose contract says which input yields which result: which
//! diagnostic for which fault, and which text for which enum.
//!
//! The contracts speak of an enum through its [`model::EnumModel`], and of
//! the generated `match` arms through the patterns of [`pattern`]. What the
//! arms do with every value of the enum is proved in [`laws`].

pub mod span;
pub mod diagnostic;
pub mod text;
pub mod syntax;
pub mod pattern;
pub mod model;
pub mod parser;
pub mod traits;
pub mod util;
pub mod derive;
pub mod rejected;
pub mod laws;
