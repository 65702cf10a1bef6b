//! The attributes that the derive understands.

use vstd::prelude::*;
use crate::parser::field::WrappedFieldInfo;

verus! {

/// `#[from]` holds a name and a type: that is just a field.
pub type FromAttribute = WrappedFieldInfo;

/// An attribute that describes a specific error variant.
///
/// Can either look like `#[error("some message here")]` or
/// `#[error(transparent)]` for variants with the `#[from]` attribute.
#[derive(Debug, PartialEq)]
pub enum ErrorAttribute {
    /// The arguments of `format!`, as token text. Never empty.
    Stringy(String),
    /// The message is that of the `#[from]` field.
    Transparent,
}

impl ErrorAttribute {
    pub const TRANSPARENT_LITERAL: &'static str = "transparent";
}

} // verus!
