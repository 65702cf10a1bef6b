//! The diagnostics that stop code generation.

use vstd::prelude::*;
use vstd::string::StringExecFns;
use crate::span::Span;

verus! {

/// Every way in which a definition can be turned down.
#[derive(Clone, Copy, Debug, PartialEq, Eq, Structural)]
pub enum ErrorKind {
    /// The definition is not an enum.
    ExpectedEnum,
    /// A variant has no `#[error(...)]` attribute.
    MissingMessageAttribute,
    /// A variant has more than one `#[error(...)]` attribute.
    MultipleMessageAttributes,
    /// The `#[error(...)]` attribute holds nothing to display.
    EmptyMessageAttribute,
    /// As above, on a variant whose field is marked `#[from]`.
    EmptyMessageAttributeOnCauseVariant,
    /// `#[error(transparent)]` on a variant without a `#[from]` field.
    TransparentRequiresCause,
    /// A `#[from]` field shares its variant with other fields.
    NonCauseFieldsNotPermitted,
    /// A variant has more than one `#[from]` attribute.
    DuplicateCauseAttribute,
    /// A `#[from]` attribute was given arguments.
    CauseAttributeTakesNoArguments,
    /// A `#[from]` field is a reference with a lifetime other than `'static`.
    NonStaticCauseLifetime,
    /// Two variants have a `#[from]` field of the same type.
    DuplicateConversionSourceType,
}

/// A diagnostic: what went wrong, and the region to underline.
#[derive(Clone, Copy, Debug, PartialEq, Eq, Structural)]
pub struct DeriveError {
    pub kind: ErrorKind,
    /// The region at fault.
    pub span: Span,
    /// A second region with a hint of its own, where the kind has one.
    pub note: Option<Span>,
}

impl ErrorKind {
    /// The text shown to the user for this kind of diagnostic.
    pub open spec fn text(self) -> Seq<char> {
        match self {
            ErrorKind::ExpectedEnum => "You must use an `enum` when deriving types with `pisserror`."@,
            ErrorKind::MissingMessageAttribute => "Each variant must have a corresponding `#[error(...)]` attribute."@,
            ErrorKind::MultipleMessageAttributes => "Each variant may only have one `#[error(...)]` attribute."@,
            ErrorKind::EmptyMessageAttribute => "An `#[error(...)]` attribute must contain a format_args!() f-string to implement `Display`."@,
            ErrorKind::EmptyMessageAttributeOnCauseVariant => "A `#[from]` variant's `#[error(...)]` attribute must contain `transparent` or a valid format_args!() f-string."@,
            ErrorKind::TransparentRequiresCause => "An `#[error(transparent)]` attribute requires a field marked with `#[from]`."@,
            ErrorKind::NonCauseFieldsNotPermitted => "A variant containing a field with the `#[from]` attribute must only have one field. Please see: https://github.com/onkoe/pisserror/issues/11#issuecomment-2215435824"@,
            ErrorKind::DuplicateCauseAttribute => "You may only have one `#[from]` attribute per variant."@,
            ErrorKind::CauseAttributeTakesNoArguments => "The `#[from]` attribute does not take any arguments, but some were found."@,
            ErrorKind::NonStaticCauseLifetime => "Cannot implement `Error::source`. This type must be owned or use a 'static reference. "@,
            ErrorKind::DuplicateConversionSourceType => "Only one variant may have a `#[from]` field of this type: an earlier variant converts from it already."@,
        }
    }

    /// The text shown to the user for this kind of diagnostic.
    pub fn message(self) -> (text: &'static str)
        ensures
            text@ == self.text(),
    {
        match self {
            ErrorKind::ExpectedEnum => "You must use an `enum` when deriving types with `pisserror`.",
            ErrorKind::MissingMessageAttribute => "Each variant must have a corresponding `#[error(...)]` attribute.",
            ErrorKind::MultipleMessageAttributes => "Each variant may only have one `#[error(...)]` attribute.",
            ErrorKind::EmptyMessageAttribute => "An `#[error(...)]` attribute must contain a format_args!() f-string to implement `Display`.",
            ErrorKind::EmptyMessageAttributeOnCauseVariant => "A `#[from]` variant's `#[error(...)]` attribute must contain `transparent` or a valid format_args!() f-string.",
            ErrorKind::TransparentRequiresCause => "An `#[error(transparent)]` attribute requires a field marked with `#[from]`.",
            ErrorKind::NonCauseFieldsNotPermitted => "A variant containing a field with the `#[from]` attribute must only have one field. Please see: https://github.com/onkoe/pisserror/issues/11#issuecomment-2215435824",
            ErrorKind::DuplicateCauseAttribute => "You may only have one `#[from]` attribute per variant.",
            ErrorKind::CauseAttributeTakesNoArguments => "The `#[from]` attribute does not take any arguments, but some were found.",
            ErrorKind::NonStaticCauseLifetime => "Cannot implement `Error::source`. This type must be owned or use a 'static reference. ",
            ErrorKind::DuplicateConversionSourceType => "Only one variant may have a `#[from]` field of this type: an earlier variant converts from it already.",
        }
    }
}

/// The hint that goes with the second region of a diagnostic about a
/// lifetime.
pub open spec fn lifetime_hint() -> Seq<char> {
    "Try changing this lifetime to be 'static, or remove it altogether."@
}

impl DeriveError {
    /// The diagnostic's text: that of its kind.
    pub fn to_string(&self) -> (text: String)
        ensures
            text@ == self.kind.text(),
    {
        String::from_str(self.kind.message())
    }

    /// The hint for the second region, where the diagnostic has one.
    pub fn note_message(&self) -> (text: Option<&'static str>)
        ensures
            text is Some <==> self.note is Some,
            text matches Some(t) ==> t@ == lifetime_hint(),
    {
        match self.note {
            Some(_) => Some("Try changing this lifetime to be 'static, or remove it altogether."),
            None => None,
        }
    }

    pub fn new(kind: ErrorKind, span: Span) -> (err: Self)
        ensures
            err == (DeriveError { kind, span, note: None }),
    {
        DeriveError { kind, span, note: None }
    }
}

} // verus!
