//! Two definitions that the derive turns down, worked through.

use vstd::prelude::*;
use vstd::string::StringExecFns;
use crate::derive::derive_error;
use crate::diagnostic::{DeriveError, ErrorKind};
use crate::parser::field::{classify, info_of, WrappedField};
use crate::parser::first_error;
use crate::model::has_cause;
use crate::parser::variant::{checked_fields, checked_variant, classify_fields};
use crate::span::Span;
use crate::syntax::{
    first_named,
    Attribute,
    Data,
    DeriveInput,
    Field,
    Generics,
    Fields,
    Lifetime,
    Meta,
    Path,
    Type,
    Variant,
};

verus! {

/// An enum with one variant, which holds one positional field.
fn enum_of_one(
    ident: &str,
    generics: &str,
    variant: &str,
    message: &str,
    field: Field,
) -> (input: DeriveInput)
    requires
        field.ident is None,
    ensures
        input.span == (Span { id: 0 }),
        input.data matches Data::Enum { variants, .. } && variants@.len() == 1 && variants@[0].span
            == (Span { id: 1 }) && variants@[0].fields == Fields::Unnamed(
            variants@[0].fields->Unnamed_0,
        ) && variants@[0].fields->Unnamed_0@ == seq![field],
        input.names_its_fields(),
{
    let mut path: Vec<String> = Vec::new();
    path.push(String::from_str("error"));
    let mut attrs: Vec<Attribute> = Vec::new();
    attrs.push(
        Attribute {
            path: Path { leading_colon: false, segments: path },
            meta: Meta::List(String::from_str(message)),
            span: Span::new(2),
        },
    );
    let mut fields: Vec<Field> = Vec::new();
    fields.push(field);
    let mut variants: Vec<Variant> = Vec::new();
    variants.push(
        Variant {
            ident: String::from_str(variant),
            fields: Fields::Unnamed(fields),
            attrs,
            span: Span::new(1),
        },
    );
    DeriveInput {
        ident: String::from_str(ident),
        generics: Generics {
            impl_generics: String::from_str(generics),
            ty_generics: String::from_str(generics),
            where_clause: String::new(),
        },
        data: Data::Enum { variants, brace_close: Span::new(5) },
        span: Span::new(0),
    }
}

/// `#[from]` with the given arguments after it.
fn from_attribute(meta: Meta) -> (attrs: Vec<Attribute>)
    ensures
        attrs@.len() == 1,
        attrs@[0].path.is_name("from"@),
        attrs@[0].meta == meta,
        attrs@[0].span == (Span { id: 4 }),
{
    let mut path: Vec<String> = Vec::new();
    path.push(String::from_str("from"));
    let mut attrs: Vec<Attribute> = Vec::new();
    attrs.push(
        Attribute { path: Path { leading_colon: false, segments: path }, meta, span: Span::new(4) },
    );
    attrs
}

/// The error that the only field of the only variant of `input` runs into
/// is the error of the whole derive.
proof fn lemma_only_field_decides(input: DeriveInput, e: DeriveError)
    requires
        input.data matches Data::Enum { variants, .. } && variants@.len() == 1
            && variants@[0].fields.list().len() == 1 && classify(
            info_of(variants@[0].fields.list()[0]),
            variants@[0].fields.list()[0].attrs@,
            false,
        ) == Err::<WrappedField, DeriveError>(e),
    ensures
        input.data matches Data::Enum { variants, .. } && first_error(
            variants@,
            variants@.len() as int,
        ) == Some(e),
{
    let variants = input.data->Enum_variants@;
    let raw = variants[0].fields.list();
    reveal_with_fuel(classify_fields, 2);
    reveal_with_fuel(first_error, 2);
    assert(!has_cause(Seq::<WrappedField>::empty()));
    assert(classify_fields(raw, 0) == Ok::<Seq<WrappedField>, DeriveError>(Seq::empty()));
    assert(classify_fields(raw, 1) == Err::<Seq<WrappedField>, DeriveError>(e));
    assert(checked_fields(variants[0]) is Err);
    assert(checked_variant(variants[0]) is Err);
}

/// `#[from]` takes no arguments:
///
/// ```text
/// enum FromAttrWithArgs {
///     #[error(transparent)]
///     ErrorVariant(#[from("this shouldn't work")] std::io::Error),
/// }
/// ```
///
/// The derive stops at the attribute.
pub fn from_attr_args_shouldnt_have_args() -> (result: Result<String, DeriveError>)
    ensures
        result == Err::<String, DeriveError>(
            DeriveError {
                kind: ErrorKind::CauseAttributeTakesNoArguments,
                span: Span { id: 4 },
                note: None,
            },
        ),
{
    let attrs = from_attribute(Meta::List(String::from_str("\"this shouldn't work\"")));
    let field = Field {
        ident: None,
        ty: Type::Other { tokens: String::from_str("std::io::Error") },
        attrs,
        span: Span::new(3),
    };
    let input = enum_of_one("FromAttrWithArgs", "", "ErrorVariant", "transparent", field);
    proof {
        assert(first_named(field.attrs@, "from"@, 0) == 0);
        lemma_only_field_decides(
            input,
            DeriveError {
                kind: ErrorKind::CauseAttributeTakesNoArguments,
                span: Span { id: 4 },
                note: None,
            },
        );
    }
    derive_error(input, true)
}

/// `Error::source` has a `'static` bound on what it returns, so a `#[from]`
/// field cannot borrow for less:
///
/// ```text
/// enum MyError<'a> {
///     #[error("from err with non-static lifetime. this won't compile.")]
///     FromRefLt(#[from] &'a ErrorTyWeWillBorrowTickA),
/// }
/// ```
///
/// The derive stops at the field, and points at the lifetime too.
pub fn from_attr_cant_use_nonstatic_lifetime() -> (result: Result<String, DeriveError>)
    ensures
        result == Err::<String, DeriveError>(
            DeriveError {
                kind: ErrorKind::NonStaticCauseLifetime,
                span: Span { id: 3 },
                note: Some(Span { id: 6 }),
            },
        ),
{
    let attrs = from_attribute(Meta::Path);
    let field = Field {
        ident: None,
        ty: Type::Reference {
            lifetime: Some(Lifetime { ident: String::from_str("a"), span: Span::new(6) }),
            tokens: String::from_str("&'a ErrorTyWeWillBorrowTickA"),
        },
        attrs,
        span: Span::new(3),
    };
    let input = enum_of_one(
        "MyError",
        "<'a>",
        "FromRefLt",
        "\"from err with non-static lifetime. this won't compile.\"",
        field,
    );
    proof {
        reveal_strlit("a");
        reveal_strlit("static");
        assert("a"@.len() != "static"@.len());
        assert(field.ty.borrows_briefly());
        assert(first_named(field.attrs@, "from"@, 0) == 0);
        lemma_only_field_decides(
            input,
            DeriveError {
                kind: ErrorKind::NonStaticCauseLifetime,
                span: Span { id: 3 },
                note: Some(Span { id: 6 }),
            },
        );
    }
    derive_error(input, true)
}

} // verus!
