//! From source text to generated code: the item goes through `syn`, is
//! handed to the library as `syn` has parsed it, and comes back as text.

use pisserror::derive::derive_error;
use pisserror::diagnostic::{DeriveError, ErrorKind};
use pisserror::span::Span;
use pisserror::syntax::{
    Attribute, Data, DeriveInput, Field, Fields, Generics, Lifetime, Meta, Path, Type, Variant,
};
use quote::ToTokens;

/// Numbers the nodes in the order in which they are met, and keeps what each
/// of them looks like.
struct Seen(Vec<String>);

impl Seen {
    fn note(&mut self, node: &dyn ToTokens) -> Span {
        self.note_text(node.to_token_stream().to_string())
    }

    fn note_text(&mut self, text: String) -> Span {
        self.0.push(text);
        Span::new(self.0.len() - 1)
    }

    fn at(&self, span: Span) -> &str {
        &self.0[span.id]
    }
}

fn lower(input: &syn::DeriveInput, seen: &mut Seen) -> DeriveInput {
    let (impl_generics, ty_generics, where_clause) = input.generics.split_for_impl();
    let generics = Generics {
        impl_generics: impl_generics.to_token_stream().to_string(),
        ty_generics: ty_generics.to_token_stream().to_string(),
        where_clause: where_clause.to_token_stream().to_string(),
    };
    let span = seen.note(input);
    let data = match &input.data {
        syn::Data::Enum(item) => Data::Enum {
            variants: item.variants.iter().map(|v| lower_variant(v, seen)).collect(),
            brace_close: seen.note_text("}".to_string()),
        },
        syn::Data::Struct(_) => Data::Struct,
        syn::Data::Union(_) => Data::Union,
    };
    DeriveInput { ident: input.ident.to_string(), generics, data, span }
}

fn lower_variant(variant: &syn::Variant, seen: &mut Seen) -> Variant {
    let fields = match &variant.fields {
        syn::Fields::Named(n) => Fields::Named(n.named.iter().map(|f| lower_field(f, seen)).collect()),
        syn::Fields::Unnamed(un) => {
            Fields::Unnamed(un.unnamed.iter().map(|f| lower_field(f, seen)).collect())
        }
        syn::Fields::Unit => Fields::Unit,
    };
    Variant {
        ident: variant.ident.to_string(),
        fields,
        attrs: variant.attrs.iter().map(|a| lower_attribute(a, seen)).collect(),
        span: seen.note(variant),
    }
}

fn lower_field(field: &syn::Field, seen: &mut Seen) -> Field {
    let tokens = field.ty.to_token_stream().to_string();
    let ty = match &field.ty {
        syn::Type::Reference(inner) => Type::Reference {
            lifetime: inner
                .lifetime
                .as_ref()
                .map(|lt| Lifetime { ident: lt.ident.to_string(), span: seen.note(lt) }),
            tokens,
        },
        _ => Type::Other { tokens },
    };
    Field {
        ident: field.ident.as_ref().map(ToString::to_string),
        ty,
        attrs: field.attrs.iter().map(|a| lower_attribute(a, seen)).collect(),
        span: seen.note(field),
    }
}

fn lower_attribute(attr: &syn::Attribute, seen: &mut Seen) -> Attribute {
    let path = Path {
        leading_colon: attr.path().leading_colon.is_some(),
        segments: attr.path().segments.iter().map(|s| s.ident.to_string()).collect(),
    };
    let meta = match &attr.meta {
        syn::Meta::Path(_) => Meta::Path,
        syn::Meta::List(list) => Meta::List(list.tokens.to_string()),
        syn::Meta::NameValue(_) => Meta::NameValue,
    };
    Attribute { path, meta, span: seen.note(attr) }
}

/// The text with its tokens spaced evenly, so that two spellings of the
/// same tokens compare equal.
fn tokens(text: &str) -> String {
    let spaced = text.parse::<proc_macro2::TokenStream>().unwrap().to_string();
    spaced.split_whitespace().collect::<Vec<_>>().join("").replace(',', ", ")
}

/// Derives from source text. An error comes back with the text of the node
/// that it points at, and of the node of its note.
fn derive(source: &str) -> Result<String, (DeriveError, String, Option<String>)> {
    let parsed: syn::DeriveInput = syn::parse_str(source).unwrap();
    let mut seen = Seen(Vec::new());
    let item = lower(&parsed, &mut seen);
    assert!(item.fields_are_named());
    derive_error(item, true).map_err(|e| {
        let at = tokens(seen.at(e.span));
        let note = e.note.map(|n| tokens(seen.at(n)));
        (e, at, note)
    })
}

fn rejected(source: &str) -> (ErrorKind, String) {
    let (e, at, _) = derive(source).err().unwrap();
    (e.kind, at)
}

#[test]
fn the_example_of_the_manual() {
    let derived = derive(
        r#"
        #[derive(Debug, Error)]
        pub enum DatabaseError {
            #[error("encountered a disk error. see: {_0}")]
            DiskError(#[from] std::io::Error),
            #[error("key `{_0}` has no matching data records")]
            KeyNotFound(String),
            #[error("attempted to store a malformed header. expected: `{expected:?}`. got: `{got:?}`")]
            MalformedHeader {
                expected: String,
                got: String,
            },
            #[error("other error: {_0}")]
            Other(String),
        }
        "#,
    )
    .unwrap();
    let expected = tokens(
        r#"
        #[automatically_derived]
        impl std::error::Error for DatabaseError {
            fn source(&self) -> Option<&(dyn Error + 'static)> {
                match *self {
                    DatabaseError::DiskError(ref e) => Some(e),
                    DatabaseError::KeyNotFound(_) => None,
                    DatabaseError::MalformedHeader { .. } => None,
                    DatabaseError::Other(_) => None
                }
            }
            fn description(&self) -> &str {
                &""
            }
            fn cause(&self) -> Option<&dyn Error> {
                None
            }
        }

        #[automatically_derived]
        impl core::fmt::Display for DatabaseError {
            fn fmt(&self, f: &mut core::fmt::Formatter<'_>) -> Result<(), std::fmt::Error> {
                match *self {
                    DatabaseError::DiskError(ref _0) => {
                        f.write_str(format!("encountered a disk error. see: {_0}").as_str())
                    },
                    DatabaseError::KeyNotFound(ref _0) => {
                        f.write_str(format!("key `{_0}` has no matching data records").as_str())
                    },
                    DatabaseError::MalformedHeader { ref expected, ref got } => {
                        f.write_str(format!("attempted to store a malformed header. expected: `{expected:?}`. got: `{got:?}`").as_str())
                    },
                    DatabaseError::Other(ref _0) => {
                        f.write_str(format!("other error: {_0}").as_str())
                    }
                }
            }
        }

        #[automatically_derived]
        impl core::convert::From<std::io::Error> for DatabaseError {
            fn from(value: std::io::Error) -> Self {
                DatabaseError::DiskError(value)
            }
        }
        "#,
    );
    assert_eq!(tokens(&derived), expected);
}

#[test]
fn what_is_derived_parses_as_items() {
    let derived = derive(
        r#"
        enum Tangled<'a, T: core::fmt::Debug> where T: 'a {
            #[error(transparent)]
            Inner { #[from] inner: std::fmt::Error },
            #[error("{} and {}", _0, _1)]
            Pair(&'a T, u8),
            #[error("nothing")]
            Nothing,
        }
        "#,
    )
    .unwrap();
    let file: syn::File = syn::parse_str(&derived).unwrap();
    assert_eq!(file.items.len(), 3);
    let headers: Vec<String> = file
        .items
        .iter()
        .map(|item| match item {
            syn::Item::Impl(item) => {
                let (_, path, _) = item.trait_.as_ref().unwrap();
                format!(
                    "{} | {} | {} | {}",
                    item.generics.params.to_token_stream(),
                    path.to_token_stream(),
                    item.self_ty.to_token_stream(),
                    item.generics.where_clause.to_token_stream()
                )
            }
            other => panic!("{}", other.to_token_stream()),
        })
        .collect();
    let generics = "'a , T : core :: fmt :: Debug";
    assert_eq!(
        headers,
        vec![
            format!("{generics} | std :: error :: Error | Tangled < 'a , T > | where T : 'a"),
            format!("{generics} | core :: fmt :: Display | Tangled < 'a , T > | where T : 'a"),
            format!(
                "{generics} | core :: convert :: From < std :: fmt :: Error > | Tangled < 'a , T > | where T : 'a"
            ),
        ]
    );
}

#[test]
fn rejections_point_at_the_node_at_fault() {
    // no message
    assert_eq!(
        rejected("enum MyError { VariantOne }"),
        (ErrorKind::MissingMessageAttribute, tokens("VariantOne"))
    );
    // two messages
    assert_eq!(
        rejected(r#"enum MyError { #[error("first attr")] #[error("second attr")] VariantOne }"#),
        (ErrorKind::MultipleMessageAttributes, tokens(r#"#[error("second attr")]"#))
    );
    // `#[from]` and a second field
    let variant = r#"#[error("struct-like variant")] StructLikeVariant { #[from] some_error_type: std::io::Error, favorite_number: u32 }"#;
    assert_eq!(
        rejected(&format!("enum MyError {{ {variant} }}")),
        (ErrorKind::NonCauseFieldsNotPermitted, tokens(variant))
    );
    // two `#[from]` on one field
    assert_eq!(
        rejected(r#"enum MyError { #[error("hello")] V(#[from] #[from] std::io::Error) }"#),
        (ErrorKind::DuplicateCauseAttribute, tokens("#[from] #[from] std::io::Error"))
    );
    // two `#[from]` in one variant
    assert_eq!(
        rejected(
            r#"enum SomeError { #[error("hello")] TwoAttrsOneField(#[from] std::io::Error, #[from] std::fmt::Error) }"#
        ),
        (ErrorKind::DuplicateCauseAttribute, tokens("#[from] std::fmt::Error"))
    );
    // `transparent` without `#[from]`
    assert_eq!(
        rejected("enum Transparent { #[error(transparent)] VariantWithoutFrom }"),
        (ErrorKind::TransparentRequiresCause, tokens("#[error(transparent)]"))
    );
    // arguments to `#[from]`
    assert_eq!(
        rejected(
            r#"enum FromAttrWithArgs { #[error(transparent)] ErrorVariant(#[from("this shouldn't work")] std::io::Error) }"#
        ),
        (ErrorKind::CauseAttributeTakesNoArguments, tokens(r#"#[from("this shouldn't work")]"#))
    );
    assert_eq!(
        rejected(r#"enum E { #[error(transparent)] V(#[from = "x"] std::io::Error) }"#).0,
        ErrorKind::CauseAttributeTakesNoArguments
    );
    // nothing to display
    for attr in ["#[error]", "#[error()]", "#[error = \"x\"]"] {
        assert_eq!(
            rejected(&format!("enum E {{ {attr} V }}")),
            (ErrorKind::EmptyMessageAttribute, tokens(attr))
        );
        assert_eq!(
            rejected(&format!("enum E {{ {attr} V(#[from] std::io::Error) }}")),
            (ErrorKind::EmptyMessageAttributeOnCauseVariant, tokens(attr))
        );
    }
    // two variants that convert from the same type
    assert_eq!(
        rejected(
            r#"enum E { #[error("a")] A(#[from] std::io::Error), #[error("b")] B(#[from] std::io::Error) }"#
        ),
        (ErrorKind::DuplicateConversionSourceType, tokens("#[from] std::io::Error"))
    );
    assert_eq!(
        rejected(
            r#"enum E { #[error("a")] A(#[from] u8), #[error("b")] B { #[from] inner: u16 }, #[error(transparent)] C { #[from] again: u8 } }"#
        ),
        (ErrorKind::DuplicateConversionSourceType, tokens("#[from] again: u8"))
    );
    // not an enum
    let a_struct = r#"struct NotAnEnum { field: u8 }"#;
    assert_eq!(rejected(a_struct), (ErrorKind::ExpectedEnum, tokens(a_struct)));
    assert_eq!(rejected("union U { a: u8, b: u16 }").0, ErrorKind::ExpectedEnum);
}

#[test]
fn a_borrowed_from_field_is_turned_down_at_the_field_and_the_lifetime() {
    let (e, at, note) = derive(
        r#"
        enum MyError<'a> {
            #[error("from err with non-static lifetime. this won't compile.")]
            FromRefLt(#[from] &'a ErrorTyWeWillBorrowTickA),
        }
        "#,
    )
    .err()
    .unwrap();
    assert_eq!(e.kind, ErrorKind::NonStaticCauseLifetime);
    assert_eq!(at, tokens("#[from] &'a ErrorTyWeWillBorrowTickA"));
    assert_eq!(note, Some(tokens("'a")));

    // 'static is fine, and so is a reference that names no lifetime
    assert!(derive(r#"enum E { #[error("x")] V(#[from] &'static Inner) }"#).is_ok());
    assert!(derive(r#"enum E { #[error("x")] V(#[from] &Inner) }"#).is_ok());
    // what is borrowed deeper inside the type is not looked at
    assert!(derive(r#"enum E<'a> { #[error("x")] V(#[from] Box<&'a Inner>) }"#).is_ok());
}

#[test]
fn only_the_bare_names_are_attributes_of_the_derive() {
    // a path that merely ends in `error` or `from` is someone else's
    assert_eq!(
        rejected(r#"enum E { #[other::error("x")] V }"#).0,
        ErrorKind::MissingMessageAttribute
    );
    assert_eq!(rejected(r#"enum E { #[::error("x")] V }"#).0, ErrorKind::MissingMessageAttribute);
    let derived = derive(r#"enum E { #[error("x")] V(#[other::from] u8, u8) }"#).unwrap();
    assert!(!derived.contains("From"));
    // doc comments and other attributes are passed over
    assert!(derive(
        r#"
        enum MyError {
            #[error("1 {}", "am i a genius?")]
            #[allow(non_snake_case)]
            #[allow(non_snake_case)]
            Thing1,
            /// I can even document the variants
            #[error("2")]
            Thing2,
        }
        "#
    )
    .is_ok());
}
