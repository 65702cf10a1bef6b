//! The checks on fields, variants and whole definitions.

use pisserror::diagnostic::{DeriveError, ErrorKind};
use pisserror::parser::field::{
    FieldsType, FromAttributeSplit, FromScanStep, WrappedField, WrappedFieldBuilder, WrappedFields,
};
use pisserror::parser::variant::{ErrorAttributeCheck, FromAttributeCheck, WrappedVariantBuilder};
use pisserror::parser::UserEnum;
use pisserror::span::Span;
use pisserror::syntax::{
    Attribute, Data, DeriveInput, Field, Fields, Generics, Lifetime, Meta, Path, Type, Variant,
};

fn path(name: &str) -> Path {
    Path { leading_colon: false, segments: vec![name.to_string()] }
}

fn attr(name: &str, meta: Meta, id: usize) -> Attribute {
    Attribute { path: path(name), meta, span: Span::new(id) }
}

fn error_attr(tokens: &str, id: usize) -> Attribute {
    attr("error", Meta::List(tokens.to_string()), id)
}

fn from_attr(id: usize) -> Attribute {
    attr("from", Meta::Path, id)
}

fn owned(tokens: &str) -> Type {
    Type::Other { tokens: tokens.to_string() }
}

fn field(name: Option<&str>, ty: Type, attrs: Vec<Attribute>, id: usize) -> Field {
    Field { ident: name.map(str::to_string), ty, attrs, span: Span::new(id) }
}

fn variant(name: &str, fields: Fields, attrs: Vec<Attribute>, id: usize) -> Variant {
    Variant { ident: name.to_string(), fields, attrs, span: Span::new(id) }
}

fn an_enum(name: &str, variants: Vec<Variant>) -> DeriveInput {
    DeriveInput {
        ident: name.to_string(),
        generics: Generics {
            impl_generics: String::new(),
            ty_generics: String::new(),
            where_clause: String::new(),
        },
        data: Data::Enum { variants, brace_close: Span::new(1) },
        span: Span::new(0),
    }
}

/// ```text
/// enum Piss {
///     #[error("💦 💛")]
///     FromVariantOne(#[from] std::io::Error),
///     #[error("r# don't break please r#\n\r# r# 3###\n# ## ##")]
///     FromVariantTwo { #[from] from: std::collections::TryReserveError },
///     #[error("laaaame!")]
///     LameVariant,
/// }
/// ```
fn piss(second_field: &str) -> DeriveInput {
    an_enum(
        "Piss",
        vec![
            variant(
                "FromVariantOne",
                Fields::Unnamed(vec![field(None, owned("std :: io :: Error"), vec![from_attr(12)], 11)]),
                vec![error_attr("\"💦 💛\"", 13)],
                10,
            ),
            variant(
                "FromVariantTwo",
                Fields::Named(vec![field(
                    Some(second_field),
                    owned("std :: collections :: TryReserveError"),
                    vec![from_attr(22)],
                    21,
                )]),
                vec![error_attr("\"r# don't break please r#\\n\\r# r# 3###\\n# ## ##\"", 23)],
                20,
            ),
            variant("LameVariant", Fields::Unit, vec![error_attr("\"laaaame!\"", 33)], 30),
        ],
    )
}

fn variants_of(input: DeriveInput) -> Vec<Variant> {
    match input.data {
        Data::Enum { variants, .. } => variants,
        _ => panic!("not an enum"),
    }
}

#[test]
fn variant_struct_like_one_field() {
    let sauce = an_enum(
        "FartsEnum",
        vec![variant(
            "MyVariant",
            Fields::Named(vec![
                field(Some("expected"), owned("i32"), vec![], 11),
                field(Some("got"), owned("i32"), vec![], 12),
            ]),
            vec![error_attr("\"mfw the test needs a message 😧\"", 13)],
            10,
        )],
    );

    let user_enum = UserEnum::new(sauce).unwrap();
    let v = user_enum.variants.first().unwrap();

    let enum_ident = user_enum.ident();
    let variant_ident = v.ident.clone();

    let result = v.match_head(&enum_ident);

    assert_eq!(result, format!("{enum_ident}::{variant_ident}{{..}}"));
    assert_eq!(result, "FartsEnum::MyVariant{..}");

    // the same head comes out of the variant as it was written
    let variant = variant(
        "MyVariant",
        Fields::Named(vec![
            field(Some("expected"), owned("i32"), vec![], 11),
            field(Some("got"), owned("i32"), vec![], 12),
        ]),
        vec![],
        10,
    );
    let enum_name = "FartsEnum";
    let variant_name = &variant.ident;

    let result = pisserror::util::variant::make_match_head(enum_name, &variant);

    assert_eq!(result, format!("{enum_name}::{variant_name}{{..}}"));
}

#[test]
fn parses_from_variants_correctly() {
    // check if the fieldbuilder is working
    let mut variants = variants_of(piss("from"));
    let second = variants.remove(1);
    let first_field = match second.fields {
        Fields::Named(mut fields) => fields.remove(0),
        _ => panic!("the second variant has named fields"),
    };
    let v2_results = WrappedFieldBuilder::new(first_field).build().unwrap();

    match v2_results {
        WrappedField::Typical(ref info) => panic!("{:?}", info.ident),
        WrappedField::FromAttribute(_) => (),
    };

    assert!(v2_results.has_from_attribute());

    assert_eq!(
        variants_of(piss("from"))
            .into_iter()
            .map(|v| FromAttributeCheck::check_fields(v).unwrap().from_attribute.is_some())
            .collect::<Vec<bool>>(),
        vec![true, true, false]
    );

    let user_enum = UserEnum::new(piss("from")).unwrap();

    let expected = vec![true, true, false];
    let got: Vec<bool> = user_enum.variants.iter().map(|v| v.from_attribute.is_some()).collect();

    assert_eq!(expected, got);
}

fn one_variant(v: Variant) -> DeriveInput {
    an_enum("MyError", vec![v])
}

fn kind_of(input: DeriveInput) -> ErrorKind {
    UserEnum::new(input).err().unwrap().kind
}

fn io_error() -> Type {
    owned("std :: io :: Error")
}

#[test]
fn a_variant_without_a_message_is_turned_down() {
    let input = one_variant(variant("VariantOne", Fields::Unit, vec![], 10));
    let err = UserEnum::new(input).err().unwrap();
    assert_eq!(err, DeriveError { kind: ErrorKind::MissingMessageAttribute, span: Span::new(10), note: None });
    assert_eq!(
        err.to_string(),
        "Each variant must have a corresponding `#[error(...)]` attribute."
    );
}

#[test]
fn a_variant_with_two_messages_is_turned_down_at_the_second() {
    let input = one_variant(variant(
        "VariantOne",
        Fields::Unit,
        vec![error_attr("\"first attr\"", 13), error_attr("\"second attr\"", 14)],
        10,
    ));
    let err = UserEnum::new(input).err().unwrap();
    assert_eq!(err, DeriveError { kind: ErrorKind::MultipleMessageAttributes, span: Span::new(14), note: None });
    assert_eq!(err.to_string(), "Each variant may only have one `#[error(...)]` attribute.");
}

#[test]
fn of_three_messages_the_second_is_reported() {
    let input = one_variant(variant(
        "VariantOne",
        Fields::Unit,
        vec![
            error_attr("\"first\"", 13),
            attr("allow", Meta::List("unused".to_string()), 14),
            error_attr("\"second\"", 15),
            error_attr("\"third\"", 16),
        ],
        10,
    ));
    let err = UserEnum::new(input).err().unwrap();
    assert_eq!(err, DeriveError { kind: ErrorKind::MultipleMessageAttributes, span: Span::new(15), note: None });
}

#[test]
fn a_from_field_with_a_second_field_is_turned_down() {
    let input = one_variant(variant(
        "V",
        Fields::Unnamed(vec![
            field(None, io_error(), vec![from_attr(12)], 11),
            field(None, owned("u32"), vec![], 15),
        ]),
        vec![error_attr("\"hello\"", 13)],
        10,
    ));
    let err = UserEnum::new(input).err().unwrap();
    assert_eq!(err, DeriveError { kind: ErrorKind::NonCauseFieldsNotPermitted, span: Span::new(10), note: None });
    assert_eq!(
        err.to_string(),
        "A variant containing a field with the `#[from]` attribute must only have one field. \
         Please see: https://github.com/onkoe/pisserror/issues/11#issuecomment-2215435824"
    );

    // the field with `#[from]` may come last as well
    let input = one_variant(variant(
        "V",
        Fields::Unnamed(vec![
            field(None, owned("u32"), vec![], 15),
            field(None, io_error(), vec![from_attr(12)], 11),
        ]),
        vec![error_attr("\"hello\"", 13)],
        10,
    ));
    assert_eq!(kind_of(input), ErrorKind::NonCauseFieldsNotPermitted);
}

#[test]
fn a_field_with_two_from_attributes_is_turned_down() {
    let input = one_variant(variant(
        "V",
        Fields::Unnamed(vec![field(None, io_error(), vec![from_attr(12), from_attr(14)], 11)]),
        vec![error_attr("\"hello\"", 13)],
        10,
    ));
    let err = UserEnum::new(input).err().unwrap();
    assert_eq!(err, DeriveError { kind: ErrorKind::DuplicateCauseAttribute, span: Span::new(11), note: None });
    assert_eq!(err.to_string(), "You may only have one `#[from]` attribute per variant.");
}

#[test]
fn two_fields_with_from_are_one_too_many() {
    // you can't have two `#[from]` attrs on one variant!
    let input = one_variant(variant(
        "TwoAttrsOneField",
        Fields::Unnamed(vec![
            field(None, io_error(), vec![from_attr(12)], 11),
            field(None, owned("std :: fmt :: Error"), vec![from_attr(16)], 15),
        ]),
        vec![error_attr("\"hello\"", 13)],
        10,
    ));
    let err = UserEnum::new(input).err().unwrap();
    assert_eq!(err, DeriveError { kind: ErrorKind::DuplicateCauseAttribute, span: Span::new(15), note: None });
}

#[test]
fn transparent_needs_a_from_field() {
    let input = one_variant(variant(
        "VariantWithoutFrom",
        Fields::Unit,
        vec![error_attr("transparent", 13)],
        10,
    ));
    let err = UserEnum::new(input).err().unwrap();
    assert_eq!(err, DeriveError { kind: ErrorKind::TransparentRequiresCause, span: Span::new(13), note: None });
    assert_eq!(
        err.to_string(),
        "An `#[error(transparent)]` attribute requires a field marked with `#[from]`."
    );

    // a field without `#[from]` does not help
    let input = one_variant(variant(
        "V",
        Fields::Unnamed(vec![field(None, io_error(), vec![], 11)]),
        vec![error_attr("transparent", 13)],
        10,
    ));
    assert_eq!(kind_of(input), ErrorKind::TransparentRequiresCause);
}

#[test]
fn transparent_with_a_from_field_is_taken() {
    let input = one_variant(variant(
        "V",
        Fields::Unnamed(vec![field(None, io_error(), vec![from_attr(12)], 11)]),
        vec![error_attr("transparent", 13)],
        10,
    ));
    let user_enum = UserEnum::new(input).unwrap();
    assert_eq!(
        user_enum.variants()[0].error_attribute,
        pisserror::parser::attr::ErrorAttribute::Transparent
    );
    assert_eq!(pisserror::parser::attr::ErrorAttribute::TRANSPARENT_LITERAL, "transparent");

    // only the single word counts
    let input = one_variant(variant(
        "V",
        Fields::Unnamed(vec![field(None, io_error(), vec![from_attr(12)], 11)]),
        vec![error_attr("\"transparent\"", 13)],
        10,
    ));
    let user_enum = UserEnum::new(input).unwrap();
    assert_eq!(
        user_enum.variants()[0].error_attribute,
        pisserror::parser::attr::ErrorAttribute::Stringy("\"transparent\"".to_string())
    );
}

#[test]
fn a_from_field_may_not_borrow_for_less_than_static() {
    let borrowed = Type::Reference {
        lifetime: Some(Lifetime { ident: "a".to_string(), span: Span::new(17) }),
        tokens: "& 'a ErrorTyWeWillBorrowTickA".to_string(),
    };
    let input = one_variant(variant(
        "FromRefLt",
        Fields::Unnamed(vec![field(None, borrowed, vec![from_attr(12)], 11)]),
        vec![error_attr("\"from err with non-static lifetime. this won't compile.\"", 13)],
        10,
    ));
    let err = UserEnum::new(input).err().unwrap();
    assert_eq!(
        err,
        DeriveError {
            kind: ErrorKind::NonStaticCauseLifetime,
            span: Span::new(11),
            note: Some(Span::new(17)),
        }
    );
    assert_eq!(
        err.to_string(),
        "Cannot implement `Error::source`. This type must be owned or use a 'static reference. "
    );
    assert_eq!(
        err.note_message(),
        Some("Try changing this lifetime to be 'static, or remove it altogether.")
    );
}

#[test]
fn static_and_unnamed_lifetimes_pass() {
    for lifetime in [Some(Lifetime { ident: "static".to_string(), span: Span::new(17) }), None] {
        let ty = Type::Reference { lifetime, tokens: "& 'static E".to_string() };
        let built = WrappedFieldBuilder::new(field(None, ty, vec![from_attr(12)], 11)).build();
        assert!(built.unwrap().has_from_attribute());
    }
    // without `#[from]` a field may borrow as it likes
    let ty = Type::Reference {
        lifetime: Some(Lifetime { ident: "a".to_string(), span: Span::new(17) }),
        tokens: "& 'a str".to_string(),
    };
    let built = WrappedFieldBuilder::new(field(None, ty, vec![], 11)).build().unwrap();
    assert!(!built.has_from_attribute());
}

#[test]
fn from_takes_no_arguments() {
    for meta in [Meta::List("\"this shouldn't work\"".to_string()), Meta::NameValue] {
        let f = field(None, io_error(), vec![attr("from", meta, 12)], 11);
        let err = WrappedFieldBuilder::new(f).build().err().unwrap();
        assert_eq!(
            err,
            DeriveError {
                kind: ErrorKind::CauseAttributeTakesNoArguments,
                span: Span::new(12),
                note: None,
            }
        );
        assert_eq!(
            err.to_string(),
            "The `#[from]` attribute does not take any arguments, but some were found."
        );
        assert_eq!(err.note_message(), None);
    }
}

#[test]
fn the_first_from_attribute_decides() {
    // arguments on the first `#[from]` are reported before the second is seen
    let f = field(
        None,
        io_error(),
        vec![attr("from", Meta::NameValue, 12), from_attr(14)],
        11,
    );
    assert_eq!(
        WrappedFieldBuilder::new(f).build().err().unwrap().kind,
        ErrorKind::CauseAttributeTakesNoArguments
    );
    // a variant that has a `#[from]` already takes no other, whatever it looks like
    let f = field(None, io_error(), vec![attr("from", Meta::NameValue, 12)], 11);
    assert_eq!(
        WrappedFieldBuilder::new(f).scan_for_froms(true).err().unwrap().kind,
        ErrorKind::DuplicateCauseAttribute
    );
    // and a field without `#[from]` is fine after one with it
    let f = field(None, io_error(), vec![attr("doc", Meta::NameValue, 12)], 11);
    assert!(!WrappedFieldBuilder::new(f).scan_for_froms(true).unwrap().has_from_attribute());
}

#[test]
fn an_empty_message_is_turned_down() {
    for meta in [Meta::Path, Meta::NameValue, Meta::List(String::new())] {
        let input = one_variant(variant("V", Fields::Unit, vec![attr("error", meta, 13)], 10));
        let err = UserEnum::new(input).err().unwrap();
        assert_eq!(err, DeriveError { kind: ErrorKind::EmptyMessageAttribute, span: Span::new(13), note: None });
        assert_eq!(
            err.to_string(),
            "An `#[error(...)]` attribute must contain a format_args!() f-string to implement `Display`."
        );
    }
}

#[test]
fn an_empty_message_on_a_from_variant_says_so() {
    for meta in [Meta::Path, Meta::NameValue, Meta::List(String::new())] {
        let input = one_variant(variant(
            "V",
            Fields::Unnamed(vec![field(None, io_error(), vec![from_attr(12)], 11)]),
            vec![attr("error", meta, 13)],
            10,
        ));
        let err = UserEnum::new(input).err().unwrap();
        assert_eq!(
            err,
            DeriveError {
                kind: ErrorKind::EmptyMessageAttributeOnCauseVariant,
                span: Span::new(13),
                note: None,
            }
        );
        assert_eq!(
            err.to_string(),
            "A `#[from]` variant's `#[error(...)]` attribute must contain `transparent` or a valid format_args!() f-string."
        );
    }
}

#[test]
fn anything_but_an_enum_is_turned_down() {
    for data in [Data::Struct, Data::Union] {
        let input = DeriveInput { data, ..an_enum("NotAnEnum", vec![]) };
        let err = UserEnum::new(input).err().unwrap();
        assert_eq!(err, DeriveError { kind: ErrorKind::ExpectedEnum, span: Span::new(0), note: None });
        assert_eq!(
            err.to_string(),
            "You must use an `enum` when deriving types with `pisserror`."
        );
    }
}

#[test]
fn the_first_failing_variant_decides() {
    let input = an_enum(
        "E",
        vec![
            variant("Fine", Fields::Unit, vec![error_attr("\"fine\"", 13)], 10),
            variant("NoMessage", Fields::Unit, vec![], 20),
            variant("Transparent", Fields::Unit, vec![error_attr("transparent", 33)], 30),
        ],
    );
    let err = UserEnum::new(input).err().unwrap();
    assert_eq!(err, DeriveError { kind: ErrorKind::MissingMessageAttribute, span: Span::new(20), note: None });
}

#[test]
fn fields_are_checked_before_the_message() {
    let input = one_variant(variant(
        "V",
        Fields::Unnamed(vec![field(None, io_error(), vec![from_attr(12), from_attr(14)], 11)]),
        vec![],
        10,
    ));
    assert_eq!(kind_of(input), ErrorKind::DuplicateCauseAttribute);
}

#[test]
fn the_model_keeps_what_the_definition_says() {
    let mut input = piss("from");
    input.generics = Generics {
        impl_generics: "< 'a >".to_string(),
        ty_generics: "< 'a >".to_string(),
        where_clause: String::new(),
    };
    let user_enum = UserEnum::new(input).unwrap();
    assert_eq!(user_enum.ident(), "Piss");
    assert_eq!(user_enum.generics().impl_generics, "< 'a >");
    assert_eq!(user_enum.span(), Span::new(0));
    assert_eq!(user_enum.after_span(), Span::new(1));
    let variants = user_enum.variants();
    assert_eq!(variants.len(), 3);
    assert_eq!(variants[0].ident, "FromVariantOne");
    assert_eq!(variants[1].ident, "FromVariantTwo");
    assert_eq!(variants[2].ident, "LameVariant");
    assert_eq!(variants[2].fields, WrappedFields::Unit);
    let from = variants[1].from_attribute.as_ref().unwrap();
    assert_eq!(from.ident.as_deref(), Some("from"));
    assert_eq!(from.ty, owned("std :: collections :: TryReserveError"));
    assert_eq!(from.span, Span::new(21));
    match &variants[1].fields {
        WrappedFields::Named(fields) => {
            assert_eq!(fields.len(), 1);
            assert_eq!(fields[0].info(), from);
            assert_eq!(fields[0].info().clone().ty.tokens(), "std :: collections :: TryReserveError");
        }
        other => panic!("{other:?}"),
    }
}

#[test]
fn the_steps_can_be_taken_one_by_one() {
    let v = variants_of(piss("from")).remove(0);
    let step = FromAttributeCheck::check_fields(v).unwrap();
    assert_eq!(step.span, Span::new(10));
    assert_eq!(step.unparsed_attrs.len(), 1);
    let step = ErrorAttributeCheck::check_errors(step).unwrap();
    let built = step.finish();
    assert_eq!(built.ident, "FromVariantOne");
    assert_eq!(
        built.error_attribute,
        pisserror::parser::attr::ErrorAttribute::Stringy("\"💦 💛\"".to_string())
    );
    let again = WrappedVariantBuilder::new(variants_of(piss("from")).remove(0)).build().unwrap();
    assert_eq!(built, again);
    assert_eq!(FieldsType::Named, FieldsType::Named);
}

#[test]
fn the_two_worked_rejections() {
    let err = pisserror::rejected::from_attr_args_shouldnt_have_args().err().unwrap();
    assert_eq!(err.kind, ErrorKind::CauseAttributeTakesNoArguments);
    let err = pisserror::rejected::from_attr_cant_use_nonstatic_lifetime().err().unwrap();
    assert_eq!(err.kind, ErrorKind::NonStaticCauseLifetime);
    assert!(err.note.is_some());
}

#[test]
fn fields_are_equal_wherever_they_stand() {
    let info = |name: Option<&str>, ty: Type, id: usize| {
        pisserror::parser::field::WrappedFieldInfo {
            ident: name.map(str::to_string),
            ty,
            span: Span::new(id),
        }
    };
    let reference = |lifetime: Option<(&str, usize)>, tokens: &str| Type::Reference {
        lifetime: lifetime.map(|(ident, id)| Lifetime { ident: ident.to_string(), span: Span::new(id) }),
        tokens: tokens.to_string(),
    };
    assert_eq!(info(Some("a"), owned("u8"), 1), info(Some("a"), owned("u8"), 2));
    assert_ne!(info(Some("a"), owned("u8"), 1), info(Some("b"), owned("u8"), 1));
    assert_ne!(info(Some("a"), owned("u8"), 1), info(None, owned("u8"), 1));
    assert_ne!(info(None, owned("u8"), 1), info(None, owned("u16"), 1));
    assert_eq!(info(None, owned("u8"), 1), info(None, owned("u8"), 9));
    assert_eq!(reference(Some(("a", 1)), "& 'a u8"), reference(Some(("a", 2)), "& 'a u8"));
    assert_ne!(reference(Some(("a", 1)), "& 'a u8"), reference(Some(("b", 1)), "& 'a u8"));
    assert_ne!(reference(Some(("a", 1)), "& 'a u8"), reference(None, "& 'a u8"));
    assert_ne!(reference(None, "& u8"), owned("& u8"));
    assert_ne!(reference(None, "& u8"), reference(None, "& u16"));
    assert_eq!(
        WrappedField::Typical(info(None, owned("u8"), 1)),
        WrappedField::Typical(info(None, owned("u8"), 2))
    );
    assert_ne!(
        WrappedField::Typical(info(None, owned("u8"), 1)),
        WrappedField::FromAttribute(info(None, owned("u8"), 1))
    );
}

#[test]
fn a_field_can_be_checked_step_by_step() {
    let make = || field(Some("inner"), io_error(), vec![error_attr("\"x\"", 12), from_attr(13)], 11);

    let (info, attrs) = WrappedFieldBuilder::<FromScanStep>::field_info_and_attrs(make());
    assert_eq!(info.ident.as_deref(), Some("inner"));
    assert_eq!(info.ty, io_error());
    assert_eq!(info.span, Span::new(11));
    assert_eq!(attrs, make().attrs);

    let split = FromAttributeSplit::split_field(make());
    assert_eq!(split.field_info, info);
    assert_eq!(split.attributes, attrs);

    let checked = pisserror::parser::field::FromAttributeCheck::check_from(split, false).unwrap().finish();
    assert!(checked.has_from_attribute());
    assert_eq!(checked.info(), &info);
    assert_eq!(checked.into_info().span, Span::new(11));

    let split = FromAttributeSplit::split_field(make());
    assert_eq!(
        pisserror::parser::field::FromAttributeCheck::check_from(split, true).err().unwrap(),
        WrappedFieldBuilder::<FromScanStep>::err_too_many_from_attributes(&Span::new(11))
    );
    assert_eq!(
        pisserror::parser::field::FromAttributeCheck::err_too_many_from_attributes(Span::new(3)),
        DeriveError { kind: ErrorKind::DuplicateCauseAttribute, span: Span::new(3), note: None }
    );
    assert_eq!(
        pisserror::parser::field::FromAttributeCheck::err_from_attribute_has_args(Span::new(3)).kind,
        ErrorKind::CauseAttributeTakesNoArguments
    );
    assert_eq!(
        pisserror::parser::field::FromAttributeCheck::err_from_attribute_field_has_nonstatic_lifetime(Span::new(3), Span::new(4)),
        DeriveError {
            kind: ErrorKind::NonStaticCauseLifetime,
            span: Span::new(3),
            note: Some(Span::new(4)),
        }
    );
    assert_eq!(UserEnum::err_given_non_enum(Span::new(8)).kind, ErrorKind::ExpectedEnum);
    assert_eq!(
        ErrorAttributeCheck::err_missing_error_attr(Span::new(8)).kind,
        ErrorKind::MissingMessageAttribute
    );
    let attr = error_attr("\"x\"", 12);
    assert_eq!(
        ErrorAttributeCheck::err_multiple_error_attrs(&attr),
        DeriveError { kind: ErrorKind::MultipleMessageAttributes, span: Span::new(12), note: None }
    );
    assert_eq!(
        ErrorAttributeCheck::err_nothing_to_display(&attr).kind,
        ErrorKind::EmptyMessageAttribute
    );
    assert_eq!(
        ErrorAttributeCheck::err_nothing_to_display_from(&attr).kind,
        ErrorKind::EmptyMessageAttributeOnCauseVariant
    );
    assert_eq!(
        ErrorAttributeCheck::err_transparent_requires_from_variant(&attr).kind,
        ErrorKind::TransparentRequiresCause
    );
    assert_eq!(ErrorKind::ExpectedEnum.message(), DeriveError::new(ErrorKind::ExpectedEnum, Span::new(0)).to_string());
}
