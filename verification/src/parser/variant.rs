//! Variants, and the two checks that each of them has to pass.

use vstd::prelude::*;
use vstd::string::StringExecFns;
use crate::diagnostic::{DeriveError, ErrorKind};
use crate::parser::attr::{ErrorAttribute, FromAttribute};
use crate::model::{has_cause, VariantModel};
use crate::parser::field::{
    classify,
    info_of,
    FieldsType,
    WrappedField,
    WrappedFieldBuilder,
    WrappedFields,
};
use crate::pattern::{
    lemma_rest_text,
    path_text,
    positional_names,
    push_refs,
    push_skips,
    ref_items,
    Binder,
    Destructure,
};
use crate::span::Span;
use crate::text::joined;
use crate::syntax::{find_named, first_named, lemma_first_named, Attribute, Field, Fields, Meta, Path, Variant};

verus! {

/// The first `n` fields, checked in declaration order, each knowing whether
/// one before it has `#[from]`. The first field that fails decides the error.
pub open spec fn classify_fields(fields: Seq<Field>, n: int) -> Result<
    Seq<WrappedField>,
    DeriveError,
>
    decreases n,
{
    if n <= 0 {
        Ok(Seq::empty())
    } else {
        match classify_fields(fields, n - 1) {
            Err(e) => Err(e),
            Ok(done) => match classify(info_of(fields[n - 1]), fields[n - 1].attrs@, has_cause(done)) {
                Ok(field) => Ok(done.push(field)),
                Err(e) => Err(e),
            },
        }
    }
}

/// The shape of a variant's fields.
pub open spec fn shape_of(fields: Fields) -> FieldsType {
    match fields {
        Fields::Named(_) => FieldsType::Named,
        Fields::Unnamed(_) => FieldsType::Unnamed,
        Fields::Unit => FieldsType::Unit,
    }
}

/// A variant whose fields passed the `#[from]` rules.
pub struct CheckedFields {
    pub fields: Seq<WrappedField>,
    pub from_attribute: Option<FromAttribute>,
}

/// What the first check yields for a variant.
///
/// Its fields are checked in order. If one of them has `#[from]`, it has to
/// be the only field, and it is then the variant's `#[from]` attribute.
pub open spec fn checked_fields(variant: Variant) -> Result<CheckedFields, DeriveError> {
    let raw = variant.fields.list();
    match classify_fields(raw, raw.len() as int) {
        Err(e) => Err(e),
        Ok(fields) => if !has_cause(fields) {
            Ok(CheckedFields { fields, from_attribute: None })
        } else if fields.len() > 1 {
            Err(
                DeriveError {
                    kind: ErrorKind::NonCauseFieldsNotPermitted,
                    span: variant.span,
                    note: None,
                },
            )
        } else {
            Ok(CheckedFields { fields, from_attribute: Some(fields[0].spec_info()) })
        },
    }
}

/// Checked fields keep the order, the names, the types and the regions of
/// the fields they came from, and at most one of them has `#[from]`.
pub proof fn lemma_classify_fields(fields: Seq<Field>, n: int)
    requires
        0 <= n <= fields.len(),
    ensures
        classify_fields(fields, n) matches Ok(done) ==> {
            &&& done.len() == n
            &&& forall|i: int| 0 <= i < n ==> (#[trigger] done[i]).spec_info() == info_of(fields[i])
            &&& forall|i: int, j: int|
                0 <= i < n && 0 <= j < n && (#[trigger] done[i]) is FromAttribute && (
                #[trigger] done[j]) is FromAttribute ==> i == j
        },
    decreases n,
{
    if n > 0 {
        lemma_classify_fields(fields, n - 1);
    }
}

/// The two checks in turn: the fields first, then the variant's own
/// attributes.
pub open spec fn checked_variant(variant: Variant) -> Result<VariantModel, DeriveError> {
    match checked_fields(variant) {
        Err(e) => Err(e),
        Ok(step) => match message_of(variant.attrs@, variant.span, step.from_attribute is Some) {
            Err(e) => Err(e),
            Ok(error_attribute) => Ok(
                VariantModel {
                    ident: variant.ident@,
                    shape: shape_of(variant.fields),
                    fields: step.fields,
                    from_attribute: step.from_attribute,
                    error_attribute,
                },
            ),
        },
    }
}

/// A method to build a `WrappedVariant`.
pub struct WrappedVariantBuilder {
    pub variant: Variant,
}

impl WrappedVariantBuilder {
    /// Creates a new `WrappedVariantBuilder` around a given `Variant`.
    pub fn new(variant: Variant) -> (builder: Self)
        ensures
            builder.variant == variant,
    {
        WrappedVariantBuilder { variant }
    }

    /// Attempts to run all build steps to make a `WrappedVariant`.
    pub fn build(self) -> (result: Result<WrappedVariant, DeriveError>)
        ensures
            match checked_variant(self.variant) {
                Ok(model) => result matches Ok(built) && built@ == model,
                Err(e) => result == Err::<WrappedVariant, DeriveError>(e),
            },
            result matches Ok(built) ==> built@.wf(),
            result matches Ok(built) ==> self.variant.names_its_fields()
                ==> built@.names_its_fields(),
    {
        let ghost variant = self.variant;
        let from_attr_checked = match FromAttributeCheck::check_fields(self.variant) {
            Ok(step) => step,
            Err(e) => {
                return Err(e);
            },
        };
        let error_attr_checked = match ErrorAttributeCheck::check_errors(from_attr_checked) {
            Ok(step) => step,
            Err(e) => {
                return Err(e);
            },
        };
        let built = error_attr_checked.finish();
        proof {
            lemma_checked_is_well_formed(variant);
        }
        Ok(built)
    }
}

/// Step 1: check a variant and its fields.
///
/// Checks that, if a variant has a `from` attribute, it has no more fields.
pub struct FromAttributeCheck {
    /// Not all variants use a `#[from]` attribute.
    pub from_attribute: Option<FromAttribute>,
    pub ident: String,
    pub span: Span,
    pub fields: WrappedFields,
    pub unparsed_attrs: Vec<Attribute>,
}

/// Checks the fields of one variant in order.
fn check_each(fields: Vec<Field>) -> (result: Result<Vec<WrappedField>, DeriveError>)
    ensures
        match classify_fields(fields@, fields@.len() as int) {
            Ok(done) => result matches Ok(list) && list@ == done,
            Err(e) => result == Err::<Vec<WrappedField>, DeriveError>(e),
        },
{
    let ghost raw = fields@;
    let mut checked: Vec<WrappedField> = Vec::new();
    let mut cause_seen = false;
    for field in it: fields.into_iter()
        invariant
            it.seq() == raw,
            classify_fields(raw, it.index() as int) == Ok::<Seq<WrappedField>, DeriveError>(
                checked@,
            ),
            cause_seen == has_cause(checked@),
    {
        let ghost before = checked@;
        match WrappedFieldBuilder::new(field).scan_for_froms(cause_seen) {
            Ok(wrapped) => {
                if wrapped.has_from_attribute() {
                    cause_seen = true;
                }
                checked.push(wrapped);
                proof {
                    assert(checked@ == before.push(wrapped));
                    if wrapped is FromAttribute {
                        assert(checked@[before.len() as int] is FromAttribute);
                    } else if has_cause(checked@) {
                        let i = choose|i: int|
                            0 <= i < checked@.len() && (#[trigger] checked@[i]) is FromAttribute;
                        assert(before[i] is FromAttribute);
                    } else if has_cause(before) {
                        let i = choose|i: int|
                            0 <= i < before.len() && (#[trigger] before[i]) is FromAttribute;
                        assert(checked@[i] is FromAttribute);
                    }
                }
            },
            Err(e) => {
                proof {
                    assert(classify_fields(raw, it.index() as int + 1) is Err);
                    lemma_classify_fields_stays_err(raw, it.index() as int + 1, raw.len() as int);
                }
                return Err(e);
            },
        }
    }
    Ok(checked)
}

/// Once a field has failed, the fields after it change nothing.
proof fn lemma_classify_fields_stays_err(fields: Seq<Field>, n: int, m: int)
    requires
        0 <= n <= m,
        classify_fields(fields, n) is Err,
    ensures
        classify_fields(fields, m) == classify_fields(fields, n),
    decreases m - n,
{
    if n < m {
        lemma_classify_fields_stays_err(fields, n, m - 1);
    }
}

impl FromAttributeCheck {
    /// Checks the given variant using the `#[from]` rules.
    pub fn check_fields(variant: Variant) -> (result: Result<Self, DeriveError>)
        ensures
            match checked_fields(variant) {
                Ok(checked) => {
                    &&& result matches Ok(step)
                    &&& step.ident == variant.ident
                    &&& step.span == variant.span
                    &&& step.unparsed_attrs == variant.attrs
                    &&& step.fields.shape() == shape_of(variant.fields)
                    &&& step.fields.list() == checked.fields
                    &&& step.from_attribute == checked.from_attribute
                },
                Err(e) => result == Err::<Self, DeriveError>(e),
            },
    {
        let Variant { ident: vident, fields: vfields, attrs: vattrs, span } = variant;
        let (fields_type, raw) = match vfields {
            Fields::Named(list) => (FieldsType::Named, list),
            Fields::Unnamed(list) => (FieldsType::Unnamed, list),
            Fields::Unit => (FieldsType::Unit, Vec::new()),
        };
        // handles the attribute count check internally
        let fields = match check_each(raw) {
            Ok(fields) => fields,
            Err(e) => {
                return Err(e);
            },
        };
        let mut from: Option<FromAttribute> = None;
        if Self::any_from(&fields) {
            if fields.len() > 1 {
                return Err(Self::err_nonfrom_fields_not_permitted(span));
            }
            // nope, we're clear! the one field is the one with `#[from]`

            from = Some(fields[0].info().clone());
        }
        let wrapped_fields = match fields_type {
            FieldsType::Named => WrappedFields::Named(fields),
            FieldsType::Unnamed => WrappedFields::Unnamed(fields),
            FieldsType::Unit => WrappedFields::Unit,
        };
        Ok(
            FromAttributeCheck {
                ident: vident,
                from_attribute: from,
                fields: wrapped_fields,
                span,
                unparsed_attrs: vattrs,
            },
        )
    }

    /// Whether any of the fields has `#[from]`.
    fn any_from(fields: &Vec<WrappedField>) -> (any: bool)
        ensures
            any == has_cause(fields@),
    {
        let mut i: usize = 0;
        while i < fields.len()
            invariant
                i <= fields.len(),
                forall|j: int| 0 <= j < i ==> !((#[trigger] fields@[j]) is FromAttribute),
            decreases fields.len() - i,
        {
            if fields[i].has_from_attribute() {
                return true;
            }
            i += 1;
        }
        false
    }

    /// An error asking users to remove additional fields when using the from
    /// attribute.
    pub fn err_nonfrom_fields_not_permitted(field_span: Span) -> (err: DeriveError)
        ensures
            err == (DeriveError {
                kind: ErrorKind::NonCauseFieldsNotPermitted,
                span: field_span,
                note: None,
            }),
    {
        DeriveError::new(ErrorKind::NonCauseFieldsNotPermitted, field_span)
    }
}

/// What the second check yields for a variant's own attributes.
///
/// There has to be exactly one `#[error(...)]`: none is an error at the
/// variant, a second one an error at that second one. Its arguments may not
/// be empty. The single word `transparent` asks for the message of the
/// `#[from]` field, which the variant then has to have; anything else is
/// taken as the arguments of `format!`.
pub open spec fn message_of(attrs: Seq<Attribute>, span: Span, has_from: bool) -> Result<
    ErrorAttribute,
    DeriveError,
> {
    let first = first_named(attrs, "error"@, 0);
    if first >= attrs.len() {
        Err(DeriveError { kind: ErrorKind::MissingMessageAttribute, span, note: None })
    } else {
        let second = first_named(attrs, "error"@, first + 1);
        if second < attrs.len() {
            Err(
                DeriveError {
                    kind: ErrorKind::MultipleMessageAttributes,
                    span: attrs[second].span,
                    note: None,
                },
            )
        } else {
            match attrs[first].meta {
                Meta::List(tokens) if tokens@.len() > 0 => {
                    if tokens@ != "transparent"@ {
                        Ok(ErrorAttribute::Stringy(tokens))
                    } else if has_from {
                        Ok(ErrorAttribute::Transparent)
                    } else {
                        Err(
                            DeriveError {
                                kind: ErrorKind::TransparentRequiresCause,
                                span: attrs[first].span,
                                note: None,
                            },
                        )
                    }
                },
                _ => Err(
                    DeriveError {
                        kind: if has_from {
                            ErrorKind::EmptyMessageAttributeOnCauseVariant
                        } else {
                            ErrorKind::EmptyMessageAttribute
                        },
                        span: attrs[first].span,
                        note: None,
                    },
                ),
            }
        }
    }
}

/// Step 2: check a variant for an error attribute.
///
/// Checks that the variant has one, and that it either holds a message or is
/// `#[error(transparent)]` on a variant with a `#[from]` field.
pub struct ErrorAttributeCheck {
    pub ident: String,
    pub fields: WrappedFields,
    pub from_attribute: Option<FromAttribute>,
    pub error_attribute: ErrorAttribute,
}

impl ErrorAttributeCheck {
    pub fn check_errors(variant: FromAttributeCheck) -> (result: Result<Self, DeriveError>)
        ensures
            match message_of(
                variant.unparsed_attrs@,
                variant.span,
                variant.from_attribute is Some,
            ) {
                Ok(message) => {
                    &&& result matches Ok(step)
                    &&& step.ident == variant.ident
                    &&& step.fields == variant.fields
                    &&& step.from_attribute == variant.from_attribute
                    &&& step.error_attribute == message
                },
                Err(e) => result == Err::<Self, DeriveError>(e),
            },
    {
        let FromAttributeCheck { from_attribute, ident, span, fields, unparsed_attrs: attrs } =
            variant;
        let first = find_named(&attrs, "error", 0);
        if first >= attrs.len() {
            return Err(Self::err_missing_error_attr(span));
        }
        proof {
            lemma_first_named(attrs@, "error"@, 0);
        }
        let second = find_named(&attrs, "error", first + 1);
        if second < attrs.len() {
            return Err(Self::err_multiple_error_attrs(&attrs[second]));
        }
        let attr = &attrs[first];
        let error_attribute = match &attr.meta {
            Meta::List(tokens) => {
                // make sure the attribute has something inside it
                if tokens.as_str().is_empty() {
                    return Err(Self::err_empty(attr, from_attribute.is_some()));
                }
                // check if we're stringy or just have `transparent`

                if crate::text::same_text(tokens.as_str(), ErrorAttribute::TRANSPARENT_LITERAL) {
                    // ok now make sure we have a `#[from]` attr
                    if from_attribute.is_none() {
                        return Err(Self::err_transparent_requires_from_variant(attr));
                    }
                    ErrorAttribute::Transparent
                } else {
                    ErrorAttribute::Stringy(tokens.clone())
                }
            },
            _ => {
                return Err(Self::err_empty(attr, from_attribute.is_some()));
            },
        };
        Ok(ErrorAttributeCheck { ident, fields, from_attribute, error_attribute })
    }

    /// Since this is the last step, this creates the `WrappedVariant`.
    pub fn finish(self) -> (variant: WrappedVariant)
        ensures
            variant.ident == self.ident,
            variant.fields == self.fields,
            variant.from_attribute == self.from_attribute,
            variant.error_attribute == self.error_attribute,
    {
        WrappedVariant {
            ident: self.ident,
            fields: self.fields,
            from_attribute: self.from_attribute,
            error_attribute: self.error_attribute,
        }
    }

    /// The error for an attribute with nothing to display: one wording for a
    /// variant with a `#[from]` field, another for one without.
    fn err_empty(attr: &Attribute, has_from: bool) -> (err: DeriveError)
        ensures
            err == (DeriveError {
                kind: if has_from {
                    ErrorKind::EmptyMessageAttributeOnCauseVariant
                } else {
                    ErrorKind::EmptyMessageAttribute
                },
                span: attr.span,
                note: None,
            }),
    {
        if has_from {
            Self::err_nothing_to_display_from(attr)
        } else {
            Self::err_nothing_to_display(attr)
        }
    }

    pub fn err_missing_error_attr(span: Span) -> (err: DeriveError)
        ensures
            err == (DeriveError { kind: ErrorKind::MissingMessageAttribute, span, note: None }),
    {
        DeriveError::new(ErrorKind::MissingMessageAttribute, span)
    }

    pub fn err_multiple_error_attrs(second_attr: &Attribute) -> (err: DeriveError)
        ensures
            err == (DeriveError {
                kind: ErrorKind::MultipleMessageAttributes,
                span: second_attr.span,
                note: None,
            }),
    {
        DeriveError::new(ErrorKind::MultipleMessageAttributes, second_attr.span)
    }

    pub fn err_nothing_to_display(attr: &Attribute) -> (err: DeriveError)
        ensures
            err == (DeriveError {
                kind: ErrorKind::EmptyMessageAttribute,
                span: attr.span,
                note: None,
            }),
    {
        DeriveError::new(ErrorKind::EmptyMessageAttribute, attr.span)
    }

    pub fn err_nothing_to_display_from(attr: &Attribute) -> (err: DeriveError)
        ensures
            err == (DeriveError {
                kind: ErrorKind::EmptyMessageAttributeOnCauseVariant,
                span: attr.span,
                note: None,
            }),
    {
        DeriveError::new(ErrorKind::EmptyMessageAttributeOnCauseVariant, attr.span)
    }

    pub fn err_transparent_requires_from_variant(attr: &Attribute) -> (err: DeriveError)
        ensures
            err == (DeriveError {
                kind: ErrorKind::TransparentRequiresCause,
                span: attr.span,
                note: None,
            }),
    {
        DeriveError::new(ErrorKind::TransparentRequiresCause, attr.span)
    }
}

/// A variant that passed both checks.
#[derive(Debug, PartialEq)]
pub struct WrappedVariant {
    pub ident: String,
    pub fields: WrappedFields,
    pub from_attribute: Option<FromAttribute>,
    pub error_attribute: ErrorAttribute,
}

impl View for WrappedVariant {
    type V = VariantModel;

    open spec fn view(&self) -> VariantModel {
        VariantModel {
            ident: self.ident@,
            shape: self.fields.shape(),
            fields: self.fields.list(),
            from_attribute: self.from_attribute,
            error_attribute: self.error_attribute,
        }
    }
}

impl WrappedVariant {
    /// Creates the path for this variant given the enum identifer.
    ///
    /// Paths look like: `EnumName::Variant`, with no extras.
    pub fn variant_path(&self, enum_ident: &str) -> (path: Path)
        ensures
            !path.leading_colon,
            path.names() == seq![enum_ident@, self.ident@],
            path.text() == path_text(enum_ident@, self.ident@),
    {
        let mut segments: Vec<String> = Vec::new();
        segments.push(String::from_str(enum_ident));
        segments.push(self.ident.clone());
        let path = Path { leading_colon: false, segments };
        proof {
            let names = path.names();
            assert(names =~= seq![enum_ident@, self.ident@]);
            assert(names.drop_last() =~= seq![enum_ident@]);
            assert(joined(names.drop_last(), "::"@) == enum_ident@);
            assert(path.text() =~= path_text(enum_ident@, self.ident@));
        }
        path
    }

    /// Makes the head of a match arm. That is: `ThisPart(_, _) => { ... }`
    pub fn match_head(&self, enum_ident: &str) -> (text: String)
        ensures
            text@ == self@.head_pattern(enum_ident@).text(),
    {
        let mut out = self.variant_path(enum_ident).to_string();
        match &self.fields {
            WrappedFields::Named(_) => {
                out.append("{..}");
                proof {
                    lemma_rest_text();
                }
            },
            WrappedFields::Unnamed(fields) => {
                push_skips(&mut out, fields.len());
            },
            WrappedFields::Unit => {
                proof {
                    assert(out@ =~= out@ + Destructure::Unit.text());
                }
            },
        }
        out
    }

    /// A match head that's filled with identifiers. For example:
    /// `SomeEnum::SomeVariant(ref _0, ref _1, ref _2)`
    pub fn filled_match_head(&self, enum_ident: &str) -> (text: String)
        ensures
            text@ == self@.filled_pattern(enum_ident@).text(),
    {
        let mut out = self.variant_path(enum_ident).to_string();
        match &self.fields {
            WrappedFields::Named(fields) => {
                let mut names: Vec<String> = Vec::new();
                let mut i: usize = 0;
                while i < fields.len()
                    invariant
                        i <= fields.len(),
                        names@.len() == i,
                        self.fields == WrappedFields::Named(*fields),
                        forall|j: int| 0 <= j < i ==> (#[trigger] names@[j])@ == self@.binding(j),
                    decreases fields.len() - i,
                {
                    let name = match &fields[i].info().ident {
                        Some(name) => name.clone(),
                        None => String::new(),
                    };
                    names.push(name);
                    i += 1;
                }
                proof {
                    let braces = Destructure::Braces(
                        Seq::new(fields@.len(), |i: int| self@.binding(i)),
                    );
                    assert(ref_items(names@) =~= braces.items());
                }
                push_refs(&mut out, "{", &names, "}");
            },
            WrappedFields::Unnamed(fields) => {
                let names = positional_names(fields.len());
                proof {
                    let parens = Destructure::Parens(
                        Seq::new(fields@.len(), |i: int| Binder::Ref(self@.binding(i))),
                    );
                    assert(ref_items(names@) =~= parens.items());
                }
                push_refs(&mut out, "(", &names, ")");
            },
            WrappedFields::Unit => {
                proof {
                    assert(out@ =~= out@ + Destructure::Unit.text());
                }
            },
        }
        out
    }
}

/// A variant that passed the checks is well formed.
pub proof fn lemma_checked_is_well_formed(variant: Variant)
    requires
        checked_variant(variant) is Ok,
    ensures
        checked_variant(variant)->Ok_0.wf(),
        variant.names_its_fields() ==> checked_variant(variant)->Ok_0.names_its_fields(),
{
    let raw = variant.fields.list();
    lemma_classify_fields(raw, raw.len() as int);
    let fields = classify_fields(raw, raw.len() as int)->Ok_0;
    if has_cause(fields) {
        assert(fields[0] is FromAttribute);
        assert(fields =~= seq![WrappedField::FromAttribute(fields[0].spec_info())]);
    }
    let model = checked_variant(variant)->Ok_0;
    if model.from_attribute is Some {
        assert(model.fields[0] is FromAttribute);
    }
    if variant.names_its_fields() {
        assert forall|i: int| 0 <= i < model.fields.len() implies ((
        #[trigger] model.fields[i]).spec_info().ident is Some <==> model.shape is Named) by {
            assert(model.fields[i].spec_info() == info_of(raw[i]));
        }
    }
}

} // verus!
