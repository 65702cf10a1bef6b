//! Fields, and the check for the `#[from]` attribute on each of them.

use std::marker::PhantomData;
use vstd::prelude::*;
use crate::diagnostic::{DeriveError, ErrorKind};
use crate::span::Span;
use crate::syntax::{find_named, first_named, lemma_first_named, Attribute, Field, Meta, Type};

verus! {

/// Like [`crate::syntax::Fields`], with every field checked.
#[derive(Debug, PartialEq)]
pub enum WrappedFields {
    Named(Vec<WrappedField>),
    Unnamed(Vec<WrappedField>),
    Unit,
}

impl WrappedFields {
    /// The fields in declaration order; none for a unit variant.
    pub open spec fn list(&self) -> Seq<WrappedField> {
        match *self {
            WrappedFields::Named(fields) => fields@,
            WrappedFields::Unnamed(fields) => fields@,
            WrappedFields::Unit => Seq::empty(),
        }
    }

    /// The shape, without the fields.
    pub open spec fn shape(&self) -> FieldsType {
        match *self {
            WrappedFields::Named(_) => FieldsType::Named,
            WrappedFields::Unnamed(_) => FieldsType::Unnamed,
            WrappedFields::Unit => FieldsType::Unit,
        }
    }
}

/// The shape of a variant, without its fields.
#[derive(Clone, Copy, Debug, PartialEq, Eq, Structural)]
pub enum FieldsType {
    Named,
    Unnamed,
    Unit,
}

/// A step in the building of a field.
pub trait FieldBuildingStep {
}

/// The step before a builder exists.
pub struct CreationStep {}

/// The step at which a field is scanned for `#[from]`.
pub struct FromScanStep {}

impl FieldBuildingStep for CreationStep {
}

impl FieldBuildingStep for FromScanStep {
}

/// What a field is, apart from its attributes.
///
/// Two fields are equal if they have the same name and the same type,
/// wherever they stand.
#[derive(Debug)]
pub struct WrappedFieldInfo {
    pub ident: Option<String>,
    pub ty: Type,
    pub span: Span,
}

impl PartialEq for WrappedFieldInfo {
    fn eq(&self, other: &Self) -> (equal: bool) {
        let same_ident = match (&self.ident, &other.ident) {
            (Some(a), Some(b)) => *a == *b,
            (None, None) => true,
            _ => false,
        };
        same_ident && self.ty == other.ty
    }
}

impl vstd::std_specs::cmp::PartialEqSpecImpl for WrappedFieldInfo {
    open spec fn obeys_eq_spec() -> bool {
        true
    }

    open spec fn eq_spec(&self, other: &Self) -> bool {
        &&& self.ident is Some <==> other.ident is Some
        &&& self.ident matches Some(a) ==> a@ == other.ident->0@
        &&& self.ty.same_as(&other.ty)
    }
}

impl Clone for WrappedFieldInfo {
    fn clone(&self) -> (copy: Self)
        ensures
            copy == *self,
    {
        let ident = match &self.ident {
            Some(name) => Some(name.clone()),
            None => None,
        };
        WrappedFieldInfo { ident, ty: self.ty.clone(), span: self.span }
    }
}

/// A checked field.
#[derive(Debug, PartialEq)]
pub enum WrappedField {
    /// A field without `#[from]`.
    Typical(WrappedFieldInfo),
    /// The field that the variant was made from: it has `#[from]`.
    FromAttribute(WrappedFieldInfo),
}

impl WrappedField {
    /// What the field is, whichever way it was marked.
    pub open spec fn spec_info(&self) -> WrappedFieldInfo {
        match *self {
            WrappedField::Typical(info) => info,
            WrappedField::FromAttribute(info) => info,
        }
    }

    /// Checks if this field has the `#[from]` attribute.
    pub fn has_from_attribute(&self) -> (has: bool)
        ensures
            has == (*self is FromAttribute),
    {
        match self {
            WrappedField::FromAttribute(_) => true,
            WrappedField::Typical(_) => false,
        }
    }

    pub fn info(&self) -> (info: &WrappedFieldInfo)
        ensures
            *info == self.spec_info(),
    {
        match self {
            WrappedField::Typical(info) => info,
            WrappedField::FromAttribute(info) => info,
        }
    }

    pub fn into_info(self) -> (info: WrappedFieldInfo)
        ensures
            info == self.spec_info(),
    {
        match self {
            WrappedField::Typical(info) => info,
            WrappedField::FromAttribute(info) => info,
        }
    }
}

/// What checking a field yields.
///
/// `cause_seen` tells whether an earlier field of the same variant already
/// has `#[from]`. A field without `#[from]` is typical. Otherwise the first
/// `#[from]` on it decides: it is one too many if the variant has one
/// already; it may have no arguments; the field's type may not be a reference
/// with a lifetime other than `'static`; and no second `#[from]` may follow
/// it on the field.
pub open spec fn classify(
    info: WrappedFieldInfo,
    attrs: Seq<Attribute>,
    cause_seen: bool,
) -> Result<WrappedField, DeriveError> {
    let first = first_named(attrs, "from"@, 0);
    if first >= attrs.len() {
        Ok(WrappedField::Typical(info))
    } else if cause_seen {
        Err(DeriveError { kind: ErrorKind::DuplicateCauseAttribute, span: info.span, note: None })
    } else if !(attrs[first].meta is Path) {
        Err(
            DeriveError {
                kind: ErrorKind::CauseAttributeTakesNoArguments,
                span: attrs[first].span,
                note: None,
            },
        )
    } else if info.ty.borrows_briefly() {
        Err(
            DeriveError {
                kind: ErrorKind::NonStaticCauseLifetime,
                span: info.span,
                note: Some(info.ty->Reference_lifetime->0.span),
            },
        )
    } else if first_named(attrs, "from"@, first + 1) < attrs.len() {
        Err(DeriveError { kind: ErrorKind::DuplicateCauseAttribute, span: info.span, note: None })
    } else {
        Ok(WrappedField::FromAttribute(info))
    }
}

/// What a field is, apart from its attributes.
pub open spec fn info_of(field: Field) -> WrappedFieldInfo {
    WrappedFieldInfo { ident: field.ident, ty: field.ty, span: field.span }
}

/// Builds a [`WrappedField`] from a field.
pub struct WrappedFieldBuilder<T: FieldBuildingStep> {
    pub field: Field,
    pub _step: PhantomData<T>,
}

impl<T: FieldBuildingStep> WrappedFieldBuilder<T> {
    /// Takes the info and attributes from a given field, consuming the field.
    pub fn field_info_and_attrs(field: Field) -> (parts: (WrappedFieldInfo, Vec<Attribute>))
        ensures
            parts.0 == info_of(field),
            parts.1 == field.attrs,
    {
        let Field { ident, ty, attrs, span } = field;
        (WrappedFieldInfo { ident, ty, span }, attrs)
    }

    pub fn err_too_many_from_attributes(field_span: &Span) -> (err: DeriveError)
        ensures
            err == (DeriveError {
                kind: ErrorKind::DuplicateCauseAttribute,
                span: *field_span,
                note: None,
            }),
    {
        DeriveError::new(ErrorKind::DuplicateCauseAttribute, *field_span)
    }
}

impl WrappedFieldBuilder<CreationStep> {
    pub fn new(field: Field) -> (builder: WrappedFieldBuilder<FromScanStep>)
        ensures
            builder.field == field,
    {
        WrappedFieldBuilder { field, _step: PhantomData }
    }
}

impl WrappedFieldBuilder<FromScanStep> {
    /// Checks this field for a `from` attribute, knowing whether an earlier
    /// field of the variant has one. Returns an error if the `from` rules are
    /// violated.
    pub fn scan_for_froms(self, cause_seen: bool) -> (result: Result<WrappedField, DeriveError>)
        ensures
            result == classify(info_of(self.field), self.field.attrs@, cause_seen),
    {
        let split = FromAttributeSplit::split_field(self.field);
        match FromAttributeCheck::check_from(split, cause_seen) {
            Ok(checked) => Ok(checked.finish()),
            Err(e) => Err(e),
        }
    }

    /// Runs all build steps to create a `WrappedField` from a field that
    /// stands alone.
    pub fn build(self) -> (result: Result<WrappedField, DeriveError>)
        ensures
            result == classify(info_of(self.field), self.field.attrs@, false),
    {
        self.scan_for_froms(false)
    }
}

/// A field taken apart.
pub struct FromAttributeSplit {
    pub field_info: WrappedFieldInfo,
    pub attributes: Vec<Attribute>,
}

impl FromAttributeSplit {
    /// Takes the info and attributes from a given field, consuming the field.
    pub fn split_field(field: Field) -> (split: Self)
        ensures
            split.field_info == info_of(field),
            split.attributes == field.attrs,
    {
        let (field_info, attributes) = WrappedFieldBuilder::<FromScanStep>::field_info_and_attrs(
            field,
        );
        FromAttributeSplit { field_info, attributes }
    }
}

/// A field whose `#[from]` attributes were found in order.
pub struct FromAttributeCheck {
    pub wrapped_field: WrappedField,
}

impl FromAttributeCheck {
    /// Checks this field for a `from` attribute. Returns an error if the
    /// `from` rules are violated.
    pub fn check_from(split: FromAttributeSplit, cause_seen: bool) -> (result: Result<
        Self,
        DeriveError,
    >)
        ensures
            match classify(split.field_info, split.attributes@, cause_seen) {
                Ok(field) => result matches Ok(checked) && checked.wrapped_field == field,
                Err(e) => result == Err::<Self, DeriveError>(e),
            },
    {
        let FromAttributeSplit { field_info, attributes: attrs } = split;
        let first = find_named(&attrs, "from", 0);
        if first >= attrs.len() {
            return Ok(FromAttributeCheck { wrapped_field: WrappedField::Typical(field_info) });
        }
        proof {
            lemma_first_named(attrs@, "from"@, 0);
        }
        if cause_seen {
            return Err(Self::err_too_many_from_attributes(field_info.span));
        }
        // check if the attr has some args

        match attrs[first].meta {
            Meta::List(_) | Meta::NameValue => {
                return Err(Self::err_from_attribute_has_args(attrs[first].span));
            },
            Meta::Path => {},
        }
        // a reference that names a lifetime has to name 'static

        if let Type::Reference { lifetime: Some(lt), .. } = &field_info.ty {
            if !crate::text::same_text(lt.ident.as_str(), "static") {
                return Err(
                    Self::err_from_attribute_field_has_nonstatic_lifetime(field_info.span, lt.span),
                );
            }
        }
        if find_named(&attrs, "from", first + 1) < attrs.len() {
            return Err(Self::err_too_many_from_attributes(field_info.span));
        }
        Ok(FromAttributeCheck { wrapped_field: WrappedField::FromAttribute(field_info) })
    }

    pub fn err_too_many_from_attributes(field_span: Span) -> (err: DeriveError)
        ensures
            err == (DeriveError {
                kind: ErrorKind::DuplicateCauseAttribute,
                span: field_span,
                note: None,
            }),
    {
        DeriveError::new(ErrorKind::DuplicateCauseAttribute, field_span)
    }

    pub fn err_from_attribute_has_args(attribute_span: Span) -> (err: DeriveError)
        ensures
            err == (DeriveError {
                kind: ErrorKind::CauseAttributeTakesNoArguments,
                span: attribute_span,
                note: None,
            }),
    {
        DeriveError::new(ErrorKind::CauseAttributeTakesNoArguments, attribute_span)
    }

    pub fn err_from_attribute_field_has_nonstatic_lifetime(field_span: Span, lt_span: Span) -> (err:
        DeriveError)
        ensures
            err == (DeriveError {
                kind: ErrorKind::NonStaticCauseLifetime,
                span: field_span,
                note: Some(lt_span),
            }),
    {
        DeriveError { kind: ErrorKind::NonStaticCauseLifetime, span: field_span, note: Some(lt_span) }
    }

    /// Returns the created WrappedField, consuming `self`.
    pub fn finish(self) -> (field: WrappedField)
        ensures
            field == self.wrapped_field,
    {
        self.wrapped_field
    }
}

} // verus!
