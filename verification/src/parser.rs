//! Checks a definition and builds the model that the generators read.

use vstd::prelude::*;
use crate::diagnostic::{DeriveError, ErrorKind};
use crate::model::{lemma_first_repeat, EnumModel, VariantModel};
use crate::parser::variant::{
    checked_variant,
    lemma_checked_is_well_formed,
    WrappedVariant,
    WrappedVariantBuilder,
};
use crate::span::Span;
use crate::syntax::{Data, DeriveInput, Generics, Variant};

pub mod attr;
pub mod field;
pub mod variant;

verus! {

/// The error of the first of the first `n` variants that fails a check, if
/// one of them does.
pub open spec fn first_error(variants: Seq<Variant>, n: int) -> Option<DeriveError>
    decreases n,
{
    if n <= 0 {
        None
    } else {
        match first_error(variants, n - 1) {
            Some(e) => Some(e),
            None => match checked_variant(variants[n - 1]) {
                Ok(_) => None,
                Err(e) => Some(e),
            },
        }
    }
}

/// `first_error` finds none where every variant passes; what it finds is the
/// error of a variant before which every variant passes.
pub proof fn lemma_first_error(variants: Seq<Variant>, n: int)
    requires
        0 <= n <= variants.len(),
    ensures
        first_error(variants, n) is None <==> forall|i: int|
            0 <= i < n ==> (#[trigger] checked_variant(variants[i])) is Ok,
        first_error(variants, n) matches Some(e) ==> exists|k: int|
            {
                &&& 0 <= k < n
                &&& #[trigger] checked_variant(variants[k]) == Err::<VariantModel, DeriveError>(e)
                &&& forall|i: int| 0 <= i < k ==> (#[trigger] checked_variant(variants[i])) is Ok
            },
    decreases n,
{
    if n > 0 {
        lemma_first_error(variants, n - 1);
        if first_error(variants, n - 1) is None && checked_variant(variants[n - 1]) is Err {
            assert(checked_variant(variants[n - 1]) == Err::<VariantModel, DeriveError>(
                first_error(variants, n)->0,
            ));
        }
    }
}

/// The enum with each of its variants checked, in declaration order. It
/// says what the definition says where every variant passes its checks.
pub open spec fn assembled(input: DeriveInput) -> EnumModel
    recommends
        input.data is Enum,
{
    EnumModel {
        ident: input.ident@,
        generics: input.generics@,
        span: input.span,
        after_span: input.data->Enum_brace_close,
        variants: Seq::new(
            input.data->Enum_variants@.len(),
            |i: int| checked_variant(input.data->Enum_variants@[i])->Ok_0,
        ),
    }
}

/// What the checks make of a definition.
///
/// Something that is no enum is turned down before any variant is looked
/// at. Then the variants are checked in declaration order, and the first
/// that fails decides the error. Where all of them pass, no two may convert
/// from the same type: the first variant whose `#[from]` field has the type
/// of that of a variant before it is turned down, at that field. What is
/// left is the enum, with each of its variants checked.
pub open spec fn checked_enum(input: DeriveInput) -> Result<EnumModel, DeriveError> {
    match input.data {
        Data::Enum { variants, .. } => match first_error(variants@, variants@.len() as int) {
            Some(e) => Err(e),
            None => match assembled(input).first_repeat(variants@.len() as int) {
                Some(j) => Err(
                    DeriveError {
                        kind: ErrorKind::DuplicateConversionSourceType,
                        span: assembled(input).variants[j].from_attribute->0.span,
                        note: None,
                    },
                ),
                None => Ok(assembled(input)),
            },
        },
        _ => Err(DeriveError { kind: ErrorKind::ExpectedEnum, span: input.span, note: None }),
    }
}

/// An enum that passed the checks is well formed, no two of its variants
/// convert from the same type, and it has the variants of the definition,
/// under their names and in their order.
pub proof fn lemma_checked_enum_is_well_formed(input: DeriveInput)
    requires
        checked_enum(input) is Ok,
    ensures
        checked_enum(input)->Ok_0.wf(),
        checked_enum(input)->Ok_0.has_distinct_sources(),
        input.names_its_fields() ==> checked_enum(input)->Ok_0.names_its_fields(),
        input.data matches Data::Enum { variants, .. } && checked_enum(input)->Ok_0.variants.len()
            == variants@.len() && forall|i: int|
            0 <= i < variants@.len() ==> (#[trigger] checked_enum(input)->Ok_0.variants[i]).ident
                == variants@[i].ident@,
{
    let variants = input.data->Enum_variants@;
    lemma_first_error(variants, variants.len() as int);
    let model = checked_enum(input)->Ok_0;
    assert forall|i: int| 0 <= i < model.variants.len() implies (#[trigger] model.variants[i]).wf()
        && (input.names_its_fields() ==> model.variants[i].names_its_fields()) by {
        assert(checked_variant(variants[i]) is Ok);
        lemma_checked_is_well_formed(variants[i]);
    }
    lemma_first_repeat(model, model.variants.len() as int);
    assert forall|i: int, j: int| !model.conversions_collide(i, j) by {
        if model.conversions_collide(i, j) {
            assert(model.repeats_a_source(j));
        }
    }
}

/// An enum in which two variants convert from the same type is turned down,
/// whatever else it holds: by the error of a variant that fails a check, or
/// else for the clash.
pub proof fn lemma_clash_is_turned_down(input: DeriveInput, i: int, j: int)
    requires
        input.data is Enum,
        assembled(input).conversions_collide(i, j),
    ensures
        checked_enum(input) is Err,
        first_error(input.data->Enum_variants@, input.data->Enum_variants@.len() as int) is None
            ==> checked_enum(input)->Err_0.kind == ErrorKind::DuplicateConversionSourceType,
{
    let model = assembled(input);
    lemma_first_repeat(model, model.variants.len() as int);
    assert(model.repeats_a_source(j));
}

/// The user's enum, checked: what the generators read.
#[derive(Debug, PartialEq)]
pub struct UserEnum {
    pub ident: String,
    pub generics: Generics,
    pub span: Span,
    pub after_span: Span,
    pub variants: Vec<WrappedVariant>,
}

impl View for UserEnum {
    type V = EnumModel;

    open spec fn view(&self) -> EnumModel {
        EnumModel {
            ident: self.ident@,
            generics: self.generics@,
            span: self.span,
            after_span: self.after_span,
            variants: Seq::new(self.variants@.len(), |i: int| self.variants@[i]@),
        }
    }
}

impl UserEnum {
    /// Attempts to parse the user's given enum into its required components.
    ///
    /// Something that is no enum is turned down before any variant is looked
    /// at. The variants are checked in declaration order, and the first that
    /// fails decides the error. Two variants that convert from the same type
    /// are turned down at the `#[from]` field of the second.
    pub fn new(input: DeriveInput) -> (result: Result<Self, DeriveError>)
        ensures
            match checked_enum(input) {
                Ok(model) => result matches Ok(user_enum) && user_enum@ == model,
                Err(e) => result == Err::<Self, DeriveError>(e),
            },
            result matches Ok(user_enum) ==> user_enum@.wf(),
            result matches Ok(user_enum) ==> user_enum@.has_distinct_sources(),
            result matches Ok(user_enum) ==> input.names_its_fields()
                ==> user_enum@.names_its_fields(),
    {
        let DeriveInput { ident, generics, data, span } = input;
        // check if we've been given an enum
        let (raw, after_span) = match data {
            Data::Enum { variants, brace_close } => (variants, brace_close),
            _ => {
                return Err(Self::err_given_non_enum(span));
            },
        };
        let ghost all = raw@;
        let mut variants: Vec<WrappedVariant> = Vec::new();
        // check each variant
        for v in it: raw.into_iter()
            invariant
                it.seq() == all,
                input.data matches Data::Enum { variants: given, .. } && given@ == all,
                first_error(all, it.index() as int) is None,
                variants@.len() == it.index(),
                forall|i: int|
                    0 <= i < it.index() ==> checked_variant(all[i]) == Ok::<
                        VariantModel,
                        DeriveError,
                    >((#[trigger] variants@[i])@),
        {
            match WrappedVariantBuilder::new(v).build() {
                Ok(built) => {
                    variants.push(built);
                },
                Err(e) => {
                    proof {
                        assert(first_error(all, it.index() as int + 1) == Some(e));
                        lemma_first_error_stays(all, it.index() as int + 1, all.len() as int);
                    }
                    return Err(e);
                },
            }
        }
        let user_enum = UserEnum { ident, generics, span, after_span, variants };
        proof {
            assert(user_enum@.variants =~= assembled(input).variants);
            lemma_first_repeat(user_enum@, user_enum@.variants.len() as int);
        }
        // no two variants may convert from the same type
        if let Some((first, second)) = user_enum.colliding_conversions() {
            proof {
                assert(user_enum@.repeats_a_source(second as int));
                let found = user_enum@.first_repeat(user_enum@.variants.len() as int)->0;
                let before = choose|i: int| user_enum@.conversions_collide(i, found);
                assert(user_enum@.conversions_collide(before, found));
                assert(found == second);
            }
            if let Some(info) = &user_enum.variants[second].from_attribute {
                return Err(Self::err_duplicate_conversion_source(info.span));
            }
        }
        proof {
            if user_enum@.first_repeat(user_enum@.variants.len() as int) is Some {
                let found = user_enum@.first_repeat(user_enum@.variants.len() as int)->0;
                let before = choose|i: int| user_enum@.conversions_collide(i, found);
                assert(user_enum@.conversions_collide(before, found));
            }
            lemma_checked_enum_is_well_formed(input);
        }
        Ok(user_enum)
    }

    /// The given enum's identifier (name).
    pub fn ident(&self) -> (ident: String)
        ensures
            ident == self.ident,
    {
        self.ident.clone()
    }

    /// Generic bounds (including lifetimes) on the enum.
    pub fn generics(&self) -> (generics: &Generics)
        ensures
            *generics == self.generics,
    {
        &self.generics
    }

    /// The source region of the given enum.
    pub fn span(&self) -> (span: Span)
        ensures
            span == self.span,
    {
        self.span
    }

    /// A span right outside of the enum's definition.
    pub fn after_span(&self) -> (span: Span)
        ensures
            span == self.after_span,
    {
        self.after_span
    }

    /// The available variants on the given enum.
    pub fn variants(&self) -> (variants: &Vec<WrappedVariant>)
        ensures
            *variants == self.variants,
    {
        &self.variants
    }

    /// An error asking users to leave one conversion for each type.
    pub fn err_duplicate_conversion_source(field_span: Span) -> (err: DeriveError)
        ensures
            err == (DeriveError {
                kind: ErrorKind::DuplicateConversionSourceType,
                span: field_span,
                note: None,
            }),
    {
        DeriveError::new(ErrorKind::DuplicateConversionSourceType, field_span)
    }

    pub fn err_given_non_enum(span: Span) -> (err: DeriveError)
        ensures
            err == (DeriveError { kind: ErrorKind::ExpectedEnum, span, note: None }),
    {
        DeriveError::new(ErrorKind::ExpectedEnum, span)
    }
}

/// Once a variant has failed, the variants after it change nothing.
proof fn lemma_first_error_stays(variants: Seq<Variant>, n: int, m: int)
    requires
        0 <= n <= m,
        first_error(variants, n) is Some,
    ensures
        first_error(variants, m) == first_error(variants, n),
    decreases m - n,
{
    if n < m {
        lemma_first_error_stays(variants, n, m - 1);
    }
}

} // verus!
