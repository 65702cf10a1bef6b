//! The checked enum as the generators see it: the mathematical value that a
//! [`crate::parser::UserEnum`] stands for.

use vstd::prelude::*;
use crate::parser::attr::{ErrorAttribute, FromAttribute};
use crate::parser::field::{FieldsType, WrappedField};
use crate::pattern::{positional_name, Binder, Destructure, Pattern};
use crate::span::Span;
use crate::syntax::GenericsModel;

verus! {

/// Some field of the list has `#[from]`.
pub open spec fn has_cause(fields: Seq<WrappedField>) -> bool {
    exists|i: int| 0 <= i < fields.len() && (#[trigger] fields[i]) is FromAttribute
}

/// A variant that passed the checks.
pub struct VariantModel {
    pub ident: Seq<char>,
    /// Whether the fields stand between braces, between parentheses, or are
    /// not there at all.
    pub shape: FieldsType,
    /// The fields in declaration order.
    pub fields: Seq<WrappedField>,
    /// The field with `#[from]`, if the variant has one.
    pub from_attribute: Option<FromAttribute>,
    /// What `#[error(...)]` asks for.
    pub error_attribute: ErrorAttribute,
}

impl VariantModel {
    /// What holds of every variant that passed the checks: a `#[from]` field
    /// is the only field and is the variant's `#[from]` attribute; without
    /// one the variant has no `#[from]` attribute; a variant without fields
    /// has none; `transparent` goes with a `#[from]` field only; a message is
    /// never empty.
    pub open spec fn wf(self) -> bool {
        &&& has_cause(self.fields) <==> self.from_attribute is Some
        &&& self.from_attribute matches Some(info) ==> self.fields =~= seq![
            WrappedField::FromAttribute(info),
        ]
        &&& self.shape is Unit ==> self.fields.len() == 0
        &&& self.error_attribute is Transparent ==> self.from_attribute is Some
        &&& self.error_attribute matches ErrorAttribute::Stringy(tokens) ==> tokens@.len() > 0
    }

    /// Every field between braces has a name and no field between
    /// parentheses has one, as the language has it.
    pub open spec fn names_its_fields(self) -> bool {
        forall|i: int|
            0 <= i < self.fields.len() ==> ((#[trigger] self.fields[i]).spec_info().ident is Some
                <==> self.shape is Named)
    }

    /// The pattern that accepts this variant whatever its fields hold, and
    /// binds none of them.
    pub open spec fn head_pattern(self, enum_ident: Seq<char>) -> Pattern {
        Pattern::Variant {
            enum_ident,
            variant_ident: self.ident,
            fields: match self.shape {
                FieldsType::Named => Destructure::Rest,
                FieldsType::Unnamed => Destructure::Parens(
                    Seq::new(self.fields.len(), |i: int| Binder::Skip),
                ),
                FieldsType::Unit => Destructure::Unit,
            },
        }
    }

    /// The name that the filled pattern binds field `i` to: the field's own
    /// name between braces, `_` and the field's position between parentheses.
    pub open spec fn binding(self, i: int) -> Seq<char> {
        match self.shape {
            FieldsType::Named => match self.fields[i].spec_info().ident {
                Some(name) => name@,
                None => Seq::empty(),
            },
            _ => positional_name(i as nat),
        }
    }

    /// The pattern that accepts this variant and binds every field of it by
    /// reference.
    pub open spec fn filled_pattern(self, enum_ident: Seq<char>) -> Pattern {
        Pattern::Variant {
            enum_ident,
            variant_ident: self.ident,
            fields: match self.shape {
                FieldsType::Named => Destructure::Braces(
                    Seq::new(self.fields.len(), |i: int| self.binding(i)),
                ),
                FieldsType::Unnamed => Destructure::Parens(
                    Seq::new(self.fields.len(), |i: int| Binder::Ref(self.binding(i))),
                ),
                FieldsType::Unit => Destructure::Unit,
            },
        }
    }
}

/// An enum that passed the checks.
pub struct EnumModel {
    pub ident: Seq<char>,
    pub generics: GenericsModel,
    /// The region of the whole definition.
    pub span: Span,
    /// The region right after the definition.
    pub after_span: Span,
    /// The variants in declaration order.
    pub variants: Seq<VariantModel>,
}

impl EnumModel {
    /// Every variant is well formed.
    pub open spec fn wf(self) -> bool {
        forall|i: int| 0 <= i < self.variants.len() ==> (#[trigger] self.variants[i]).wf()
    }

    /// In every variant, every field between braces has a name and no field
    /// between parentheses has one.
    pub open spec fn names_its_fields(self) -> bool {
        forall|i: int|
            0 <= i < self.variants.len() ==> (#[trigger] self.variants[i]).names_its_fields()
    }

    /// The variants at `i` and at `j`, two different ones, both convert from
    /// the same type as written: their `From` implementations would clash.
    pub open spec fn conversions_collide(self, i: int, j: int) -> bool {
        &&& 0 <= i < j < self.variants.len()
        &&& self.variants[i].from_attribute is Some
        &&& self.variants[j].from_attribute is Some
        &&& self.variants[i].from_attribute->0.ty.text()
            == self.variants[j].from_attribute->0.ty.text()
    }

    /// The variant at `j` converts from the type that a variant before it
    /// converts from already.
    pub open spec fn repeats_a_source(self, j: int) -> bool {
        exists|i: int| self.conversions_collide(i, j)
    }

    /// The first of the first `n` variants that repeats a source type, if
    /// one of them does.
    pub open spec fn first_repeat(self, n: int) -> Option<int>
        decreases n,
    {
        if n <= 0 {
            None
        } else {
            match self.first_repeat(n - 1) {
                Some(j) => Some(j),
                None => if self.repeats_a_source(n - 1) {
                    Some(n - 1)
                } else {
                    None
                },
            }
        }
    }

    /// No two variants convert from the same type.
    pub open spec fn has_distinct_sources(self) -> bool {
        forall|i: int, j: int| !self.conversions_collide(i, j)
    }

    /// No two variants have the same name, as the language has it.
    pub open spec fn has_distinct_variants(self) -> bool {
        forall|i: int, j: int|
            0 <= i < self.variants.len() && 0 <= j < self.variants.len() && i != j ==> (
            #[trigger] self.variants[i]).ident != (#[trigger] self.variants[j]).ident
    }
}

/// `first_repeat` finds none where no variant repeats a source type; what it
/// finds is a variant that does, before which none does.
pub proof fn lemma_first_repeat(model: EnumModel, n: int)
    requires
        0 <= n <= model.variants.len(),
    ensures
        model.first_repeat(n) is None <==> forall|j: int|
            0 <= j < n ==> !#[trigger] model.repeats_a_source(j),
        model.first_repeat(n) matches Some(j) ==> {
            &&& 0 <= j < n
            &&& model.repeats_a_source(j)
            &&& forall|k: int| 0 <= k < j ==> !#[trigger] model.repeats_a_source(k)
        },
    decreases n,
{
    if n > 0 {
        lemma_first_repeat(model, n - 1);
    }
}

} // verus!
