//! Implements the `From` trait for the user's error type.

use vstd::prelude::*;
use vstd::string::StringExecFns;
use crate::model::{EnumModel, VariantModel};
use crate::parser::field::{FieldsType, WrappedFields};
use crate::parser::variant::WrappedVariant;
use crate::parser::UserEnum;
use crate::pattern::path_text;
use crate::syntax::{Generics, GenericsModel};

verus! {

/// How a conversion puts the value into its variant.
pub enum Construct {
    /// `Enum::Variant { name: value }`
    Braces(Seq<char>),
    /// `Enum::Variant(value)`
    Parens,
}

/// One `From` implementation: from a value of `source_type` to the variant
/// `variant_ident`, which holds that value and nothing else.
pub struct Conversion {
    pub source_type: Seq<char>,
    pub enum_ident: Seq<char>,
    pub variant_ident: Seq<char>,
    pub construct: Construct,
}

impl Conversion {
    /// The expression that builds the variant from `value`.
    pub open spec fn construct_text(self) -> Seq<char> {
        match self.construct {
            Construct::Braces(name) => path_text(self.enum_ident, self.variant_ident) + " { "@ + name
                + ": value }"@,
            Construct::Parens => path_text(self.enum_ident, self.variant_ident) + "(value)"@,
        }
    }

    /// The path of the trait that the conversion implements.
    pub open spec fn trait_path(self) -> Seq<char> {
        "core::convert::From<"@ + self.source_type + ">"@
    }

    /// The implementation as written, for an enum with the given generic
    /// parameters.
    pub open spec fn text(self, generics: GenericsModel) -> Seq<char> {
        generics.impl_header(self.trait_path(), self.enum_ident) + "fn from(value: "@
            + self.source_type + ") -> Self { "@ + self.construct_text() + " } } "@
    }
}

/// The texts of the conversions, one after the other.
pub open spec fn conversions_text(conversions: Seq<Conversion>, generics: GenericsModel) -> Seq<
    char,
>
    decreases conversions.len(),
{
    if conversions.len() == 0 {
        Seq::empty()
    } else {
        conversions_text(conversions.drop_last(), generics) + conversions.last().text(generics)
    }
}

impl VariantModel {
    /// The conversion into this variant from the type of its `#[from]`
    /// field.
    pub open spec fn conversion(self, enum_ident: Seq<char>) -> Conversion
        recommends
            self.from_attribute is Some,
    {
        Conversion {
            source_type: self.from_attribute->0.ty.text(),
            enum_ident,
            variant_ident: self.ident,
            construct: match self.shape {
                FieldsType::Named => Construct::Braces(self.from_attribute->0.ident->0@),
                _ => Construct::Parens,
            },
        }
    }
}

impl WrappedVariant {
    /// Writes out the `From` implementation for this variant.
    pub fn from_impl(&self, enum_ident: &str, generics: &Generics) -> (text: String)
        requires
            self@.wf(),
            self@.names_its_fields(),
            self.from_attribute is Some,
        ensures
            text@ == self@.conversion(enum_ident@).text(generics@),
    {
        let mut out = String::new();
        if let Some(from_attr) = &self.from_attribute {
            proof {
                assert(self@.fields[0] is FromAttribute);
            }
            let from_type = from_attr.ty.tokens();
            let mut trait_path = String::from_str("core::convert::From<");
            trait_path.append(from_type);
            trait_path.append(">");
            generics.push_impl_header(&mut out, trait_path.as_str(), enum_ident);
            out.append("fn from(value: ");
            out.append(from_type);
            out.append(") -> Self { ");
            // let's decide which style to use during construction
            out.append(self.variant_path(enum_ident).to_string().as_str());
            match &self.fields {
                WrappedFields::Named(_) => {
                    if let Some(from_ident) = &from_attr.ident {
                        out.append(" { ");
                        out.append(from_ident.as_str());
                        out.append(": value }");
                    }
                },
                WrappedFields::Unnamed(_) => {
                    out.append("(value)");
                },
                WrappedFields::Unit => {
                    // unit variants cannot have a `#[from]` field
                    proof {
                        assert(self.fields.list().len() == 0);
                    }
                },
            }
            out.append(" } } ");
        }
        proof {
            assert(out@ =~= self@.conversion(enum_ident@).text(generics@));
        }
        out
    }
}

/// The conversions for those of the first `n` variants that have a `#[from]`
/// field, in declaration order.
pub open spec fn conversions_of(
    variants: Seq<VariantModel>,
    enum_ident: Seq<char>,
    n: int,
) -> Seq<Conversion>
    decreases n,
{
    if n <= 0 {
        Seq::empty()
    } else if variants[n - 1].from_attribute is Some {
        conversions_of(variants, enum_ident, n - 1).push(variants[n - 1].conversion(enum_ident))
    } else {
        conversions_of(variants, enum_ident, n - 1)
    }
}

impl EnumModel {
    /// One conversion for each variant with a `#[from]` field, in
    /// declaration order.
    pub open spec fn conversions(self) -> Seq<Conversion> {
        conversions_of(self.variants, self.ident, self.variants.len() as int)
    }
}

impl UserEnum {
    /// Looks for two variants that convert from the same type as written:
    /// their `From` implementations would clash.
    ///
    /// Of all clashing pairs this finds the one whose second variant comes
    /// first, and for it the first variant that it clashes with.
    pub fn colliding_conversions(&self) -> (pair: Option<(usize, usize)>)
        ensures
            match pair {
                Some((i, j)) => {
                    &&& self@.conversions_collide(i as int, j as int)
                    &&& forall|a: int, b: int|
                        self@.conversions_collide(a, b) ==> j < b || (j == b && i <= a)
                },
                None => forall|a: int, b: int| !self@.conversions_collide(a, b),
            },
    {
        let mut j: usize = 0;
        while j < self.variants.len()
            invariant
                j <= self.variants@.len(),
                forall|a: int, b: int| self@.conversions_collide(a, b) ==> j <= b,
            decreases self.variants@.len() - j,
        {
            if let Some(second) = &self.variants[j].from_attribute {
                let mut i: usize = 0;
                while i < j
                    invariant
                        i <= j < self.variants@.len(),
                        self.variants@[j as int].from_attribute == Some(*second),
                        forall|a: int, b: int| self@.conversions_collide(a, b) ==> j <= b,
                        forall|a: int| self@.conversions_collide(a, j as int) ==> i <= a,
                    decreases j - i,
                {
                    if let Some(first) = &self.variants[i].from_attribute {
                        if crate::text::same_text(first.ty.tokens(), second.ty.tokens()) {
                            return Some((i, j));
                        }
                    }
                    i += 1;
                }
            }
            j += 1;
        }
        None
    }

    /// Returns ALL `From` implementations for the `#[from]` variants of the
    /// user's enum.
    pub fn from(&self) -> (text: String)
        requires
            self@.wf(),
            self@.names_its_fields(),
        ensures
            text@ == conversions_text(self@.conversions(), self.generics@),
    {
        let mut out = String::new();
        let mut i: usize = 0;
        // create a new `From<external::Error> for UserError` for each from variant
        while i < self.variants.len()
            invariant
                self@.wf(),
                self@.names_its_fields(),
                i <= self.variants@.len(),
                out@ == conversions_text(
                    conversions_of(self@.variants, self.ident@, i as int),
                    self.generics@,
                ),
            decreases self.variants@.len() - i,
        {
            let from_v = &self.variants[i];
            assert(self@.variants[i as int] == from_v@);
            assert(from_v@.wf() && from_v@.names_its_fields());
            if from_v.from_attribute.is_some() {
                let one = from_v.from_impl(self.ident.as_str(), &self.generics);
                out.append(one.as_str());
                proof {
                    let before = conversions_of(self@.variants, self.ident@, i as int);
                    let after = conversions_of(self@.variants, self.ident@, i + 1);
                    assert(after.drop_last() =~= before);
                }
            }
            i += 1;
        }
        out
    }
}

} // verus!
