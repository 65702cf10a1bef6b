//! The derive from end to end: from the parsed item to the code, or to the
//! diagnostic that stops it.

use vstd::prelude::*;
use crate::diagnostic::DeriveError;
use crate::parser::{checked_enum, UserEnum};
use crate::syntax::{Data, DeriveInput, Field, Fields, Variant};

verus! {

/// Whether each of the fields has a name, or, with `named` false, whether
/// none of them has one.
fn all_named(fields: &Vec<Field>, named: bool) -> (all: bool)
    ensures
        all == forall|i: int| 0 <= i < fields@.len() ==> (#[trigger] fields@[i]).ident is Some == named,
{
    let mut i: usize = 0;
    while i < fields.len()
        invariant
            i <= fields.len(),
            forall|j: int| 0 <= j < i ==> (#[trigger] fields@[j]).ident is Some == named,
        decreases fields.len() - i,
    {
        if fields[i].ident.is_some() != named {
            assert(!(fields@[i as int].ident is Some == named));
            return false;
        }
        i += 1;
    }
    true
}

impl Variant {
    /// Whether every field between braces has a name and no field between
    /// parentheses has one.
    pub fn fields_are_named(&self) -> (named: bool)
        ensures
            named == self.names_its_fields(),
    {
        match &self.fields {
            Fields::Named(fields) => all_named(fields, true),
            Fields::Unnamed(fields) => all_named(fields, false),
            Fields::Unit => true,
        }
    }
}

impl DeriveInput {
    /// Whether, in every variant, every field between braces has a name and
    /// no field between parentheses has one.
    pub fn fields_are_named(&self) -> (named: bool)
        ensures
            named == self.names_its_fields(),
    {
        match &self.data {
            Data::Enum { variants, .. } => {
                let mut i: usize = 0;
                while i < variants.len()
                    invariant
                        i <= variants.len(),
                        self.data matches Data::Enum { variants: all, .. } && all == *variants,
                        forall|j: int| 0 <= j < i ==> (#[trigger] variants@[j]).names_its_fields(),
                    decreases variants.len() - i,
                {
                    if !variants[i].fields_are_named() {
                        assert(!variants@[i as int].names_its_fields());
                        return false;
                    }
                    i += 1;
                }
                true
            },
            _ => true,
        }
    }
}

/// Checks the item and writes out the implementations of `Error`, `Display`
/// and `From` for it.
///
/// Anything but an enum is turned down. So is an enum with a variant that
/// fails a check: the first such variant, in declaration order, decides the
/// error. So is an enum in which two variants convert from the same type.
/// Every other enum gets its code, an enum without variants too.
pub fn derive_error(input: DeriveInput, std: bool) -> (result: Result<String, DeriveError>)
    requires
        input.names_its_fields(),
    ensures
        match checked_enum(input) {
            Ok(model) => result matches Ok(text) && text@ == model.derived_text(std),
            Err(e) => result == Err::<String, DeriveError>(e),
        },
{
    match UserEnum::new(input) {
        Ok(user_enum) => Ok(crate::traits::derive_error(&user_enum, std)),
        Err(e) => Err(e),
    }
}

} // verus!
