//! Helper functions to work around the different enum variant types.

use vstd::prelude::*;
use vstd::string::StringExecFns;
use crate::pattern::{
    lemma_rest_text,
    path_text,
    positional_name,
    positional_names,
    push_refs,
    push_skips,
    ref_items,
    Binder,
    Destructure,
    Pattern,
};
use crate::parser::field::info_of;
use crate::parser::variant::{checked_variant, lemma_classify_fields};
use crate::syntax::{Fields, Variant};

verus! {

impl Variant {
    /// The pattern that accepts this variant whatever its fields hold, and
    /// binds none of them.
    pub open spec fn head_pattern(&self, enum_ident: Seq<char>) -> Pattern {
        Pattern::Variant {
            enum_ident,
            variant_ident: self.ident@,
            fields: match self.fields {
                Fields::Named(_) => Destructure::Rest,
                Fields::Unnamed(fields) => Destructure::Parens(
                    Seq::new(fields@.len(), |i: int| Binder::Skip),
                ),
                Fields::Unit => Destructure::Unit,
            },
        }
    }

    /// The name that the filled pattern binds field `i` to: the field's own
    /// name between braces, `_` and the field's position between parentheses.
    pub open spec fn binding(&self, i: int) -> Seq<char> {
        match self.fields {
            Fields::Named(fields) => match fields@[i].ident {
                Some(name) => name@,
                None => Seq::empty(),
            },
            _ => positional_name(i as nat),
        }
    }

    /// The pattern that accepts this variant and binds every field of it by
    /// reference.
    pub open spec fn filled_pattern(&self, enum_ident: Seq<char>) -> Pattern {
        Pattern::Variant {
            enum_ident,
            variant_ident: self.ident@,
            fields: match self.fields {
                Fields::Named(fields) => Destructure::Braces(
                    Seq::new(fields@.len(), |i: int| self.binding(i)),
                ),
                Fields::Unnamed(fields) => Destructure::Parens(
                    Seq::new(fields@.len(), |i: int| Binder::Ref(self.binding(i))),
                ),
                Fields::Unit => Destructure::Unit,
            },
        }
    }
}

/// Checking a variant changes neither of its patterns: the checked variant
/// has the head pattern and the filled pattern of the variant as it was
/// written.
pub proof fn lemma_checking_keeps_the_patterns(variant: Variant, enum_ident: Seq<char>)
    requires
        checked_variant(variant) is Ok,
    ensures
        checked_variant(variant)->Ok_0.head_pattern(enum_ident) == variant.head_pattern(enum_ident),
        checked_variant(variant)->Ok_0.filled_pattern(enum_ident) == variant.filled_pattern(
            enum_ident,
        ),
{
    let raw = variant.fields.list();
    let model = checked_variant(variant)->Ok_0;
    lemma_classify_fields(raw, raw.len() as int);
    assert forall|i: int| 0 <= i < raw.len() implies model.binding(i) == variant.binding(i) by {
        assert(model.fields[i].spec_info() == info_of(raw[i]));
    }
    match variant.fields {
        Fields::Named(fields) => {
            assert(Seq::new(model.fields.len(), |i: int| model.binding(i)) =~= Seq::new(
                fields@.len(),
                |i: int| variant.binding(i),
            ));
        },
        Fields::Unnamed(fields) => {
            assert(Seq::new(model.fields.len(), |i: int| Binder::Ref(model.binding(i)))
                =~= Seq::new(fields@.len(), |i: int| Binder::Ref(variant.binding(i))));
        },
        Fields::Unit => {},
    }
}

/// Creates the variant without any placeholders or brackets/parentheses.
///
/// This looks like: `EnumName::VariantName`.
pub fn make_variant_path(enum_name: &str, variant_name: &str) -> (text: String)
    ensures
        text@ == path_text(enum_name@, variant_name@),
{
    let mut out = String::from_str(enum_name);
    out.append("::");
    out.append(variant_name);
    out
}

/// Creates the `match` head (path selector with fields) for a variant of an
/// enum.
pub fn make_match_head(enum_name: &str, variant: &Variant) -> (text: String)
    ensures
        text@ == variant.head_pattern(enum_name@).text(),
{
    let mut out = make_variant_path(enum_name, variant.ident.as_str());
    match &variant.fields {
        Fields::Named(_) => {
            out.append("{..}");
            proof {
                lemma_rest_text();
            }
        },
        Fields::Unnamed(fields) => {
            // one `_` for each field: "Type::Variant(_, _, _)"
            push_skips(&mut out, fields.len());
        },
        Fields::Unit => {
            proof {
                assert(out@ =~= out@ + Destructure::Unit.text());
            }
        },
    }
    out
}

/// Creates a `match` head with named fields for matching.
pub fn make_named_match_head(enum_name: &str, variant: &Variant) -> (text: String)
    ensures
        text@ == variant.filled_pattern(enum_name@).text(),
{
    let mut out = make_variant_path(enum_name, variant.ident.as_str());
    match &variant.fields {
        Fields::Named(n) => {
            let mut names: Vec<String> = Vec::new();
            let mut i: usize = 0;
            while i < n.len()
                invariant
                    i <= n.len(),
                    names@.len() == i,
                    variant.fields == Fields::Named(*n),
                    forall|j: int| 0 <= j < i ==> (#[trigger] names@[j])@ == variant.binding(j),
                decreases n.len() - i,
            {
                let name = match &n[i].ident {
                    Some(name) => name.clone(),
                    None => String::new(),
                };
                names.push(name);
                i += 1;
            }
            proof {
                let braces = Destructure::Braces(Seq::new(n@.len(), |i: int| variant.binding(i)));
                assert(ref_items(names@) =~= braces.items());
            }
            push_refs(&mut out, "{", &names, "}");
        },
        Fields::Unnamed(un) => {
            let names = positional_names(un.len());
            proof {
                let parens = Destructure::Parens(
                    Seq::new(un@.len(), |i: int| Binder::Ref(variant.binding(i))),
                );
                assert(ref_items(names@) =~= parens.items());
            }
            push_refs(&mut out, "(", &names, ")");
        },
        Fields::Unit => {
            proof {
                assert(out@ =~= out@ + Destructure::Unit.text());
            }
        },
    }
    out
}

} // verus!
