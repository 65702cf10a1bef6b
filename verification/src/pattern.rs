//! Match patterns: what the generated `match` expressions test a value
//! against, how a pattern is written, and which values it accepts.

use vstd::prelude::*;
use vstd::string::StringExecFns;
use crate::text::{decimal, joined, push_decimal, push_joined, texts};

verus! {

/// What a pattern does with one positional field.
pub enum Binder {
    /// `_`: the field is passed over.
    Skip,
    /// `ref name`: the field is bound, by reference, to `name`.
    Ref(Seq<char>),
}

impl Binder {
    /// The binder as written.
    pub open spec fn text(self) -> Seq<char> {
        match self {
            Binder::Skip => "_"@,
            Binder::Ref(name) => "ref "@ + name,
        }
    }
}

/// What a pattern does with the fields of a variant.
pub enum Destructure {
    /// Nothing follows the path: the variant has no fields.
    Unit,
    /// `{..}`: whatever fields there are between braces, none is bound.
    Rest,
    /// `{ref a, ref b}`: each named field is bound, by reference, to its own
    /// name.
    Braces(Seq<Seq<char>>),
    /// `(ref x, _)`: one binder for each positional field.
    Parens(Seq<Binder>),
}

impl Destructure {
    /// The pieces between the delimiters, in order.
    pub open spec fn items(self) -> Seq<Seq<char>> {
        match self {
            Destructure::Unit => Seq::empty(),
            Destructure::Rest => seq![".."@],
            Destructure::Braces(names) => Seq::new(names.len(), |i: int| Binder::Ref(names[i]).text()),
            Destructure::Parens(binders) => Seq::new(binders.len(), |i: int| binders[i].text()),
        }
    }

    /// The part of a pattern after the path, as written.
    pub open spec fn text(self) -> Seq<char> {
        match self {
            Destructure::Unit => Seq::empty(),
            Destructure::Rest => "{"@ + joined(self.items(), ", "@) + "}"@,
            Destructure::Braces(_) => "{"@ + joined(self.items(), ", "@) + "}"@,
            Destructure::Parens(_) => "("@ + joined(self.items(), ", "@) + ")"@,
        }
    }
}

/// The pattern of one match arm.
pub enum Pattern {
    /// `_`: accepts every value.
    Any,
    /// `Enum::Variant` and what is done with the variant's fields.
    Variant { enum_ident: Seq<char>, variant_ident: Seq<char>, fields: Destructure },
}

/// `Enum::Variant`, as written.
pub open spec fn path_text(enum_ident: Seq<char>, variant_ident: Seq<char>) -> Seq<char> {
    enum_ident + "::"@ + variant_ident
}

impl Pattern {
    /// The pattern as written.
    pub open spec fn text(self) -> Seq<char> {
        match self {
            Pattern::Any => "_"@,
            Pattern::Variant { enum_ident, variant_ident, fields } => path_text(
                enum_ident,
                variant_ident,
            ) + fields.text(),
        }
    }
}

/// A value of the enum: which variant it is, and for each field its name,
/// where it has one, and what it holds. A held value is stood for by a
/// number.
pub struct Instance {
    pub variant_ident: Seq<char>,
    pub names: Seq<Option<Seq<char>>>,
    pub values: Seq<int>,
}

impl Destructure {
    /// Whether fields shaped like those of `value` can be taken apart this
    /// way.
    pub open spec fn fits(self, value: Instance) -> bool {
        match self {
            Destructure::Unit => value.values.len() == 0,
            Destructure::Rest => true,
            Destructure::Braces(names) => {
                &&& names.len() == value.values.len()
                &&& forall|i: int| 0 <= i < names.len() ==> value.names[i] == Some(#[trigger] names[i])
            },
            Destructure::Parens(binders) => binders.len() == value.values.len(),
        }
    }

    /// What `name` is bound to once `value` has been taken apart: the value
    /// of the first field that the pattern binds to that name.
    pub open spec fn bound(self, value: Instance, name: Seq<char>) -> Option<int> {
        match self {
            Destructure::Unit => None,
            Destructure::Rest => None,
            Destructure::Braces(names) => {
                if exists|i: int| 0 <= i < names.len() && #[trigger] names[i] == name {
                    let i = choose|i: int| 0 <= i < names.len() && #[trigger] names[i] == name;
                    Some(value.values[i])
                } else {
                    None
                }
            },
            Destructure::Parens(binders) => {
                if exists|i: int| 0 <= i < binders.len() && #[trigger] binders[i] == Binder::Ref(name) {
                    let i = choose|i: int|
                        0 <= i < binders.len() && #[trigger] binders[i] == Binder::Ref(name);
                    Some(value.values[i])
                } else {
                    None
                }
            },
        }
    }
}

impl Pattern {
    /// Whether the pattern accepts `value`.
    pub open spec fn accepts(self, value: Instance) -> bool {
        match self {
            Pattern::Any => true,
            Pattern::Variant { variant_ident, fields, .. } => variant_ident == value.variant_ident
                && fields.fits(value),
        }
    }

    /// What `name` is bound to in the arm's body when the pattern has
    /// accepted `value`.
    pub open spec fn bound(self, value: Instance, name: Seq<char>) -> Option<int> {
        match self {
            Pattern::Any => None,
            Pattern::Variant { fields, .. } => fields.bound(value, name),
        }
    }
}

/// Appends `open`, the items with `, ` between each two, and `close`.
pub fn push_delimited(out: &mut String, open: &str, items: &Vec<String>, close: &str)
    ensures
        final(out)@ == old(out)@ + (open@ + joined(texts(items@), ", "@) + close@),
{
    out.append(open);
    push_joined(out, items, ", ");
    out.append(close);
    proof {
        assert(out@ =~= old(out)@ + (open@ + joined(texts(items@), ", "@) + close@));
    }
}

/// `{..}` is what the pattern that binds none of the named fields spells.
pub proof fn lemma_rest_text()
    ensures
        Destructure::Rest.text() == "{..}"@,
{
    reveal_strlit("{..}");
    reveal_strlit("{");
    reveal_strlit("..");
    reveal_strlit("}");
    assert(joined(Destructure::Rest.items(), ", "@) == ".."@);
    assert(Destructure::Rest.text() =~= "{..}"@);
}

/// The texts of `ref name` for each of `names`, in order.
pub open spec fn ref_items(names: Seq<String>) -> Seq<Seq<char>> {
    Seq::new(names.len(), |i: int| Binder::Ref(names[i]@).text())
}

/// Appends `open`, then `ref name` for each of `names` with `, ` between
/// each two, then `close`.
pub fn push_refs(out: &mut String, open: &str, names: &Vec<String>, close: &str)
    ensures
        final(out)@ == old(out)@ + (open@ + joined(ref_items(names@), ", "@) + close@),
{
    let mut items: Vec<String> = Vec::new();
    let mut i: usize = 0;
    while i < names.len()
        invariant
            i <= names.len(),
            items@.len() == i,
            forall|j: int| 0 <= j < i ==> (#[trigger] items@[j])@ == Binder::Ref(names@[j]@).text(),
        decreases names.len() - i,
    {
        let mut item = String::from_str("ref ");
        item.append(names[i].as_str());
        items.push(item);
        i += 1;
    }
    proof {
        assert(texts(items@) =~= ref_items(names@));
    }
    push_delimited(out, open, &items, close);
}

/// Appends `(_, _)` with one `_` for each of `count` positional fields.
pub fn push_skips(out: &mut String, count: usize)
    ensures
        final(out)@ == old(out)@ + Destructure::Parens(
            Seq::new(count as nat, |i: int| Binder::Skip),
        ).text(),
{
    let mut items: Vec<String> = Vec::new();
    let mut i: usize = 0;
    while i < count
        invariant
            i <= count,
            items@.len() == i,
            forall|j: int| 0 <= j < i ==> (#[trigger] items@[j])@ == Binder::Skip.text(),
        decreases count - i,
    {
        items.push(String::from_str("_"));
        i += 1;
    }
    proof {
        let skips = Destructure::Parens(Seq::new(count as nat, |i: int| Binder::Skip));
        assert(texts(items@) =~= skips.items());
    }
    push_delimited(out, "(", &items, ")");
}

/// The name that stands for the positional field `i`: `_` and its position.
pub open spec fn positional_name(i: nat) -> Seq<char> {
    "_"@ + decimal(i)
}

/// Positional fields at different positions go by different names.
pub proof fn lemma_positional_names_differ(i: nat, j: nat)
    requires
        i != j,
    ensures
        positional_name(i) != positional_name(j),
{
    if positional_name(i) == positional_name(j) {
        let a = positional_name(i);
        let b = positional_name(j);
        assert(decimal(i) =~= a.subrange("_"@.len() as int, a.len() as int));
        assert(decimal(j) =~= b.subrange("_"@.len() as int, b.len() as int));
        crate::text::lemma_decimal_is_injective(i, j);
    }
}

/// The names `_0`, `_1`, and so on, for `count` positional fields.
pub fn positional_names(count: usize) -> (names: Vec<String>)
    ensures
        names@.len() == count,
        forall|i: int| 0 <= i < count ==> (#[trigger] names@[i])@ == positional_name(i as nat),
{
    let mut names: Vec<String> = Vec::new();
    let mut i: usize = 0;
    while i < count
        invariant
            i <= count,
            names@.len() == i,
            forall|j: int| 0 <= j < i ==> (#[trigger] names@[j])@ == positional_name(j as nat),
        decreases count - i,
    {
        let mut name = String::from_str("_");
        push_decimal(&mut name, i);
        names.push(name);
        i += 1;
    }
    names
}

} // verus!
