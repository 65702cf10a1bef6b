//! The definition as the language's parser hands it over.
//!
//! These types hold, as plain values, what the derive reads from a parsed
//! item: names, the shape of each variant, the attributes with their
//! arguments as token text, and the region each node came from.

use vstd::prelude::*;
use vstd::string::StringExecFns;
use crate::span::Span;

verus! {

/// A path such as `error` or `std::fmt::Display`.
#[derive(Debug, PartialEq, Eq)]
pub struct Path {
    /// Whether the path starts with `::`.
    pub leading_colon: bool,
    pub segments: Vec<String>,
}

impl Path {
    /// The path is the single name `name`, with nothing before or after it.
    pub open spec fn is_name(&self, name: Seq<char>) -> bool {
        &&& !self.leading_colon
        &&& self.segments@.len() == 1
        &&& self.segments@[0]@ == name
    }

    /// The names of the segments.
    pub open spec fn names(&self) -> Seq<Seq<char>> {
        crate::text::texts(self.segments@)
    }

    /// The path as written: its names with `::` between them, after `::`
    /// where it has a leading one.
    pub open spec fn text(&self) -> Seq<char> {
        (if self.leading_colon {
            "::"@
        } else {
            Seq::empty()
        }) + crate::text::joined(self.names(), "::"@)
    }

    /// Writes the path out.
    pub fn to_string(&self) -> (text: String)
        ensures
            text@ == self.text(),
    {
        let mut out = String::new();
        if self.leading_colon {
            out.append("::");
        }
        crate::text::push_joined(&mut out, &self.segments, "::");
        out
    }

    /// Whether the path is the single name `name`.
    pub fn is_ident(&self, name: &str) -> (yes: bool)
        ensures
            yes == self.is_name(name@),
    {
        !self.leading_colon && self.segments.len() == 1 && crate::text::same_text(
            self.segments[0].as_str(),
            name,
        )
    }
}

/// What follows an attribute's path.
#[derive(Debug, PartialEq, Eq)]
pub enum Meta {
    /// Nothing: `#[from]`.
    Path,
    /// A delimited argument list, kept as token text: `#[error("...")]`.
    List(String),
    /// A value: `#[error = "..."]`.
    NameValue,
}

/// One attribute on a variant or on a field.
#[derive(Debug, PartialEq, Eq)]
pub struct Attribute {
    pub path: Path,
    pub meta: Meta,
    pub span: Span,
}

/// The first index at or after `from` of an attribute whose path is the
/// single name `name`; the length of `attrs` where there is none.
pub open spec fn first_named(attrs: Seq<Attribute>, name: Seq<char>, from: int) -> int
    decreases attrs.len() - from,
{
    if from >= attrs.len() {
        attrs.len() as int
    } else if from >= 0 && attrs[from].path.is_name(name) {
        from
    } else {
        first_named(attrs, name, from + 1)
    }
}

/// What `first_named` finds is the first match, and nothing before it matches.
pub proof fn lemma_first_named(attrs: Seq<Attribute>, name: Seq<char>, from: int)
    requires
        0 <= from <= attrs.len(),
    ensures
        from <= first_named(attrs, name, from) <= attrs.len(),
        first_named(attrs, name, from) < attrs.len() ==> attrs[first_named(
            attrs,
            name,
            from,
        )].path.is_name(name),
        forall|j: int|
            from <= j < first_named(attrs, name, from) ==> !(#[trigger] attrs[j]).path.is_name(name),
    decreases attrs.len() - from,
{
    if from < attrs.len() && !attrs[from].path.is_name(name) {
        lemma_first_named(attrs, name, from + 1);
    }
}

/// Finds the first attribute at or after `from` whose path is the single name
/// `name`.
pub fn find_named(attrs: &Vec<Attribute>, name: &str, from: usize) -> (index: usize)
    ensures
        index == first_named(attrs@, name@, from as int),
{
    let mut i: usize = from;
    while i < attrs.len()
        invariant
            from <= i,
            first_named(attrs@, name@, from as int) == first_named(attrs@, name@, i as int),
        decreases attrs.len() - i,
    {
        if attrs[i].path.is_ident(name) {
            return i;
        }
        i += 1;
    }
    attrs.len()
}

/// A lifetime, without its tick: `static` for `'static`.
///
/// Two lifetimes are equal if they have the same name, wherever they stand.
#[derive(Debug, Eq)]
pub struct Lifetime {
    pub ident: String,
    pub span: Span,
}

impl PartialEq for Lifetime {
    fn eq(&self, other: &Self) -> (equal: bool) {
        self.ident == other.ident
    }
}

impl vstd::std_specs::cmp::PartialEqSpecImpl for Lifetime {
    open spec fn obeys_eq_spec() -> bool {
        true
    }

    open spec fn eq_spec(&self, other: &Self) -> bool {
        self.ident@ == other.ident@
    }
}

impl Clone for Lifetime {
    fn clone(&self) -> (copy: Self)
        ensures
            copy == *self,
    {
        Lifetime { ident: self.ident.clone(), span: self.span }
    }
}

/// A field's declared type, as token text.
///
/// A reference type also tells which lifetime it names, if it names one.
/// Two types are equal if they are written the same.
#[derive(Debug, Eq)]
pub enum Type {
    Reference { lifetime: Option<Lifetime>, tokens: String },
    Other { tokens: String },
}

impl Type {
    /// The type as written.
    pub open spec fn text(&self) -> Seq<char> {
        match *self {
            Type::Reference { tokens, .. } => tokens@,
            Type::Other { tokens } => tokens@,
        }
    }

    /// The type is a reference that names a lifetime other than `'static`.
    pub open spec fn borrows_briefly(&self) -> bool {
        match *self {
            Type::Reference { lifetime: Some(lt), .. } => lt.ident@ != "static"@,
            _ => false,
        }
    }

    /// The type as written.
    pub fn tokens(&self) -> (tokens: &str)
        ensures
            tokens@ == self.text(),
    {
        match self {
            Type::Reference { tokens, .. } => tokens.as_str(),
            Type::Other { tokens } => tokens.as_str(),
        }
    }
}

impl Type {
    /// The name of the lifetime that the type names, if it is a reference
    /// that names one.
    pub open spec fn lifetime_name(&self) -> Option<Seq<char>> {
        match *self {
            Type::Reference { lifetime: Some(lt), .. } => Some(lt.ident@),
            _ => None,
        }
    }

    /// The two types are written the same.
    pub open spec fn same_as(&self, other: &Type) -> bool {
        &&& *self is Reference <==> *other is Reference
        &&& self.lifetime_name() == other.lifetime_name()
        &&& self.text() == other.text()
    }
}

impl PartialEq for Type {
    fn eq(&self, other: &Self) -> (equal: bool) {
        match (self, other) {
            (
                Type::Reference { lifetime: a, tokens: x },
                Type::Reference { lifetime: b, tokens: y },
            ) => {
                let same_lifetime = match (a, b) {
                    (Some(a), Some(b)) => *a == *b,
                    (None, None) => true,
                    _ => false,
                };
                same_lifetime && *x == *y
            },
            (Type::Other { tokens: x }, Type::Other { tokens: y }) => *x == *y,
            _ => false,
        }
    }
}

impl vstd::std_specs::cmp::PartialEqSpecImpl for Type {
    open spec fn obeys_eq_spec() -> bool {
        true
    }

    open spec fn eq_spec(&self, other: &Self) -> bool {
        self.same_as(other)
    }
}

impl Clone for Type {
    fn clone(&self) -> (copy: Self)
        ensures
            copy == *self,
    {
        match self {
            Type::Reference { lifetime, tokens } => {
                let lifetime = match lifetime {
                    Some(lt) => Some(lt.clone()),
                    None => None,
                };
                Type::Reference { lifetime, tokens: tokens.clone() }
            },
            Type::Other { tokens } => Type::Other { tokens: tokens.clone() },
        }
    }
}

/// One field of a variant.
#[derive(Debug, PartialEq, Eq)]
pub struct Field {
    /// The field's name; a positional field has none.
    pub ident: Option<String>,
    pub ty: Type,
    pub attrs: Vec<Attribute>,
    pub span: Span,
}

/// The fields of a variant, by shape.
#[derive(Debug, PartialEq, Eq)]
pub enum Fields {
    /// `Variant { a: A, b: B }`
    Named(Vec<Field>),
    /// `Variant(A, B)`
    Unnamed(Vec<Field>),
    /// `Variant`
    Unit,
}

impl Fields {
    /// The fields in declaration order; none for a unit variant.
    pub open spec fn list(&self) -> Seq<Field> {
        match *self {
            Fields::Named(fields) => fields@,
            Fields::Unnamed(fields) => fields@,
            Fields::Unit => Seq::empty(),
        }
    }
}

/// One variant of the enum.
#[derive(Debug, PartialEq, Eq)]
pub struct Variant {
    pub ident: String,
    pub fields: Fields,
    pub attrs: Vec<Attribute>,
    pub span: Span,
}

impl Variant {
    /// Every field between braces has a name and no field between
    /// parentheses has one, as the language has it.
    pub open spec fn names_its_fields(&self) -> bool {
        match self.fields {
            Fields::Named(fields) => forall|i: int|
                0 <= i < fields@.len() ==> (#[trigger] fields@[i]).ident is Some,
            Fields::Unnamed(fields) => forall|i: int|
                0 <= i < fields@.len() ==> (#[trigger] fields@[i]).ident is None,
            Fields::Unit => true,
        }
    }
}

/// What kind of item the derive was put on.
#[derive(Debug, PartialEq, Eq)]
pub enum Data {
    Enum {
        variants: Vec<Variant>,
        /// The region of the closing brace.
        brace_close: Span,
    },
    Struct,
    Union,
}

/// The generic parameters of an item, as token text, in the three forms
/// that an implementation needs. Each is empty where the item has nothing of
/// the kind.
#[derive(Debug, PartialEq, Eq)]
pub struct Generics {
    /// The parameters with their bounds, angle brackets included: what
    /// follows `impl`.
    pub impl_generics: String,
    /// The parameters by name alone, angle brackets included: what follows
    /// the type's name.
    pub ty_generics: String,
    /// The `where` clause, the word `where` included.
    pub where_clause: String,
}

/// The three forms of an item's generic parameters, as text.
pub struct GenericsModel {
    pub impl_generics: Seq<char>,
    pub ty_generics: Seq<char>,
    pub where_clause: Seq<char>,
}

impl View for Generics {
    type V = GenericsModel;

    open spec fn view(&self) -> GenericsModel {
        GenericsModel {
            impl_generics: self.impl_generics@,
            ty_generics: self.ty_generics@,
            where_clause: self.where_clause@,
        }
    }
}

impl GenericsModel {
    /// The opening of an implementation of `trait_path` for the type
    /// `ident`, up to and with the brace.
    pub open spec fn impl_header(self, trait_path: Seq<char>, ident: Seq<char>) -> Seq<char> {
        "#[automatically_derived] impl"@ + self.impl_generics + " "@ + trait_path + " for "@ + ident
            + self.ty_generics + " "@ + self.where_clause + " { "@
    }
}

impl Generics {
    /// Appends the opening of an implementation of `trait_path` for the type
    /// `ident`, up to and with the brace.
    pub fn push_impl_header(&self, out: &mut String, trait_path: &str, ident: &str)
        ensures
            final(out)@ == old(out)@ + self@.impl_header(trait_path@, ident@),
    {
        out.append("#[automatically_derived] impl");
        out.append(self.impl_generics.as_str());
        out.append(" ");
        out.append(trait_path);
        out.append(" for ");
        out.append(ident);
        out.append(self.ty_generics.as_str());
        out.append(" ");
        out.append(self.where_clause.as_str());
        out.append(" { ");
        proof {
            assert(out@ =~= old(out)@ + self@.impl_header(trait_path@, ident@));
        }
    }
}

/// The item the derive was put on.
#[derive(Debug, PartialEq, Eq)]
pub struct DeriveInput {
    pub ident: String,
    pub generics: Generics,
    pub data: Data,
    pub span: Span,
}

impl DeriveInput {
    /// In every variant, every field between braces has a name and no field
    /// between parentheses has one.
    pub open spec fn names_its_fields(&self) -> bool {
        self.data matches Data::Enum { variants, .. } ==> forall|i: int|
            0 <= i < variants@.len() ==> (#[trigger] variants@[i]).names_its_fields()
    }
}

} // verus!
