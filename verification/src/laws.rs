//! What holds of the generated code for every enum that passed the checks.
//!
//! The laws speak of values of the user's enum and of the arms that the
//! generators write. A value is an [`Instance`]; [`selected`] tells which arm
//! of a `match` takes it, as the language does: the first that accepts it.

use vstd::prelude::*;
use crate::model::{EnumModel, VariantModel};
use crate::parser::field::FieldsType;
use crate::pattern::{lemma_positional_names_differ, Binder, Instance, Pattern};
use crate::traits::display::{DisplayArm, Render};
use crate::traits::error::{Cause, CauseArm};
use crate::traits::from::{conversions_of, Construct, Conversion};

verus! {

impl VariantModel {
    /// The value of this variant whose fields hold `values`, in order.
    pub open spec fn instance(self, values: Seq<int>) -> Instance {
        Instance {
            variant_ident: self.ident,
            names: Seq::new(
                self.fields.len(),
                |i: int|
                    match (self.shape, self.fields[i].spec_info().ident) {
                        (FieldsType::Named, Some(name)) => Some(name@),
                        _ => None,
                    },
            ),
            values,
        }
    }

    /// `values` holds one value for each field of this variant.
    pub open spec fn holds(self, values: Seq<int>) -> bool {
        values.len() == self.fields.len()
    }
}

/// The first of the patterns, from `from` on, that accepts `value`.
pub open spec fn selected(patterns: Seq<Pattern>, value: Instance, from: int) -> Option<int>
    decreases patterns.len() - from,
{
    if from < 0 || from >= patterns.len() {
        None
    } else if patterns[from].accepts(value) {
        Some(from)
    } else {
        selected(patterns, value, from + 1)
    }
}

/// The patterns of the arms of `fmt`, in order.
pub open spec fn display_patterns(arms: Seq<DisplayArm>) -> Seq<Pattern> {
    Seq::new(arms.len(), |i: int| arms[i].pattern)
}

/// The patterns of the arms of `source`, in order.
pub open spec fn cause_patterns(arms: Seq<CauseArm>) -> Seq<Pattern> {
    Seq::new(arms.len(), |i: int| arms[i].pattern)
}

/// What the `match` in `fmt` writes for a value.
pub enum Rendered {
    /// No arm accepts the value.
    Stuck,
    /// Nothing is written.
    Nothing,
    /// What `format!` makes of `args`, with the names of `scope` bound as the
    /// pattern binds them.
    Formatted { args: Seq<char>, scope: Pattern },
    /// What `to_string` makes of the value that `name` is bound to, or
    /// nothing that compiles where the pattern does not bind `name`.
    StringOf(Option<int>),
}

/// What the arms of `fmt` write for `value`.
pub open spec fn rendered(arms: Seq<DisplayArm>, value: Instance) -> Rendered {
    match selected(display_patterns(arms), value, 0) {
        None => Rendered::Stuck,
        Some(k) => match arms[k].body {
            Render::Nothing => Rendered::Nothing,
            Render::Format(args) => Rendered::Formatted { args, scope: arms[k].pattern },
            Render::Delegate(name) => Rendered::StringOf(arms[k].pattern.bound(value, name)),
        },
    }
}

/// What the `match` in `source` returns for a value.
pub enum Looked {
    /// No arm accepts the value.
    Stuck,
    /// `None`.
    Absent,
    /// `Some`, of a reference to the value that the name is bound to, or
    /// nothing that compiles where the pattern does not bind the name.
    Present(Option<int>),
}

/// What the arms of `source` return for `value`.
pub open spec fn looked_up(arms: Seq<CauseArm>, value: Instance) -> Looked {
    match selected(cause_patterns(arms), value, 0) {
        None => Looked::Stuck,
        Some(k) => match arms[k].body {
            Cause::Absent => Looked::Absent,
            Cause::Present(name) => Looked::Present(arms[k].pattern.bound(value, name)),
        },
    }
}

impl Conversion {
    /// The value of the enum that the conversion builds from `value`.
    pub open spec fn apply(self, value: int) -> Instance {
        Instance {
            variant_ident: self.variant_ident,
            names: seq![
                match self.construct {
                    Construct::Braces(name) => Some(name),
                    Construct::Parens => None,
                },
            ],
            values: seq![value],
        }
    }
}

/// Where only the pattern at `k` accepts a value among those up to `k`, it is
/// the one selected.
proof fn lemma_selected(patterns: Seq<Pattern>, value: Instance, from: int, k: int)
    requires
        0 <= from <= k < patterns.len(),
        patterns[k].accepts(value),
        forall|j: int| from <= j < k ==> !(#[trigger] patterns[j]).accepts(value),
    ensures
        selected(patterns, value, from) == Some(k),
    decreases k - from,
{
    if from < k {
        lemma_selected(patterns, value, from + 1, k);
    }
}

/// The filled pattern and the head pattern of a variant accept every value of
/// that variant, and so does the pattern of its arm in `source`.
pub proof fn lemma_own_patterns_accept(variant: VariantModel, enum_ident: Seq<char>, values: Seq<int>)
    requires
        variant.wf(),
        variant.names_its_fields(),
        variant.holds(values),
    ensures
        variant.filled_pattern(enum_ident).accepts(variant.instance(values)),
        variant.head_pattern(enum_ident).accepts(variant.instance(values)),
        variant.cause_arm(enum_ident).pattern.accepts(variant.instance(values)),
{
    let value = variant.instance(values);
    match variant.shape {
        FieldsType::Named => {
            assert forall|i: int| 0 <= i < variant.fields.len() implies value.names[i] == Some(
                variant.binding(i),
            ) by {
                assert(variant.fields[i].spec_info().ident is Some);
            }
        },
        _ => {},
    }
}

/// Exhaustiveness of `fmt`: every value of every variant is taken by an arm,
/// and an enum without variants has an arm that takes anything. With distinct
/// variant names the arm that takes a value is that of its own variant.
pub proof fn law_fmt_is_exhaustive(model: EnumModel, k: int, values: Seq<int>)
    requires
        model.wf(),
        model.names_its_fields(),
        0 <= k < model.variants.len(),
        model.variants[k].holds(values),
    ensures
        selected(
            display_patterns(model.display_arms()),
            model.variants[k].instance(values),
            0,
        ) is Some,
        model.has_distinct_variants() ==> selected(
            display_patterns(model.display_arms()),
            model.variants[k].instance(values),
            0,
        ) == Some(k),
{
    let patterns = display_patterns(model.display_arms());
    let value = model.variants[k].instance(values);
    lemma_own_patterns_accept(model.variants[k], model.ident, values);
    assert(patterns[k].accepts(value));
    lemma_some_is_selected(patterns, value, 0, k);
    if model.has_distinct_variants() {
        assert forall|j: int| 0 <= j < k implies !(#[trigger] patterns[j]).accepts(value) by {
            assert(model.variants[j].ident != model.variants[k].ident);
        }
        lemma_selected(patterns, value, 0, k);
    }
}

/// An enum without variants gets one arm in `fmt`, which takes any value and
/// writes nothing.
pub proof fn law_fmt_of_empty_enum(model: EnumModel, value: Instance)
    requires
        model.variants.len() == 0,
    ensures
        model.display_arms().len() == 1,
        rendered(model.display_arms(), value) == Rendered::Nothing,
{
    let patterns = display_patterns(model.display_arms());
    assert(patterns[0].accepts(value));
}

/// Exhaustiveness of `source`: every value of every variant is taken by an
/// arm. With distinct variant names the arm that takes a value is that of its
/// own variant. (An enum without variants has no values, and no arms.)
pub proof fn law_source_is_exhaustive(model: EnumModel, k: int, values: Seq<int>)
    requires
        model.wf(),
        model.names_its_fields(),
        0 <= k < model.variants.len(),
        model.variants[k].holds(values),
    ensures
        model.cause_arms().len() == model.variants.len(),
        selected(
            cause_patterns(model.cause_arms()),
            model.variants[k].instance(values),
            0,
        ) is Some,
        model.has_distinct_variants() ==> selected(
            cause_patterns(model.cause_arms()),
            model.variants[k].instance(values),
            0,
        ) == Some(k),
{
    let patterns = cause_patterns(model.cause_arms());
    let value = model.variants[k].instance(values);
    lemma_own_patterns_accept(model.variants[k], model.ident, values);
    assert(patterns[k].accepts(value));
    lemma_some_is_selected(patterns, value, 0, k);
    if model.has_distinct_variants() {
        assert forall|j: int| 0 <= j < k implies !(#[trigger] patterns[j]).accepts(value) by {
            assert(model.variants[j].ident != model.variants[k].ident);
        }
        lemma_selected(patterns, value, 0, k);
    }
}

/// Where some pattern from `from` on accepts a value, one is selected.
proof fn lemma_some_is_selected(patterns: Seq<Pattern>, value: Instance, from: int, k: int)
    requires
        0 <= from <= k < patterns.len(),
        patterns[k].accepts(value),
    ensures
        selected(patterns, value, from) is Some,
    decreases k - from,
{
    if from < k && !patterns[from].accepts(value) {
        lemma_some_is_selected(patterns, value, from + 1, k);
    }
}

/// The cause of a value: `source` returns the value of the `#[from]` field
/// for a value of a variant that has one, and `None` for a value of a variant
/// that has none.
pub proof fn law_source_returns_the_cause(model: EnumModel, k: int, values: Seq<int>)
    requires
        model.wf(),
        model.names_its_fields(),
        model.has_distinct_variants(),
        0 <= k < model.variants.len(),
        model.variants[k].holds(values),
    ensures
        looked_up(model.cause_arms(), model.variants[k].instance(values)) == (
        if model.variants[k].from_attribute is Some {
            Looked::Present(Some(values[0]))
        } else {
            Looked::Absent
        }),
{
    let variant = model.variants[k];
    let arms = model.cause_arms();
    let value = variant.instance(values);
    law_source_is_exhaustive(model, k, values);
    assert(arms[k] == variant.cause_arm(model.ident));
    if variant.from_attribute is Some {
        let info = variant.from_attribute->0;
        assert(variant.fields[0] is FromAttribute);
        match variant.shape {
            FieldsType::Named => {
                let names = seq![info.ident->0@];
                assert(names[0] == info.ident->0@);
                assert(arms[k].pattern.bound(value, info.ident->0@) == Some(values[0]));
            },
            FieldsType::Unnamed => {
                let binders = seq![Binder::Ref("e"@)];
                assert(binders[0] == Binder::Ref("e"@));
                assert(arms[k].pattern.bound(value, "e"@) == Some(values[0]));
            },
            FieldsType::Unit => {},
        }
    }
}

/// Transparent delegation: for a value of a variant marked `transparent`,
/// `fmt` writes what the value of the `#[from]` field makes of itself.
pub proof fn law_transparent_delegates(model: EnumModel, k: int, values: Seq<int>)
    requires
        model.wf(),
        model.names_its_fields(),
        model.has_distinct_variants(),
        0 <= k < model.variants.len(),
        model.variants[k].holds(values),
        model.variants[k].error_attribute is Transparent,
    ensures
        rendered(model.display_arms(), model.variants[k].instance(values))
            == Rendered::StringOf(Some(values[0])),
{
    let variant = model.variants[k];
    let arms = model.display_arms();
    let value = variant.instance(values);
    law_fmt_is_exhaustive(model, k, values);
    assert(arms[k] == variant.display_arm(model.ident));
    assert(variant.fields[0] is FromAttribute);
    lemma_first_positional_name();
    law_filled_pattern_binds_fields(variant, model.ident, values, 0);
    assert(variant.binding(0) == variant.cause_binding());
}

/// The first positional field goes by the name `_0`.
proof fn lemma_first_positional_name()
    ensures
        crate::pattern::positional_name(0) == "_0"@,
{
    reveal_strlit("_0");
    reveal_strlit("_");
    assert(crate::pattern::positional_name(0) =~= "_0"@);
}

/// A literal message: for a value of a variant with a message, `fmt` hands
/// the message to `format!` as it was written, under a pattern that binds
/// the variant's fields.
pub proof fn law_message_is_formatted(model: EnumModel, k: int, values: Seq<int>)
    requires
        model.wf(),
        model.names_its_fields(),
        model.has_distinct_variants(),
        0 <= k < model.variants.len(),
        model.variants[k].holds(values),
        model.variants[k].error_attribute is Stringy,
    ensures
        rendered(model.display_arms(), model.variants[k].instance(values))
            == (Rendered::Formatted {
            args: model.variants[k].error_attribute->Stringy_0@,
            scope: model.variants[k].filled_pattern(model.ident),
        }),
{
    law_fmt_is_exhaustive(model, k, values);
}

/// What a message may refer to: the filled pattern binds the name of each
/// field to that field's value. Positional fields go by `_0`, `_1` and so on;
/// named fields go by their own names, no two of which may be the same, as
/// the language has it.
pub proof fn law_filled_pattern_binds_fields(
    variant: VariantModel,
    enum_ident: Seq<char>,
    values: Seq<int>,
    i: int,
)
    requires
        variant.wf(),
        variant.holds(values),
        0 <= i < values.len(),
        variant.shape is Named ==> forall|a: int, b: int|
            0 <= a < values.len() && 0 <= b < values.len() && a != b ==> variant.binding(a)
                != variant.binding(b),
    ensures
        variant.filled_pattern(enum_ident).bound(variant.instance(values), variant.binding(i))
            == Some(values[i]),
{
    let name = variant.binding(i);
    match variant.shape {
        FieldsType::Named => {
            let names = Seq::new(variant.fields.len(), |j: int| variant.binding(j));
            assert(names[i] == name);
            let j = choose|j: int| 0 <= j < names.len() && #[trigger] names[j] == name;
            assert(names[j] == variant.binding(j));
        },
        FieldsType::Unnamed => {
            let binders = Seq::new(variant.fields.len(), |j: int| Binder::Ref(variant.binding(j)));
            assert(binders[i] == Binder::Ref(name));
            let j = choose|j: int|
                0 <= j < binders.len() && #[trigger] binders[j] == Binder::Ref(name);
            assert(binders[j] == Binder::Ref(variant.binding(j)));
            if j != i {
                lemma_positional_names_differ(i as nat, j as nat);
            }
        },
        FieldsType::Unit => {},
    }
}

/// Conversion: the `From` implementation of a variant with a `#[from]` field
/// takes the type of that field, and makes of a value the value of that
/// variant which holds it. With distinct variant names, the head pattern of
/// no other variant accepts what it makes.
pub proof fn law_conversion_builds_its_variant(model: EnumModel, k: int, value: int)
    requires
        model.wf(),
        model.names_its_fields(),
        0 <= k < model.variants.len(),
        model.variants[k].from_attribute is Some,
    ensures
        model.variants[k].conversion(model.ident).source_type
            == model.variants[k].from_attribute->0.ty.text(),
        model.variants[k].conversion(model.ident).apply(value)
            == model.variants[k].instance(seq![value]),
        model.variants[k].head_pattern(model.ident).accepts(
            model.variants[k].conversion(model.ident).apply(value),
        ),
        model.has_distinct_variants() ==> forall|j: int|
            0 <= j < model.variants.len() && j != k ==> !(
            #[trigger] model.variants[j]).head_pattern(model.ident).accepts(
                model.variants[k].conversion(model.ident).apply(value),
            ),
{
    let variant = model.variants[k];
    let made = variant.conversion(model.ident).apply(value);
    assert(variant.fields[0] is FromAttribute);
    assert(made.names =~= variant.instance(seq![value]).names);
    lemma_own_patterns_accept(variant, model.ident, seq![value]);
    if model.has_distinct_variants() {
        assert forall|j: int| 0 <= j < model.variants.len() && j != k implies !(
        #[trigger] model.variants[j]).head_pattern(model.ident).accepts(made) by {
            assert(model.variants[j].ident != model.variants[k].ident);
        }
    }
}

/// No two conversions take the same type: where no two variants convert
/// from the same type, as in every enum that passed the checks, the
/// conversions of two different variants differ in their source type.
pub proof fn law_conversions_do_not_clash(model: EnumModel, a: int, b: int)
    requires
        model.has_distinct_sources(),
        0 <= a < model.variants.len(),
        0 <= b < model.variants.len(),
        a != b,
        model.variants[a].from_attribute is Some,
        model.variants[b].from_attribute is Some,
    ensures
        model.variants[a].conversion(model.ident).source_type != model.variants[b].conversion(
            model.ident,
        ).source_type,
{
    if a < b {
        assert(!model.conversions_collide(a, b));
    } else {
        assert(!model.conversions_collide(b, a));
    }
}

/// One conversion for one type: where no two variants convert from the same
/// type, as in every enum that passed the checks, no two of the conversions
/// that the derive writes take the same type.
pub proof fn law_conversions_take_distinct_types(model: EnumModel)
    requires
        model.has_distinct_sources(),
    ensures
        forall|c: int, d: int|
            0 <= c < d < model.conversions().len() ==> (#[trigger] model.conversions()[c]).source_type
                != (#[trigger] model.conversions()[d]).source_type,
{
    lemma_distinct_types(model, model.variants.len() as int);
}

proof fn lemma_distinct_types(model: EnumModel, n: int)
    requires
        model.has_distinct_sources(),
        0 <= n <= model.variants.len(),
    ensures
        forall|c: int, d: int|
            0 <= c < d < conversions_of(model.variants, model.ident, n).len() ==> (
            #[trigger] conversions_of(model.variants, model.ident, n)[c]).source_type != (
            #[trigger] conversions_of(model.variants, model.ident, n)[d]).source_type,
    decreases n,
{
    if n > 0 {
        lemma_distinct_types(model, n - 1);
        lemma_conversions_of(model.variants, model.ident, n - 1);
        let before = conversions_of(model.variants, model.ident, n - 1);
        let after = conversions_of(model.variants, model.ident, n);
        if model.variants[n - 1].from_attribute is Some {
            assert forall|c: int, d: int| 0 <= c < d < after.len() implies (
            #[trigger] after[c]).source_type != (#[trigger] after[d]).source_type by {
                assert(after[c] == before[c]);
                if d < before.len() {
                    assert(after[d] == before[d]);
                } else {
                    assert(is_from_variant(before[c], model.variants, model.ident, n - 1));
                    let k = choose|k: int|
                        0 <= k < n - 1 && (#[trigger] model.variants[k]).from_attribute is Some
                            && before[c] == model.variants[k].conversion(model.ident);
                    assert(!model.conversions_collide(k, n - 1));
                }
            }
        }
    }
}

/// `conversion` is that of one of the first `n` variants, which has a
/// `#[from]` field.
pub open spec fn is_from_variant(
    conversion: Conversion,
    variants: Seq<VariantModel>,
    enum_ident: Seq<char>,
    n: int,
) -> bool {
    exists|k: int|
        0 <= k < n && (#[trigger] variants[k]).from_attribute is Some && conversion
            == variants[k].conversion(enum_ident)
}

/// The conversions are those of the variants with a `#[from]` field: each
/// such variant has its conversion among them, and each of them is the
/// conversion of such a variant.
pub proof fn law_conversions_are_the_from_variants(model: EnumModel)
    ensures
        forall|k: int|
            0 <= k < model.variants.len() && (
            #[trigger] model.variants[k]).from_attribute is Some
                ==> model.conversions().contains(
                model.variants[k].conversion(model.ident),
            ),
        forall|c: int|
            0 <= c < model.conversions().len() ==> is_from_variant(
                #[trigger] model.conversions()[c],
                model.variants,
                model.ident,
                model.variants.len() as int,
            ),
{
    lemma_conversions_of(model.variants, model.ident, model.variants.len() as int);
}

proof fn lemma_conversions_of(variants: Seq<VariantModel>, enum_ident: Seq<char>, n: int)
    requires
        0 <= n <= variants.len(),
    ensures
        forall|k: int|
            0 <= k < n && (#[trigger] variants[k]).from_attribute is Some ==> conversions_of(
                variants,
                enum_ident,
                n,
            ).contains(variants[k].conversion(enum_ident)),
        forall|c: int|
            0 <= c < conversions_of(variants, enum_ident, n).len() ==> is_from_variant(
                #[trigger] conversions_of(variants, enum_ident, n)[c],
                variants,
                enum_ident,
                n,
            ),
    decreases n,
{
    if n > 0 {
        lemma_conversions_of(variants, enum_ident, n - 1);
        let before = conversions_of(variants, enum_ident, n - 1);
        let after = conversions_of(variants, enum_ident, n);
        assert forall|k: int|
            0 <= k < n && (#[trigger] variants[k]).from_attribute is Some implies after.contains(
            variants[k].conversion(enum_ident),
        ) by {
            if k < n - 1 {
                let c = choose|c: int|
                    0 <= c < before.len() && before[c] == variants[k].conversion(enum_ident);
                assert(after[c] == variants[k].conversion(enum_ident));
            } else {
                assert(after[before.len() as int] == variants[k].conversion(enum_ident));
            }
        }
        assert forall|c: int| 0 <= c < after.len() implies is_from_variant(
            #[trigger] after[c],
            variants,
            enum_ident,
            n,
        ) by {
            if c < before.len() {
                assert(after[c] == before[c]);
                assert(is_from_variant(before[c], variants, enum_ident, n - 1));
                let k = choose|k: int|
                    0 <= k < n - 1 && (#[trigger] variants[k]).from_attribute is Some && before[c]
                        == variants[k].conversion(enum_ident);
                assert(variants[k].from_attribute is Some);
            } else {
                assert(variants[n - 1].from_attribute is Some);
            }
        }
    }
}

} // verus!
