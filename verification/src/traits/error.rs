//! Implements the `Error` trait for the user's error type.

use vstd::prelude::*;
use vstd::string::StringExecFns;
use crate::model::{EnumModel, VariantModel};
use crate::parser::field::{FieldsType, WrappedFields};
use crate::parser::variant::WrappedVariant;
use crate::parser::UserEnum;
use crate::pattern::{push_refs, ref_items, Binder, Destructure, Pattern};
use crate::text::{joined, push_joined, texts};

verus! {

/// What a `source` arm returns.
pub enum Cause {
    /// `Some` of the value bound to this name.
    Present(Seq<char>),
    /// `None`.
    Absent,
}

impl Cause {
    /// The arm's body as written.
    pub open spec fn text(self) -> Seq<char> {
        match self {
            Cause::Present(name) => "Some("@ + name + ")"@,
            Cause::Absent => "None"@,
        }
    }
}

/// One arm of the `match` in `source`.
pub struct CauseArm {
    pub pattern: Pattern,
    pub body: Cause,
}

impl CauseArm {
    /// The arm as written.
    pub open spec fn text(self) -> Seq<char> {
        self.pattern.text() + " => "@ + self.body.text()
    }
}

/// The arms as written, in order.
pub open spec fn arm_texts(arms: Seq<CauseArm>) -> Seq<Seq<char>> {
    Seq::new(arms.len(), |i: int| arms[i].text())
}

/// The `description` method as written.
pub open spec fn description_text() -> Seq<char> {
    "fn description(&self) -> &str { &\"\" }"@
}

/// The `cause` method as written.
pub open spec fn cause_text() -> Seq<char> {
    "fn cause(&self) -> Option<&dyn Error> { None }"@
}

/// The `Error` trait's `description` method.
///
/// The method this generates is deprecated in favor of `Display`/`ToString`
/// on Error types, so it returns an empty string slice.
pub fn description() -> (text: String)
    ensures
        text@ == description_text(),
{
    String::from_str("fn description(&self) -> &str { &\"\" }")
}

/// The `Error` trait's `cause` method. Now deprecated in favor of `source`,
/// which has the 'static bound.
///
/// As such, the method it generates always returns None.
pub fn cause() -> (text: String)
    ensures
        text@ == cause_text(),
{
    String::from_str("fn cause(&self) -> Option<&dyn Error> { None }")
}

impl VariantModel {
    /// The arm of `source` for this variant. With a `#[from]` field it binds
    /// that field, by its name between braces and as `e` between
    /// parentheses, and returns it; without one it binds nothing and returns
    /// `None`.
    pub open spec fn cause_arm(self, enum_ident: Seq<char>) -> CauseArm {
        match (self.from_attribute, self.shape) {
            (Some(info), FieldsType::Named) => CauseArm {
                pattern: Pattern::Variant {
                    enum_ident,
                    variant_ident: self.ident,
                    fields: Destructure::Braces(seq![info.ident->0@]),
                },
                body: Cause::Present(info.ident->0@),
            },
            (Some(_), FieldsType::Unnamed) => CauseArm {
                pattern: Pattern::Variant {
                    enum_ident,
                    variant_ident: self.ident,
                    fields: Destructure::Parens(seq![Binder::Ref("e"@)]),
                },
                body: Cause::Present("e"@),
            },
            _ => CauseArm { pattern: self.head_pattern(enum_ident), body: Cause::Absent },
        }
    }
}

impl WrappedVariant {
    /// Writes out the arm of `source` for this variant.
    pub fn source_arm(&self, enum_ident: &str) -> (text: String)
        requires
            self@.wf(),
            self@.names_its_fields(),
        ensures
            text@ == self@.cause_arm(enum_ident@).text(),
    {
        if let Some(info) = &self.from_attribute {
            proof {
                assert(self@.fields[0] is FromAttribute);
            }
            let mut out = self.variant_path(enum_ident).to_string();
            match &self.fields {
                WrappedFields::Named(_) => {
                    if let Some(from_ident) = &info.ident {
                        let mut names: Vec<String> = Vec::new();
                        names.push(from_ident.clone());
                        proof {
                            assert(ref_items(names@) =~= Destructure::Braces(
                                seq![from_ident@],
                            ).items());
                        }
                        push_refs(&mut out, "{", &names, "}");
                        out.append(" => ");
                        out.append("Some(");
                        out.append(from_ident.as_str());
                        out.append(")");
                    }
                },
                WrappedFields::Unnamed(_) => {
                    let mut names: Vec<String> = Vec::new();
                    names.push(String::from_str("e"));
                    proof {
                        assert(ref_items(names@) =~= Destructure::Parens(
                            seq![Binder::Ref("e"@)],
                        ).items());
                    }
                    push_refs(&mut out, "(", &names, ")");
                    out.append(" => ");
                    out.append("Some(");
                    out.append("e");
                    out.append(")");
                },
                WrappedFields::Unit => {
                    // unit variants cannot have a `#[from]` field
                    proof {
                        assert(self.fields.list().len() == 0);
                    }
                },
            }
            proof {
                assert(out@ =~= self@.cause_arm(enum_ident@).text());
            }
            out
        } else {
            let mut out = self.match_head(enum_ident);
            out.append(" => ");
            out.append("None");
            proof {
                assert(out@ =~= self@.cause_arm(enum_ident@).text());
            }
            out
        }
    }
}

impl EnumModel {
    /// The arms of the `match` in `source`: one for each variant, in
    /// declaration order.
    pub open spec fn cause_arms(self) -> Seq<CauseArm> {
        Seq::new(self.variants.len(), |i: int| self.variants[i].cause_arm(self.ident))
    }

    /// The `source` method as written.
    pub open spec fn source_text(self) -> Seq<char> {
        "fn source(&self) -> Option<&(dyn Error + 'static)> { match *self { "@ + joined(
            arm_texts(self.cause_arms()),
            ", "@,
        ) + " } }"@
    }
}

impl UserEnum {
    /// The `Error` trait's `source` method.
    pub fn source(&self) -> (text: String)
        requires
            self@.wf(),
            self@.names_its_fields(),
        ensures
            text@ == self@.source_text(),
    {
        let mut match_arms: Vec<String> = Vec::new();
        let mut i: usize = 0;
        while i < self.variants.len()
            invariant
                self@.wf(),
                self@.names_its_fields(),
                i <= self.variants@.len(),
                match_arms@.len() == i,
                forall|j: int|
                    0 <= j < i ==> (#[trigger] match_arms@[j])@ == self@.variants[j].cause_arm(
                        self.ident@,
                    ).text(),
            decreases self.variants@.len() - i,
        {
            assert(self@.variants[i as int].wf() && self@.variants[i as int].names_its_fields());
            match_arms.push(self.variants[i].source_arm(self.ident.as_str()));
            i += 1;
        }
        proof {
            assert(texts(match_arms@) =~= arm_texts(self@.cause_arms()));
        }
        let mut out = String::from_str(
            "fn source(&self) -> Option<&(dyn Error + 'static)> { match *self { ",
        );
        push_joined(&mut out, &match_arms, ", ");
        out.append(" } }");
        proof {
            assert(out@ =~= self@.source_text());
        }
        out
    }

    /// The `Error` trait's `description` method.
    pub fn description() -> (text: String)
        ensures
            text@ == description_text(),
    {
        self::description()
    }

    /// The `Error` trait's `cause` method.
    pub fn cause() -> (text: String)
        ensures
            text@ == cause_text(),
    {
        self::cause()
    }
}

} // verus!
