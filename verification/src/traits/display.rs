//! Implements the `Display` trait for the user's error type.

use vstd::prelude::*;
use vstd::string::StringExecFns;
use crate::parser::attr::ErrorAttribute;
use crate::model::{EnumModel, VariantModel};
use crate::parser::variant::WrappedVariant;
use crate::parser::UserEnum;
use crate::pattern::Pattern;
use crate::text::{joined, push_joined, texts};

verus! {

/// What a `fmt` arm writes.
pub enum Render {
    /// What `format!` makes of these arguments, with the pattern's names in
    /// scope.
    Format(Seq<char>),
    /// What the value bound to this name makes of itself with `to_string`.
    Delegate(Seq<char>),
    /// Nothing: the arm ends in a comma of its own.
    Nothing,
}

impl Render {
    /// The arm's body as written.
    pub open spec fn text(self) -> Seq<char> {
        match self {
            Render::Format(args) => "{ f.write_str(format!("@ + args + ").as_str()) }"@,
            Render::Delegate(name) => "{ f.write_str(&"@ + name + ".to_string()) }"@,
            Render::Nothing => "Ok(()),"@,
        }
    }
}

/// One arm of the `match` in `fmt`.
pub struct DisplayArm {
    pub pattern: Pattern,
    pub body: Render,
}

impl DisplayArm {
    /// The arm as written.
    pub open spec fn text(self) -> Seq<char> {
        self.pattern.text() + " => "@ + self.body.text()
    }
}

/// The arms as written, in order.
pub open spec fn arm_texts(arms: Seq<DisplayArm>) -> Seq<Seq<char>> {
    Seq::new(arms.len(), |i: int| arms[i].text())
}

/// The path of the error that `fmt` may return.
pub open spec fn fmt_error_path(std: bool) -> Seq<char> {
    if std {
        "std::fmt::Error"@
    } else {
        "core::fmt::Error"@
    }
}

impl VariantModel {
    /// The name to which the filled pattern binds the `#[from]` field: the
    /// field's own name, or `_0` for a field without one.
    pub open spec fn cause_binding(self) -> Seq<char>
        recommends
            self.from_attribute is Some,
    {
        match self.from_attribute->0.ident {
            Some(name) => name@,
            None => "_0"@,
        }
    }

    /// The arm of `fmt` for this variant. It binds every field; it writes
    /// the variant's message, or, for `transparent`, what the `#[from]` field
    /// makes of itself.
    pub open spec fn display_arm(self, enum_ident: Seq<char>) -> DisplayArm {
        DisplayArm {
            pattern: self.filled_pattern(enum_ident),
            body: match self.error_attribute {
                ErrorAttribute::Stringy(args) => Render::Format(args@),
                ErrorAttribute::Transparent => Render::Delegate(self.cause_binding()),
            },
        }
    }
}

impl WrappedVariant {
    /// Writes out the arm of `fmt` for this variant.
    pub fn fmt_arm(&self, enum_ident: &str) -> (text: String)
        requires
            self@.wf(),
        ensures
            text@ == self@.display_arm(enum_ident@).text(),
    {
        let mut out = self.filled_match_head(enum_ident);
        out.append(" => ");
        match &self.error_attribute {
            ErrorAttribute::Stringy(format_args_str) => {
                out.append("{ f.write_str(format!(");
                out.append(format_args_str.as_str());
                out.append(").as_str()) }");
            },
            ErrorAttribute::Transparent => {
                out.append("{ f.write_str(&");
                // use our `#[from]` field, by its name if it has one
                if let Some(info) = &self.from_attribute {
                    match &info.ident {
                        Some(ident) => {
                            out.append(ident.as_str());
                        },
                        None => {
                            out.append("_0");
                        },
                    }
                }
                out.append(".to_string()) }");
            },
        }
        proof {
            assert(out@ =~= self@.display_arm(enum_ident@).text());
        }
        out
    }
}

impl EnumModel {
    /// The arms of the `match` in `fmt`: one for each variant, in
    /// declaration order. An enum without variants gets a single arm that
    /// accepts anything and writes nothing: `_ => Ok(()),`.
    pub open spec fn display_arms(self) -> Seq<DisplayArm> {
        if self.variants.len() == 0 {
            seq![DisplayArm { pattern: Pattern::Any, body: Render::Nothing }]
        } else {
            Seq::new(self.variants.len(), |i: int| self.variants[i].display_arm(self.ident))
        }
    }

    /// The `fmt` method as written.
    pub open spec fn fmt_text(self, std: bool) -> Seq<char> {
        "fn fmt(&self, f: &mut core::fmt::Formatter<'_>) -> Result<(), "@ + fmt_error_path(std)
            + "> { match *self { "@ + joined(arm_texts(self.display_arms()), ", "@) + " } }"@
    }
}

impl UserEnum {
    /// The `Display` trait's `fmt` method.
    ///
    /// `std` chooses the path of the error type that the method names.
    pub fn fmt(&self, std: bool) -> (text: String)
        requires
            self@.wf(),
        ensures
            text@ == self@.fmt_text(std),
    {
        let mut match_arms: Vec<String> = Vec::new();
        if self.variants.len() == 0 {
            // if there are no variants, add a catch-all arm.
            // (this is because of the reference match rule)
            match_arms.push(String::from_str("_ => Ok(()),"));
            proof {
                reveal_strlit("_ => Ok(()),");
                reveal_strlit("_");
                reveal_strlit(" => ");
                reveal_strlit("Ok(()),");
                assert(match_arms@[0]@ =~= self@.display_arms()[0].text());
            }
        } else {
            let mut i: usize = 0;
            while i < self.variants.len()
                invariant
                    self@.wf(),
                    i <= self.variants@.len(),
                    match_arms@.len() == i,
                    forall|j: int|
                        0 <= j < i ==> (#[trigger] match_arms@[j])@ == self@.variants[j].display_arm(
                            self.ident@,
                        ).text(),
                decreases self.variants@.len() - i,
            {
                assert(self@.variants[i as int].wf());
                match_arms.push(self.variants[i].fmt_arm(self.ident.as_str()));
                i += 1;
            }
        }
        proof {
            assert(texts(match_arms@) =~= arm_texts(self@.display_arms()));
        }
        let mut out = String::from_str(
            "fn fmt(&self, f: &mut core::fmt::Formatter<'_>) -> Result<(), ",
        );
        if std {
            out.append("std::fmt::Error");
        } else {
            out.append("core::fmt::Error");
        }
        out.append("> { match *self { ");
        push_joined(&mut out, &match_arms, ", ");
        out.append(" } }");
        proof {
            assert(out@ =~= self@.fmt_text(std));
        }
        out
    }
}

} // verus!
