//! The implementations that the derive writes: `Display`, `Error`, and `From`
//! for every variant with a `#[from]` field.

use vstd::prelude::*;
use vstd::string::StringExecFns;
use crate::model::EnumModel;
use crate::parser::UserEnum;
use crate::text::joined;
use crate::traits::error::{cause_text, description_text};
use crate::traits::from::conversions_text;
use crate::util::create_path;

pub mod display;
pub mod error;
pub mod from;

verus! {

/// The names of the path of the `Error` trait: under `std` where the
/// standard library is there, else under `core`.
pub open spec fn error_trait_names(std: bool) -> Seq<Seq<char>> {
    if std {
        seq!["std"@, "error"@, "Error"@]
    } else {
        seq!["core"@, "error"@, "Error"@]
    }
}

/// The names of the path of the `Display` trait.
pub open spec fn display_trait_names() -> Seq<Seq<char>> {
    seq!["core"@, "fmt"@, "Display"@]
}

impl EnumModel {
    /// Everything that the derive writes for this enum: the implementation
    /// of `Error`, with `source` and the two deprecated methods; that of
    /// `Display`, with `fmt`; and the conversions.
    pub open spec fn derived_text(self, std: bool) -> Seq<char> {
        self.generics.impl_header(joined(error_trait_names(std), "::"@), self.ident)
            + self.source_text() + " "@ + description_text() + " "@ + cause_text() + " } "@
            + self.generics.impl_header(joined(display_trait_names(), "::"@), self.ident)
            + self.fmt_text(std) + " } "@ + conversions_text(self.conversions(), self.generics)
    }
}

/// Writes out the implementations for a checked enum.
///
/// `std` tells whether the generated code may name the standard library; if
/// not, it names `core` alone.
pub fn derive_error(user_enum: &UserEnum, std: bool) -> (text: String)
    requires
        user_enum@.wf(),
        user_enum@.names_its_fields(),
    ensures
        text@ == user_enum@.derived_text(std),
{
    // make a from block for each variant
    let froms = user_enum.from();
    // make all Error impl fns...
    let source = user_enum.source();
    let description = UserEnum::description();
    let cause = UserEnum::cause();
    // ...and all Display impl fns
    let fmt = user_enum.fmt(std);
    let error_path = if std {
        create_path(&["std", "error", "Error"])
    } else {
        create_path(&["core", "error", "Error"])
    };
    let display_path = create_path(&["core", "fmt", "Display"]);
    proof {
        assert(error_path.names() =~= error_trait_names(std));
        assert(display_path.names() =~= display_trait_names());
    }
    // put all those together!
    let mut out = String::new();
    user_enum.generics.push_impl_header(
        &mut out,
        error_path.to_string().as_str(),
        user_enum.ident.as_str(),
    );
    out.append(source.as_str());
    out.append(" ");
    out.append(description.as_str());
    out.append(" ");
    out.append(cause.as_str());
    out.append(" } ");
    user_enum.generics.push_impl_header(
        &mut out,
        display_path.to_string().as_str(),
        user_enum.ident.as_str(),
    );
    out.append(fmt.as_str());
    out.append(" } ");
    out.append(froms.as_str());
    proof {
        assert(out@ =~= user_enum@.derived_text(std));
    }
    out
}

} // verus!
