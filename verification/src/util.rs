//! Some utilities to help out with writing the generators.

use vstd::prelude::*;
use vstd::string::StringExecFns;
use crate::syntax::Path;

pub mod variant;

verus! {

/// The path made of the given names, in order, without a leading `::`.
pub fn create_path(ident_strs: &[&str]) -> (path: Path)
    ensures
        !path.leading_colon,
        path.segments@.len() == ident_strs@.len(),
        forall|i: int| 0 <= i < ident_strs@.len() ==> (#[trigger] path.segments@[i])@ == ident_strs@[i]@,
{
    let mut p: Vec<String> = Vec::new();
    let mut i: usize = 0;
    while i < ident_strs.len()
        invariant
            i <= ident_strs@.len(),
            p@.len() == i,
            forall|j: int| 0 <= j < i ==> (#[trigger] p@[j])@ == ident_strs@[j]@,
        decreases ident_strs@.len() - i,
    {
        p.push(String::from_str(ident_strs[i]));
        i += 1;
    }
    Path { leading_colon: false, segments: p }
}

} // verus!
