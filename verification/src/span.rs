//! Source regions.

use vstd::prelude::*;

verus! {

/// A handle for a region of the user's source text.
///
/// The library never looks inside a region: it hands back, inside a
/// diagnostic, the handle of the node at fault. The caller decides what the
/// number stands for.
#[derive(Clone, Copy, Debug, PartialEq, Eq, Structural)]
pub struct Span {
    pub id: usize,
}

impl Span {
    pub fn new(id: usize) -> (span: Self)
        ensures
            span.id == id,
    {
        Span { id }
    }
}

} // verus!
