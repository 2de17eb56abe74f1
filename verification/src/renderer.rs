//! Renderer markers. Turning a tree and its layout into an output format is
//! the business of downstream consumers; the binary renderer serializes the
//! tree snapshot, and lives with the unverified plumbing around this crate.

use vstd::prelude::*;

verus! {

/// Marker for the renderer that emits a binary serialization of the tree.
#[derive(Clone, Copy, Debug)]
pub struct BinaryRenderer;

impl Default for BinaryRenderer {
    fn default() -> (r: Self)
        ensures
            r == BinaryRenderer,
    {
        BinaryRenderer
    }
}

} // verus!
