//! Stable node identity.

use vstd::prelude::*;

verus! {

/// The stable identity of a widget node, e.g. `"type:/list/0"`.
///
/// Identities are chosen by the tree author; the layout engine only carries
/// them through into the output mapping. Duplicate identities in one tree
/// leave the mapping to the last writer.
#[derive(Debug)]
pub struct WidgetId {
    pub path: String,
}

impl View for WidgetId {
    type V = Seq<char>;

    open spec fn view(&self) -> Seq<char> {
        self.path@
    }
}

impl Clone for WidgetId {
    fn clone(&self) -> (r: Self)
        ensures
            r@ == self@,
    {
        WidgetId { path: self.path.clone() }
    }
}

impl WidgetId {
    /// Wrap a path string as an identity.
    pub fn new(path: String) -> (r: WidgetId)
        ensures
            r@ == path@,
    {
        WidgetId { path }
    }
}

} // verus!
