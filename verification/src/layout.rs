//! Layout results: the computed tree, its flattened items, and their
//! mathematical views.

use vstd::prelude::*;
use crate::utils::{Rect, RectView};
use crate::widget_id::WidgetId;

verus! {

/// Mathematical view of a computed node: identity, parent-relative rectangle,
/// and the views of its children in order.
pub struct NodeView {
    pub id: Seq<char>,
    pub local_space: RectView,
    pub children: Seq<NodeView>,
}

/// A computed node: its identity, its rectangle relative to its parent's
/// origin, and its computed children.
#[derive(Debug)]
pub struct LayoutNode {
    pub id: WidgetId,
    pub local_space: Rect,
    pub children: Vec<LayoutNode>,
}

/// The view of a computed node, taken recursively over its children.
pub open spec fn node_view(n: LayoutNode) -> NodeView
    decreases n, 1int,
{
    NodeView {
        id: n.id@,
        local_space: n.local_space@,
        children: node_views_upto(n.children, n.children@.len() as int),
    }
}

/// The views of the first `k` nodes of a list, in order.
pub open spec fn node_views_upto(v: Vec<LayoutNode>, k: int) -> Seq<NodeView>
    decreases v, k,
        when k <= v@.len() as int
{
    if k <= 0 {
        Seq::empty()
    } else {
        node_views_upto(v, k - 1).push(node_view(v@[k - 1]))
    }
}

/// The views of a list of computed nodes, in order.
pub open spec fn node_views(v: Vec<LayoutNode>) -> Seq<NodeView> {
    node_views_upto(v, v@.len() as int)
}

impl View for LayoutNode {
    type V = NodeView;

    open spec fn view(&self) -> NodeView {
        node_view(*self)
    }
}

/// The view of an optional computed node.
pub open spec fn opt_node_view(r: Option<LayoutNode>) -> Option<NodeView> {
    match r {
        Some(n) => Some(node_view(n)),
        None => None,
    }
}

/// Two lists that agree on their first `k` nodes have the same views of
/// those nodes.
pub proof fn lemma_node_views_prefix(v1: Vec<LayoutNode>, v2: Vec<LayoutNode>, k: int)
    requires
        0 <= k <= v1@.len(),
        k <= v2@.len(),
        forall|j: int| 0 <= j < k ==> v1@[j] == v2@[j],
    ensures
        node_views_upto(v1, k) == node_views_upto(v2, k),
    decreases k,
{
    if k > 0 {
        lemma_node_views_prefix(v1, v2, k - 1);
    }
}

/// Appending a node appends its view.
pub proof fn lemma_node_views_push(v: Vec<LayoutNode>, w: Vec<LayoutNode>, n: LayoutNode)
    requires
        w@ == v@.push(n),
    ensures
        node_views(w) == node_views(v).push(node_view(n)),
{
    lemma_node_views_prefix(w, v, v@.len() as int);
    assert(w@[w@.len() - 1] == n);
}

/// Pushing onto the right part of a concatenation pushes onto the whole.
pub proof fn lemma_concat_push<A>(a: Seq<A>, b: Seq<A>, x: A)
    ensures
        (a + b).push(x) == a + b.push(x),
{
    assert((a + b).push(x) =~= a + b.push(x));
}

/// A view list is as long as the prefix it was taken over.
pub proof fn lemma_node_views_len(v: Vec<LayoutNode>, k: int)
    requires
        0 <= k <= v@.len(),
    ensures
        node_views_upto(v, k).len() == k,
    decreases k,
{
    if k > 0 {
        lemma_node_views_len(v, k - 1);
    }
}

/// A view list holds the view of each node, in place.
pub proof fn lemma_node_views_index(v: Vec<LayoutNode>, k: int, j: int)
    requires
        0 <= j < k <= v@.len(),
    ensures
        node_views_upto(v, k)[j] == node_view(v@[j]),
    decreases k,
{
    lemma_node_views_len(v, k);
    if j < k - 1 {
        lemma_node_views_index(v, k - 1, j);
        lemma_node_views_len(v, k - 1);
    }
}

/// Mathematical view of one flattened entry.
pub struct ItemView {
    pub local_space: RectView,
    pub ui_space: RectView,
}

/// One entry of the flattened mapping: the node's rectangle relative to its
/// parent and its rectangle in absolute viewport coordinates.
#[derive(Clone, Copy, Debug, PartialEq, Eq, Structural)]
pub struct LayoutItem {
    pub local_space: Rect,
    pub ui_space: Rect,
}

impl View for LayoutItem {
    type V = ItemView;

    open spec fn view(&self) -> ItemView {
        ItemView { local_space: self.local_space@, ui_space: self.ui_space@ }
    }
}

/// The final layout: the viewport rectangle echoed back, plus the mapping
/// from identity to geometry, kept as entries in post-order. A repeated
/// identity is resolved by its last entry.
#[derive(Debug)]
pub struct Layout {
    pub ui_space: Rect,
    pub items: Vec<(WidgetId, LayoutItem)>,
}

/// The mathematical entries of an identity-keyed item list.
pub open spec fn entries_of(s: Seq<(WidgetId, LayoutItem)>) -> Seq<(Seq<char>, ItemView)> {
    s.map_values(|p: (WidgetId, LayoutItem)| (p.0@, p.1@))
}

/// Appending an entry appends its view.
pub proof fn lemma_entries_push(
    s: Seq<(WidgetId, LayoutItem)>,
    t: Seq<(WidgetId, LayoutItem)>,
    p: (WidgetId, LayoutItem),
)
    requires
        t == s.push(p),
    ensures
        entries_of(t) == entries_of(s).push((p.0@, p.1@)),
{
    assert(entries_of(t) =~= entries_of(s).push((p.0@, p.1@)));
}

/// The geometry recorded for an identity: of all entries carrying the key,
/// the last one wins; absent keys yield nothing.
pub open spec fn lookup_entry(s: Seq<(Seq<char>, ItemView)>, key: Seq<char>) -> Option<ItemView>
    decreases s.len(),
{
    if s.len() == 0 {
        None
    } else if s.last().0 == key {
        Some(s.last().1)
    } else {
        lookup_entry(s.drop_last(), key)
    }
}

impl Layout {
    /// The entries as a sequence of (identity, geometry) pairs.
    pub open spec fn entries(self) -> Seq<(Seq<char>, ItemView)> {
        entries_of(self.items@)
    }

    /// The geometry recorded for an identity, the last entry winning when an
    /// identity was recorded more than once.
    pub fn get(&self, path: &String) -> (r: Option<&LayoutItem>)
        ensures
            match r {
                Some(item) => lookup_entry(self.entries(), path@) == Some(item@),
                None => lookup_entry(self.entries(), path@) is None,
            },
    {
        let n = self.items.len();
        proof {
            assert(entries_of(self.items@).take(n as int) =~= entries_of(self.items@));
        }
        let mut i: usize = n;
        while i > 0
            invariant
                i <= n,
                n == self.items@.len(),
                lookup_entry(entries_of(self.items@), path@) == lookup_entry(
                    entries_of(self.items@).take(i as int),
                    path@,
                ),
            decreases i,
        {
            i = i - 1;
            proof {
                let es = entries_of(self.items@);
                assert(es.take(i as int + 1).last() == es[i as int]);
                assert(es.take(i as int + 1).drop_last() =~= es.take(i as int));
            }
            if self.items[i].0.path == *path {
                return Some(&self.items[i].1);
            }
        }
        None
    }
}

} // verus!
