//! Laws of the layout model: properties that hold of every tree and
//! viewport, proved once and for all against the specification functions
//! that the engine's contracts are stated over.

use vstd::prelude::*;
use vstd::arithmetic::div_mod::{
    lemma_fundamental_div_mod, lemma_fundamental_div_mod_converse, lemma_mod_bound,
};
use crate::scalar::{clip, div_trunc, lerp_s, max_i, mul_div_trunc, Fraction};
use crate::utils::{RectView, Vec2View};
use crate::unit::WidgetUnit;
use crate::content::ContentBoxItem;
use crate::flex::{FlexBox, FlexBoxItem};
use crate::grid::GridBox;
use crate::size::SizeBox;
use crate::layout::{ItemView, NodeView};
use crate::model;
use crate::model::{
    ascending, content_child_box, content_child_m, count_upto, flex_no_wrap_m, grid_box_m,
    horizontal, item_nat_main, kept, layout_entries_m, layout_node_m, main_avail, main_margins,
    nw_child_main, nw_place_upto, nw_total_main, pack_lines, pack_upto, shrink_upto, size_box_m,
    unpack_m, weight_share, absolute_rect, content_box_m,
};
use crate::layout::Layout;

verus! {

// ---------------------------------------------------------------------------
// Determinism

/// Layout is deterministic: two results computed from the same tree and the
/// same viewport carry identical mapping entries.
pub proof fn lemma_layout_deterministic(a: Layout, b: Layout, ui: RectView, u: WidgetUnit)
    requires
        a.entries() == layout_entries_m(ui, u),
        b.entries() == layout_entries_m(ui, u),
    ensures
        a.entries() == b.entries(),
{
}

// ---------------------------------------------------------------------------
// Interpolation at the endpoints

/// Interpolating by the fraction zero stays at the start value.
pub proof fn lemma_lerp_zero(a: int, b: int, f: Fraction)
    requires
        f.valid(),
        f.num == 0,
    ensures
        lerp_s(a, b, f) == clip(a),
{
    assert((b - a) * (f.num as int) == 0) by (nonlinear_arith)
        requires
            f.num as int == 0,
    ;
    assert(0int / (f.den as int) == 0);
}

/// Interpolating by the fraction one lands on the end value.
pub proof fn lemma_lerp_one(a: int, b: int, f: Fraction)
    requires
        f.valid(),
        f.num == f.den,
    ensures
        lerp_s(a, b, f) == clip(b),
{
    let d = b - a;
    let den = f.den as int;
    if d >= 0 {
        assert(d * den == d * den + 0);
        lemma_fundamental_div_mod_converse(d * den, den, d, 0);
        assert(mul_div_trunc(d, den, den) == d);
    } else {
        assert((-d) * den == (-d) * den + 0);
        lemma_fundamental_div_mod_converse((-d) * den, den, -d, 0);
        assert((-d) * den == -(d * den)) by (nonlinear_arith);
        assert(d * den < 0) by (nonlinear_arith)
            requires
                d < 0,
                den >= 1,
        ;
        assert(mul_div_trunc(d, den, den) == d);
    }
}

// ---------------------------------------------------------------------------
// Anchor identity

/// Every rectangle a computed node reports starts at its own origin, and its
/// far edges are representable scalars whenever the available size is.
pub proof fn lemma_node_rect_origin(avail: Vec2View, u: WidgetUnit)
    requires
        i64::MIN <= avail.x <= i64::MAX,
        i64::MIN <= avail.y <= i64::MAX,
        layout_node_m(avail, u) is Some,
    ensures
        layout_node_m(avail, u)->Some_0.local_space.left == 0,
        layout_node_m(avail, u)->Some_0.local_space.top == 0,
        i64::MIN <= layout_node_m(avail, u)->Some_0.local_space.right <= i64::MAX,
        i64::MIN <= layout_node_m(avail, u)->Some_0.local_space.bottom <= i64::MAX,
{
    let c = layout_node_m(avail, u)->Some_0;
    match u {
        WidgetUnit::Empty => {},
        WidgetUnit::ContentBox(b) => {
            assert(c.local_space == (RectView { left: 0, right: avail.x, top: 0, bottom: avail.y }));
        },
        WidgetUnit::FlexBox(b) => {
            if b.wrap {
                lemma_wrap_state_bounds(avail, b, pack_lines(avail, b).len() as int);
                assert(c == model::flex_wrap_m(avail, b));
            } else {
                lemma_nw_place_bounds(avail, b, b.items@.len() as int);
                assert(c == flex_no_wrap_m(avail, b));
            }
        },
        WidgetUnit::GridBox(b) => {
            assert(c.local_space == (RectView { left: 0, right: avail.x, top: 0, bottom: avail.y }));
        },
        WidgetUnit::SizeBox(b) => {
            assert(c == size_box_m(avail, b));
        },
        WidgetUnit::ImageBox(b) => {},
        WidgetUnit::TextBox(b) => {},
    }
}

/// The running position and largest cross extent of a non-wrapping flex
/// placement are always representable scalars.
proof fn lemma_nw_place_bounds(avail: Vec2View, b: FlexBox, k: int)
    ensures
        i64::MIN <= nw_place_upto(avail, b, k).main <= i64::MAX,
        i64::MIN <= nw_place_upto(avail, b, k).cross <= i64::MAX,
    decreases k,
{
    if !(k <= 0 || k > b.items@.len()) {
        lemma_nw_place_bounds(avail, b, k - 1);
    }
}

/// The extents of a single wrapped line's placement are always representable
/// scalars.
proof fn lemma_wrap_line_bounds(
    avail: Vec2View,
    b: FlexBox,
    line: model::LineView,
    stack: int,
    k: int,
)
    ensures
        i64::MIN <= model::wrap_line_upto(avail, b, line, stack, k).main <= i64::MAX,
        i64::MIN <= model::wrap_line_upto(avail, b, line, stack, k).cross <= i64::MAX,
    decreases k,
{
    if !(k <= 0 || k <= line.start || k > b.items@.len()) {
        lemma_wrap_line_bounds(avail, b, line, stack, k - 1);
    }
}

/// The extents of a wrapped placement are always representable scalars.
proof fn lemma_wrap_state_bounds(avail: Vec2View, b: FlexBox, li: int)
    ensures
        i64::MIN <= model::wrap_lines_upto(avail, b, pack_lines(avail, b), li).main_max
            <= i64::MAX,
        i64::MIN <= model::wrap_lines_upto(avail, b, pack_lines(avail, b), li).cross_max
            <= i64::MAX,
    decreases li,
{
    let lines = pack_lines(avail, b);
    if !(li <= 0 || li > lines.len()) {
        lemma_wrap_state_bounds(avail, b, li - 1);
        lemma_wrap_line_bounds(
            avail,
            b,
            lines[li - 1],
            model::wrap_lines_upto(avail, b, lines, li - 1).cross_max,
            lines[li - 1].end,
        );
    }
}

/// A content-box child whose anchors span the whole parent (left and top at
/// zero, right and bottom at one) with zero margin, offset and alignment is
/// offered exactly the parent's available rectangle, and its computed
/// subtree is placed at the parent's origin unmoved. In particular a child
/// that fills what it is offered fills the parent's available rectangle.
pub proof fn lemma_anchor_identity(avail: Vec2View, it: ContentBoxItem)
    requires
        it.layout.valid(),
        it.layout.anchors.left.num == 0,
        it.layout.anchors.top.num == 0,
        it.layout.anchors.right.num == it.layout.anchors.right.den,
        it.layout.anchors.bottom.num == it.layout.anchors.bottom.den,
        it.layout.margin.left == 0,
        it.layout.margin.right == 0,
        it.layout.margin.top == 0,
        it.layout.margin.bottom == 0,
        it.layout.offset.x == 0,
        it.layout.offset.y == 0,
        it.layout.align.x.num == 0,
        it.layout.align.y.num == 0,
        0 <= avail.x <= i64::MAX,
        0 <= avail.y <= i64::MAX,
    ensures
        content_child_box(avail, it) == (0int, 0int, avail.x, avail.y),
        layout_node_m(avail, it.slot) is Some ==> content_child_m(avail, it) == Some(
            layout_node_m(avail, it.slot)->Some_0,
        ),
{
    lemma_lerp_zero(0, avail.x, it.layout.anchors.left);
    lemma_lerp_one(0, avail.x, it.layout.anchors.right);
    lemma_lerp_zero(0, avail.y, it.layout.anchors.top);
    lemma_lerp_one(0, avail.y, it.layout.anchors.bottom);
    assert(content_child_box(avail, it) == (0int, 0int, avail.x, avail.y));
    if layout_node_m(avail, it.slot) is Some {
        let c = layout_node_m(avail, it.slot)->Some_0;
        lemma_node_rect_origin(avail, it.slot);
        lemma_lerp_zero(0, clip(c.local_space.width() - avail.x), it.layout.align.x);
        let r1 = c.local_space.translated_x(clip(0 - 0));
        assert(r1 == c.local_space);
        lemma_lerp_zero(0, clip(r1.height() - avail.y), it.layout.align.y);
        let r2 = r1.translated_y(clip(0 - 0));
        assert(r2 == c.local_space);
        assert(content_child_m(avail, it) == Some(
            NodeView { id: c.id, local_space: c.local_space, children: c.children },
        ));
        assert(NodeView { id: c.id, local_space: c.local_space, children: c.children } == c);
    }
}

// ---------------------------------------------------------------------------
// Flex distribution

/// When the total natural main size does not exceed the available extent and
/// no item carries a grow weight, every item keeps exactly its natural main
/// size, less its own margins.
pub proof fn lemma_flex_no_grow_keeps_natural(
    it: FlexBoxItem,
    h: bool,
    total: int,
    ma: int,
    s_total: int,
)
    requires
        total <= ma,
    ensures
        nw_child_main(it, h, total, ma, 0, s_total) == max_i(
            clip(item_nat_main(it, h) - main_margins(it.margin, h)),
            0,
        ),
{
}

/// One placement step of a non-wrapping, forward-ordered flex container:
/// the placed child starts exactly at the running main position plus the
/// item's leading margin, and the running position then advances by the
/// item's resolved main size plus exactly one separation.
pub proof fn lemma_flex_place_step(avail: Vec2View, b: FlexBox, k: int)
    requires
        0 <= k < b.items@.len(),
        kept(b.items@[k]),
        ascending(b.direction),
        ({
            let it = b.items@[k];
            let h = horizontal(b.direction);
            let total = nw_total_main(b.items@, h, b.separation as int);
            let g = model::grow_upto(b.items@, b.items@.len() as int);
            let s = shrink_upto(b.items@, b.items@.len() as int);
            let cm = nw_child_main(it, h, total, main_avail(avail, b.direction), g, s);
            let cc = model::nw_child_cross(it, h, model::cross_avail(avail, b.direction));
            let rect = if h {
                Vec2View { x: cm, y: cc }
            } else {
                Vec2View { x: cc, y: cm }
            };
            layout_node_m(rect, it.slot) is Some
        }),
    ensures
        ({
            let it = b.items@[k];
            let h = horizontal(b.direction);
            let total = nw_total_main(b.items@, h, b.separation as int);
            let g = model::grow_upto(b.items@, b.items@.len() as int);
            let s = shrink_upto(b.items@, b.items@.len() as int);
            let cm = nw_child_main(it, h, total, main_avail(avail, b.direction), g, s);
            let prev = nw_place_upto(avail, b, k);
            let st = nw_place_upto(avail, b, k + 1);
            &&& st.children.len() == prev.children.len() + 1
            &&& (if h {
                st.children.last().local_space.left
            } else {
                st.children.last().local_space.top
            }) == clip(prev.main + (if h {
                b.items@[k].margin.left as int
            } else {
                b.items@[k].margin.top as int
            }))
            &&& st.main == clip(clip(prev.main + cm) + b.separation)
        }),
{
    let it = b.items@[k];
    let h = horizontal(b.direction);
    let total = nw_total_main(b.items@, h, b.separation as int);
    let g = model::grow_upto(b.items@, b.items@.len() as int);
    let s = shrink_upto(b.items@, b.items@.len() as int);
    let cm = nw_child_main(it, h, total, main_avail(avail, b.direction), g, s);
    let cc = model::nw_child_cross(it, h, model::cross_avail(avail, b.direction));
    let rect = if h {
        Vec2View { x: cm, y: cc }
    } else {
        Vec2View { x: cc, y: cm }
    };
    let child = layout_node_m(rect, it.slot)->Some_0;
    lemma_node_rect_origin(rect, it.slot);
    lemma_nw_place_bounds(avail, b, k);
}

/// `(d * w) / (n * w) == d / n`: scaling both a quantity and its divisor by
/// the same positive weight leaves the truncating quotient unchanged.
proof fn lemma_mul_div_cancel(d: int, w: int, n: int)
    requires
        w >= 1,
        n >= 1,
    ensures
        mul_div_trunc(d, w, n * w) == div_trunc(d, n),
{
    assert(n * w >= 1) by (nonlinear_arith)
        requires
            w >= 1,
            n >= 1,
    ;
    if d >= 0 {
        lemma_mul_div_cancel_nonneg(d, w, n);
    } else {
        lemma_mul_div_cancel_nonneg(-d, w, n);
        assert((-d) * w == -(d * w)) by (nonlinear_arith);
        assert(d * w < 0 || d * w == 0) by (nonlinear_arith)
            requires
                d < 0,
                w >= 1,
        ;
        assert(d * w < 0) by (nonlinear_arith)
            requires
                d < 0,
                w >= 1,
        ;
    }
}

/// The cancellation identity for a nonnegative quantity.
proof fn lemma_mul_div_cancel_nonneg(d: int, w: int, n: int)
    requires
        d >= 0,
        w >= 1,
        n >= 1,
    ensures
        (d * w) / (n * w) == d / n,
{
    let q = d / n;
    let r = d % n;
    lemma_fundamental_div_mod(d, n);
    lemma_mod_bound(d, n);
    assert(d * w == q * (n * w) + r * w) by (nonlinear_arith)
        requires
            d == q * n + r,
    ;
    assert(0 <= r * w) by (nonlinear_arith)
        requires
            r >= 0,
            w >= 1,
    ;
    assert(r * w < n * w) by (nonlinear_arith)
        requires
            r < n,
            w >= 1,
    ;
    lemma_fundamental_div_mod_converse(d * w, n * w, q, r * w);
}

/// When every occupied item carries the same shrink weight, the sums of
/// weights and of items stay in that ratio.
proof fn lemma_uniform_shrink_sum(items: Seq<FlexBoxItem>, w: int, k: int)
    requires
        forall|i: int| 0 <= i < items.len() && kept(#[trigger] items[i]) ==> items[i].shrink as int
            == w,
    ensures
        shrink_upto(items, k) == count_upto(items, k) * w,
    decreases k,
{
    if k <= 0 || k > items.len() {
    } else {
        lemma_uniform_shrink_sum(items, w, k - 1);
        if kept(items[k - 1]) {
            assert((count_upto(items, k - 1) + 1) * w == count_upto(items, k - 1) * w + w)
                by (nonlinear_arith);
        }
    }
}

/// No prefix holds a negative number of occupied items.
proof fn lemma_count_nonneg(items: Seq<FlexBoxItem>, k: int)
    ensures
        count_upto(items, k) >= 0,
    decreases k,
{
    if !(k <= 0 || k > items.len()) {
        lemma_count_nonneg(items, k - 1);
    }
}

/// At least one item is occupied when some index is.
proof fn lemma_count_at_least_one(items: Seq<FlexBoxItem>, j: int, k: int)
    requires
        0 <= j < k <= items.len(),
        kept(items[j]),
    ensures
        count_upto(items, k) >= 1,
    decreases k,
{
    lemma_count_nonneg(items, k - 1);
    if j < k - 1 {
        lemma_count_at_least_one(items, j, k - 1);
    }
}

/// When the natural total exceeds the available extent and every occupied
/// item carries the same positive shrink weight, the shortfall is shared
/// equally: each item's share is the shortfall divided by the number of
/// occupied items.
pub proof fn lemma_flex_equal_shrink(
    items: Seq<FlexBoxItem>,
    h: bool,
    sep: int,
    ma: int,
    w: int,
    j: int,
)
    requires
        0 <= j < items.len(),
        kept(items[j]),
        w >= 1,
        forall|i: int| 0 <= i < items.len() && kept(#[trigger] items[i]) ==> items[i].shrink as int
            == w,
    ensures
        weight_share(
            clip(ma - nw_total_main(items, h, sep)),
            items[j].shrink as int,
            shrink_upto(items, items.len() as int),
        ) == clip(
            div_trunc(
                clip(ma - nw_total_main(items, h, sep)),
                count_upto(items, items.len() as int),
            ),
        ),
{
    let len = items.len() as int;
    let n = count_upto(items, len);
    lemma_uniform_shrink_sum(items, w, len);
    lemma_count_at_least_one(items, j, len);
    assert(n * w >= 1) by (nonlinear_arith)
        requires
            n >= 1,
            w >= 1,
    ;
    lemma_mul_div_cancel(clip(ma - nw_total_main(items, h, sep)), w, n);
}

// ---------------------------------------------------------------------------
// Wrap packing

/// With no separation, greedy packing never lets a line's natural main total
/// exceed the available extent unless the line holds a single item that
/// alone exceeds it.
pub proof fn lemma_wrap_packing_bound(avail: Vec2View, b: FlexBox, k: int)
    requires
        b.separation == 0,
        0 <= k <= b.items@.len(),
    ensures
        ({
            let st = pack_upto(avail, b, k);
            &&& i64::MIN <= st.main <= i64::MAX
            &&& (st.count <= 1 || st.main <= main_avail(avail, b.direction))
            &&& forall|i: int|
                0 <= i < st.lines.len() ==> ((#[trigger] st.lines[i]).count <= 1
                    || st.lines[i].main <= main_avail(avail, b.direction))
        }),
    decreases k,
{
    if k > 0 {
        lemma_wrap_packing_bound(avail, b, k - 1);
    }
}

/// With no separation, no packed line's natural main total exceeds the
/// available extent, except a line whose single item alone exceeds it.
pub proof fn lemma_wrap_lines_fit(avail: Vec2View, b: FlexBox)
    requires
        b.separation == 0,
    ensures
        forall|i: int|
            0 <= i < pack_lines(avail, b).len() ==> ((#[trigger] pack_lines(avail, b)[i]).count
                <= 1 || pack_lines(avail, b)[i].main <= main_avail(avail, b.direction)),
{
    lemma_wrap_packing_bound(avail, b, b.items@.len() as int);
}

// ---------------------------------------------------------------------------
// Grid

/// A grid is not computable exactly when it has no rows or no columns.
pub proof fn lemma_grid_zero_dimension(avail: Vec2View, b: GridBox)
    ensures
        grid_box_m(avail, b) is None <==> (b.cols == 0 || b.rows == 0),
{
}

// ---------------------------------------------------------------------------
// Exact sizing

/// A size-constrained node with an exact value on an axis has exactly that
/// extent on that axis, whatever the available size and child content.
pub proof fn lemma_size_box_exact(avail: Vec2View, b: SizeBox)
    ensures
        b.width is Exact ==> size_box_m(avail, b).local_space.width() == clip(
            b.width->Exact_0 as int,
        ),
        b.height is Exact ==> size_box_m(avail, b).local_space.height() == clip(
            b.height->Exact_0 as int,
        ),
{
}

// ---------------------------------------------------------------------------
// Absolute coordinates

/// Flattening a subtree records, for the subtree's own node, exactly its
/// parent-relative rectangle and that rectangle translated by the parent's
/// absolute origin; its descendants are flattened against the node's own
/// absolute rectangle.
pub proof fn lemma_absolute_composition(ui: RectView, n: NodeView)
    ensures
        unpack_m(ui, n).len() >= 1,
        unpack_m(ui, n).last() == (
            n.id,
            ItemView { local_space: n.local_space, ui_space: absolute_rect(n.local_space, ui) },
        ),
        unpack_m(ui, n) == model::unpack_children_m(
            absolute_rect(n.local_space, ui),
            n,
            n.children.len() as int,
        ).push(
            (
                n.id,
                ItemView {
                    local_space: n.local_space,
                    ui_space: absolute_rect(n.local_space, ui),
                },
            ),
        ),
{
}

/// An available-sized root occupies the viewport itself: for a content box,
/// or a grid with rows and columns, at the root, the recorded absolute
/// rectangle equals the supplied viewport rectangle.
pub proof fn lemma_root_absolute_is_viewport(ui: RectView, u: WidgetUnit)
    requires
        u is ContentBox || (u is GridBox && u->GridBox_0.cols > 0 && u->GridBox_0.rows > 0),
        i64::MIN <= ui.left <= i64::MAX,
        i64::MIN <= ui.right <= i64::MAX,
        i64::MIN <= ui.top <= i64::MAX,
        i64::MIN <= ui.bottom <= i64::MAX,
        i64::MIN <= ui.right - ui.left <= i64::MAX,
        i64::MIN <= ui.bottom - ui.top <= i64::MAX,
    ensures
        layout_entries_m(ui, u).len() >= 1,
        layout_entries_m(ui, u).last().1.ui_space == ui,
{
    if u is ContentBox {
        let root = content_box_m(ui.size(), u->ContentBox_0);
        lemma_absolute_composition(ui, root);
    } else {
        let root = grid_box_m(ui.size(), u->GridBox_0)->Some_0;
        lemma_absolute_composition(ui, root);
    }
}

} // verus!
