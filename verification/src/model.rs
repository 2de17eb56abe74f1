//! The mathematical meaning of layout: for every box kind, a specification
//! function mapping (available size, node) to the computed subtree.
//!
//! These functions define what the executable engine must return; each
//! arithmetic step clamps into the scalar range exactly as the engine does.

use vstd::prelude::*;
use crate::scalar::{clip, div_trunc, lerp_s, max_i, mul_div_trunc};
use crate::utils::{Rect, RectView, Vec2View};
use crate::unit::WidgetUnit;
use crate::content::{ContentBox, ContentBoxItem};
use crate::flex::{FlexBox, FlexBoxDirection, FlexBoxItem};
use crate::grid::{GridBox, GridBoxItem};
use crate::size::{SizeBox, SizeBoxSizeValue};
use crate::image::ImageBoxSizeValue;
use crate::text::TextBoxSizeValue;
use crate::layout::{ItemView, NodeView};

verus! {

// ---------------------------------------------------------------------------
// Axes and margins

/// Whether the direction's main axis is horizontal.
pub open spec fn horizontal(d: FlexBoxDirection) -> bool {
    d == FlexBoxDirection::HorizontalLeftToRight || d == FlexBoxDirection::HorizontalRightToLeft
}

/// Whether placement accumulates forward along the main axis.
pub open spec fn ascending(d: FlexBoxDirection) -> bool {
    d == FlexBoxDirection::HorizontalLeftToRight || d == FlexBoxDirection::VerticalTopToBottom
}

/// The available extent along the main axis.
pub open spec fn main_avail(avail: Vec2View, d: FlexBoxDirection) -> int {
    if horizontal(d) {
        avail.x
    } else {
        avail.y
    }
}

/// The available extent across the main axis.
pub open spec fn cross_avail(avail: Vec2View, d: FlexBoxDirection) -> int {
    if horizontal(d) {
        avail.y
    } else {
        avail.x
    }
}

/// The two margins of `m` along the main axis, summed.
pub open spec fn main_margins(m: Rect, h: bool) -> int {
    if h {
        clip(m.left + m.right)
    } else {
        clip(m.top + m.bottom)
    }
}

/// The two margins of `m` across the main axis, summed.
pub open spec fn cross_margins(m: Rect, h: bool) -> int {
    main_margins(m, !h)
}

/// `n - 1`, but never below zero; the count of separations between `n` items.
pub open spec fn seps_of(n: int) -> int {
    if n <= 0 {
        0
    } else {
        n - 1
    }
}

// ---------------------------------------------------------------------------
// Natural (minimum content) sizes

/// The natural content width of a node: exact leaf widths, size-constrained
/// nodes resolved when content-derived (adding that node's margins), zero for
/// every other kind.
pub open spec fn min_width(u: WidgetUnit) -> int
    decreases u,
{
    match u {
        WidgetUnit::ImageBox(b) => match b.width {
            ImageBoxSizeValue::Fill => 0,
            ImageBoxSizeValue::Exact(v) => v as int,
        },
        WidgetUnit::TextBox(b) => match b.width {
            TextBoxSizeValue::Fill => 0,
            TextBoxSizeValue::Exact(v) => v as int,
        },
        WidgetUnit::SizeBox(b) => clip(
            clip(b.margin.left + b.margin.right) + match b.width {
                SizeBoxSizeValue::Content => min_width(*b.slot),
                SizeBoxSizeValue::Fill => 0,
                SizeBoxSizeValue::Exact(v) => v as int,
            },
        ),
        _ => 0,
    }
}

/// The natural content height of a node; see `min_width`.
pub open spec fn min_height(u: WidgetUnit) -> int
    decreases u,
{
    match u {
        WidgetUnit::ImageBox(b) => match b.height {
            ImageBoxSizeValue::Fill => 0,
            ImageBoxSizeValue::Exact(v) => v as int,
        },
        WidgetUnit::TextBox(b) => match b.height {
            TextBoxSizeValue::Fill => 0,
            TextBoxSizeValue::Exact(v) => v as int,
        },
        WidgetUnit::SizeBox(b) => clip(
            clip(b.margin.top + b.margin.bottom) + match b.height {
                SizeBoxSizeValue::Content => min_height(*b.slot),
                SizeBoxSizeValue::Fill => 0,
                SizeBoxSizeValue::Exact(v) => v as int,
            },
        ),
        _ => 0,
    }
}

// ---------------------------------------------------------------------------
// Flex items

/// Whether a flex item occupies a slot at all; empty slots are skipped.
pub open spec fn kept(it: FlexBoxItem) -> bool {
    !(it.slot is Empty)
}

/// An item's main-axis base size: its explicit basis, or the natural size of
/// its slot along the main axis.
pub open spec fn item_basis_main(it: FlexBoxItem, h: bool) -> int {
    match it.basis {
        Some(v) => v as int,
        None => if h {
            min_width(it.slot)
        } else {
            min_height(it.slot)
        },
    }
}

/// An item's natural main-axis size: base size plus main-axis margins.
pub open spec fn item_nat_main(it: FlexBoxItem, h: bool) -> int {
    clip(item_basis_main(it, h) + main_margins(it.margin, h))
}

/// An item's natural cross-axis size: the slot's natural size across the
/// main axis plus cross-axis margins.
pub open spec fn item_nat_cross(it: FlexBoxItem, h: bool) -> int {
    clip(
        (if h {
            min_height(it.slot)
        } else {
            min_width(it.slot)
        }) + cross_margins(it.margin, h),
    )
}

// ---------------------------------------------------------------------------
// Flex sums over item prefixes (empty slots contribute nothing)

/// Sum of natural main sizes over the first `k` items.
pub open spec fn main_sum_upto(items: Seq<FlexBoxItem>, h: bool, k: int) -> int
    decreases k,
{
    if k <= 0 || k > items.len() {
        0
    } else {
        let p = main_sum_upto(items, h, k - 1);
        if kept(items[k - 1]) {
            clip(p + item_nat_main(items[k - 1], h))
        } else {
            p
        }
    }
}

/// Sum of grow weights over the first `k` items.
pub open spec fn grow_upto(items: Seq<FlexBoxItem>, k: int) -> int
    decreases k,
{
    if k <= 0 || k > items.len() {
        0
    } else {
        grow_upto(items, k - 1) + if kept(items[k - 1]) {
            items[k - 1].grow as int
        } else {
            0
        }
    }
}

/// Sum of shrink weights over the first `k` items.
pub open spec fn shrink_upto(items: Seq<FlexBoxItem>, k: int) -> int
    decreases k,
{
    if k <= 0 || k > items.len() {
        0
    } else {
        shrink_upto(items, k - 1) + if kept(items[k - 1]) {
            items[k - 1].shrink as int
        } else {
            0
        }
    }
}

/// How many of the first `k` items occupy a slot.
pub open spec fn count_upto(items: Seq<FlexBoxItem>, k: int) -> int
    decreases k,
{
    if k <= 0 || k > items.len() {
        0
    } else {
        count_upto(items, k - 1) + if kept(items[k - 1]) {
            1int
        } else {
            0int
        }
    }
}

/// Total natural main size of all items, separations included.
pub open spec fn nw_total_main(items: Seq<FlexBoxItem>, h: bool, sep: int) -> int {
    clip(
        main_sum_upto(items, h, items.len() as int) + clip(
            seps_of(count_upto(items, items.len() as int)) * sep,
        ),
    )
}

// ---------------------------------------------------------------------------
// Flex without wrapping

/// The share of leftover main-axis space an item receives: leftover times the
/// item's weight over the total weight, clamped into the scalar range, or
/// nothing when no weight is positive.
pub open spec fn weight_share(diff: int, w: int, total: int) -> int {
    if total > 0 {
        clip(mul_div_trunc(diff, w, total))
    } else {
        0
    }
}

/// An item's resolved main-axis extent (margins removed, clamped at zero):
/// natural size plus a grow share when space is left over, minus a shrink
/// share when space is short.
pub open spec fn nw_child_main(
    it: FlexBoxItem,
    h: bool,
    total: int,
    ma: int,
    g_total: int,
    s_total: int,
) -> int {
    let base = item_nat_main(it, h);
    let diff = clip(ma - total);
    let resolved = if total < ma {
        clip(base + weight_share(diff, it.grow as int, g_total))
    } else if total > ma {
        clip(base + weight_share(diff, it.shrink as int, s_total))
    } else {
        base
    };
    max_i(clip(resolved - main_margins(it.margin, h)), 0)
}

/// An item's resolved cross-axis extent without wrapping: natural cross size
/// widened toward the available cross size by the fill fraction, margins
/// removed, clamped at zero.
pub open spec fn nw_child_cross(it: FlexBoxItem, h: bool, ca: int) -> int {
    let widened = lerp_s(item_nat_cross(it, h), ca, it.fill);
    max_i(clip(widened - cross_margins(it.margin, h)), 0)
}

/// Accumulated placement state along a flex run: placed children, the running
/// main-axis position, and the largest cross extent used.
pub struct FlexPlace {
    pub children: Seq<NodeView>,
    pub main: int,
    pub cross: int,
}

/// A child rectangle translated along the main axis: forward from the running
/// position when ascending, mirrored from the far edge when descending.
pub open spec fn place_main(
    r: RectView,
    avail: Vec2View,
    h: bool,
    asc: bool,
    run: int,
    m: Rect,
) -> RectView {
    if h {
        if asc {
            r.translated_x(clip(run + m.left))
        } else {
            RectView {
                left: clip(clip(clip(avail.x - r.right) - run) - m.right),
                right: clip(clip(clip(avail.x - r.left) - run) - m.right),
                top: r.top,
                bottom: r.bottom,
            }
        }
    } else {
        if asc {
            r.translated_y(clip(run + m.top))
        } else {
            RectView {
                left: r.left,
                right: r.right,
                top: clip(clip(clip(avail.y - r.bottom) - run) - m.bottom),
                bottom: clip(clip(clip(avail.y - r.top) - run) - m.bottom),
            }
        }
    }
}

/// Placement of the first `k` items of a non-wrapping flex container.
pub open spec fn nw_place_upto(avail: Vec2View, b: FlexBox, k: int) -> FlexPlace
    decreases b, 2int, k,
{
    if k <= 0 || k > b.items@.len() {
        FlexPlace { children: Seq::empty(), main: 0, cross: 0 }
    } else {
        let prev = nw_place_upto(avail, b, k - 1);
        let it = b.items@[k - 1];
        if !kept(it) {
            prev
        } else {
            let h = horizontal(b.direction);
            let asc = ascending(b.direction);
            let ma = main_avail(avail, b.direction);
            let ca = cross_avail(avail, b.direction);
            let n = b.items@.len() as int;
            let total = nw_total_main(b.items@, h, b.separation as int);
            let g = grow_upto(b.items@, n);
            let s = shrink_upto(b.items@, n);
            let cm = nw_child_main(it, h, total, ma, g, s);
            let cc = nw_child_cross(it, h, ca);
            let rect = if h {
                Vec2View { x: cm, y: cc }
            } else {
                Vec2View { x: cc, y: cm }
            };
            match layout_node_m(rect, it.slot) {
                None => prev,
                Some(child) => {
                    let r1 = place_main(child.local_space, avail, h, asc, prev.main, it.margin);
                    let cross_extent = if h {
                        r1.height()
                    } else {
                        r1.width()
                    };
                    let off = lerp_s(0, clip(ca - cross_extent), it.align);
                    let r2 = if h {
                        r1.translated_y(clip(it.margin.top + off))
                    } else {
                        r1.translated_x(clip(it.margin.left + off))
                    };
                    let used_main = if h {
                        rect.x
                    } else {
                        rect.y
                    };
                    let used_cross = if h {
                        rect.y
                    } else {
                        rect.x
                    };
                    FlexPlace {
                        children: prev.children.push(
                            NodeView { id: child.id, local_space: r2, children: child.children },
                        ),
                        main: clip(clip(prev.main + used_main) + b.separation),
                        cross: max_i(prev.cross, used_cross),
                    }
                },
            }
        }
    }
}

/// A non-wrapping flex container: items keep their natural main sizes, plus a
/// grow share of leftover space or minus a shrink share of missing space, and
/// are placed sequentially with the configured separation. The container
/// shrinks to its content.
pub open spec fn flex_no_wrap_m(avail: Vec2View, b: FlexBox) -> NodeView
    decreases b, 3int, 0int,
{
    let place = nw_place_upto(avail, b, b.items@.len() as int);
    let main_extent = max_i(clip(place.main - b.separation), 0);
    let local = if horizontal(b.direction) {
        RectView { left: 0, right: main_extent, top: 0, bottom: place.cross }
    } else {
        RectView { left: 0, right: place.cross, top: 0, bottom: main_extent }
    };
    NodeView { id: b.id@, local_space: local, children: place.children }
}

// ---------------------------------------------------------------------------
// Flex with wrapping

/// One packed line: the item index range `[start, end)`, the line's natural
/// main size with separations, its largest natural cross size, its total grow
/// weight, and how many occupied slots it holds.
pub struct LineView {
    pub start: int,
    pub end: int,
    pub main: int,
    pub cross: int,
    pub grow: int,
    pub count: int,
}

/// Packing state: closed lines plus the open line's accumulators.
pub struct PackState {
    pub lines: Seq<LineView>,
    pub start: int,
    pub main: int,
    pub cross: int,
    pub grow: int,
    pub count: int,
}

/// Greedy packing of the first `k` items into lines: a line that already
/// holds an item closes when the next item's natural main size would push it
/// past the available extent.
pub open spec fn pack_upto(avail: Vec2View, b: FlexBox, k: int) -> PackState
    decreases k,
{
    if k <= 0 || k > b.items@.len() {
        PackState { lines: Seq::empty(), start: 0, main: 0, cross: 0, grow: 0, count: 0 }
    } else {
        let st = pack_upto(avail, b, k - 1);
        let it = b.items@[k - 1];
        if !kept(it) {
            st
        } else {
            let h = horizontal(b.direction);
            let ma = main_avail(avail, b.direction);
            let lm = item_nat_main(it, h);
            let lc = item_nat_cross(it, h);
            let st1 = if st.count > 0 && clip(st.main + lm) > ma {
                PackState {
                    lines: st.lines.push(
                        LineView {
                            start: st.start,
                            end: k - 1,
                            main: clip(st.main + clip(seps_of(st.count) * b.separation)),
                            cross: st.cross,
                            grow: st.grow,
                            count: st.count,
                        },
                    ),
                    start: k - 1,
                    main: 0,
                    cross: 0,
                    grow: 0,
                    count: 0,
                }
            } else {
                st
            };
            PackState {
                lines: st1.lines,
                start: st1.start,
                main: clip(st1.main + lm),
                cross: max_i(st1.cross, lc),
                grow: st1.grow + it.grow as int,
                count: st1.count + 1,
            }
        }
    }
}

/// All packed lines of a wrapping flex container; the open line is always
/// closed at the end, even when empty.
pub open spec fn pack_lines(avail: Vec2View, b: FlexBox) -> Seq<LineView> {
    let n = b.items@.len() as int;
    let st = pack_upto(avail, b, n);
    st.lines.push(
        LineView {
            start: st.start,
            end: n,
            main: clip(st.main + clip(seps_of(st.count) * b.separation)),
            cross: st.cross,
            grow: st.grow,
            count: st.count,
        },
    )
}

/// An item's resolved main-axis extent within a line: natural size plus a
/// grow share of the line's leftover space (wrapping never shrinks).
pub open spec fn wrap_child_main(it: FlexBoxItem, h: bool, line: LineView, ma: int) -> int {
    let base = item_nat_main(it, h);
    let diff = clip(ma - line.main);
    let resolved = if line.main < ma {
        clip(base + weight_share(diff, it.grow as int, line.grow))
    } else {
        base
    };
    max_i(clip(resolved - main_margins(it.margin, h)), 0)
}

/// An item's resolved cross-axis extent within a line: natural cross size
/// minus margins, clamped at zero, widened toward the line's cross extent by
/// the fill fraction.
pub open spec fn wrap_child_cross(it: FlexBoxItem, h: bool, line: LineView) -> int {
    let trimmed = max_i(clip(item_nat_cross(it, h) - cross_margins(it.margin, h)), 0);
    lerp_s(trimmed, line.cross, it.fill)
}

/// Placement of the items of one line up to index `k`, the line stacked at
/// cross-axis offset `stack`.
pub open spec fn wrap_line_upto(
    avail: Vec2View,
    b: FlexBox,
    line: LineView,
    stack: int,
    k: int,
) -> FlexPlace
    decreases b, 1int, k,
{
    if k <= 0 || k <= line.start || k > b.items@.len() {
        FlexPlace { children: Seq::empty(), main: 0, cross: 0 }
    } else {
        let prev = wrap_line_upto(avail, b, line, stack, k - 1);
        let it = b.items@[k - 1];
        if !kept(it) {
            prev
        } else {
            let h = horizontal(b.direction);
            let asc = ascending(b.direction);
            let ma = main_avail(avail, b.direction);
            let cm = wrap_child_main(it, h, line, ma);
            let cc = wrap_child_cross(it, h, line);
            let rect = if h {
                Vec2View { x: cm, y: cc }
            } else {
                Vec2View { x: cc, y: cm }
            };
            match layout_node_m(rect, it.slot) {
                None => prev,
                Some(child) => {
                    let r1 = place_main(child.local_space, avail, h, asc, prev.main, it.margin);
                    let cross_extent = if h {
                        r1.height()
                    } else {
                        r1.width()
                    };
                    let off = lerp_s(0, clip(line.cross - cross_extent), it.align);
                    let r2 = if h {
                        r1.translated_y(clip(clip(stack + it.margin.top) + off))
                    } else {
                        r1.translated_x(clip(clip(stack + it.margin.left) + off))
                    };
                    let used_main = if h {
                        rect.x
                    } else {
                        rect.y
                    };
                    let used_cross = if h {
                        rect.y
                    } else {
                        rect.x
                    };
                    FlexPlace {
                        children: prev.children.push(
                            NodeView { id: child.id, local_space: r2, children: child.children },
                        ),
                        main: clip(clip(prev.main + used_main) + b.separation),
                        cross: max_i(prev.cross, used_cross),
                    }
                },
            }
        }
    }
}

/// Accumulated placement over lines: children of all lines, the widest placed
/// main extent, and the running cross-axis offset for stacking.
pub struct WrapState {
    pub children: Seq<NodeView>,
    pub main_max: int,
    pub cross_max: int,
}

/// Placement of the first `li` lines, stacked in order along the cross axis.
pub open spec fn wrap_lines_upto(
    avail: Vec2View,
    b: FlexBox,
    lines: Seq<LineView>,
    li: int,
) -> WrapState
    decreases b, 2int, li,
{
    if li <= 0 || li > lines.len() {
        WrapState { children: Seq::empty(), main_max: 0, cross_max: 0 }
    } else {
        let prev = wrap_lines_upto(avail, b, lines, li - 1);
        let line = lines[li - 1];
        let lp = wrap_line_upto(avail, b, line, prev.cross_max, line.end);
        let placed_main = max_i(clip(lp.main - b.separation), 0);
        WrapState {
            children: prev.children + lp.children,
            main_max: max_i(prev.main_max, placed_main),
            cross_max: clip(prev.cross_max + clip(lp.cross + b.separation)),
        }
    }
}

/// A wrapping flex container: items pack greedily into lines, each line
/// distributes only its leftover space by grow weight, and lines stack along
/// the cross axis. The container shrinks to its content.
pub open spec fn flex_wrap_m(avail: Vec2View, b: FlexBox) -> NodeView
    decreases b, 3int, 0int,
{
    let lines = pack_lines(avail, b);
    let ws = wrap_lines_upto(avail, b, lines, lines.len() as int);
    let cross_extent = max_i(clip(ws.cross_max - b.separation), 0);
    let local = if horizontal(b.direction) {
        RectView { left: 0, right: ws.main_max, top: 0, bottom: cross_extent }
    } else {
        RectView { left: 0, right: cross_extent, top: 0, bottom: ws.main_max }
    };
    NodeView { id: b.id@, local_space: local, children: ws.children }
}

/// A flex container dispatches on its wrap flag.
pub open spec fn flex_box_m(avail: Vec2View, b: FlexBox) -> NodeView
    decreases b, 4int, 0int,
{
    if b.wrap {
        flex_wrap_m(avail, b)
    } else {
        flex_no_wrap_m(avail, b)
    }
}

// ---------------------------------------------------------------------------
// Anchor/content boxes

/// The anchored box of one content item: its left/top corner and its
/// non-negative width and height, interpolated from the anchors over the
/// available size and adjusted by margins and offset.
pub open spec fn content_child_box(avail: Vec2View, it: ContentBoxItem) -> (int, int, int, int) {
    let l = it.layout;
    let left = clip(clip(lerp_s(0, avail.x, l.anchors.left) + l.margin.left) + l.offset.x);
    let right = clip(clip(lerp_s(0, avail.x, l.anchors.right) - l.margin.right) + l.offset.x);
    let top = clip(clip(lerp_s(0, avail.y, l.anchors.top) + l.margin.top) + l.offset.y);
    let bottom = clip(clip(lerp_s(0, avail.y, l.anchors.bottom) - l.margin.bottom) + l.offset.y);
    let width = max_i(clip(right - left), 0);
    let height = max_i(clip(bottom - top), 0);
    (left, top, width, height)
}

/// One content child laid out: recurse into the slot with the anchored size,
/// then align the returned rectangle inside the anchored box and translate it
/// into parent-relative coordinates.
pub open spec fn content_child_m(avail: Vec2View, it: ContentBoxItem) -> Option<NodeView>
    decreases it, 0int, 0int,
{
    let (left, top, width, height) = content_child_box(avail, it);
    match layout_node_m(Vec2View { x: width, y: height }, it.slot) {
        None => None,
        Some(child) => {
            let ox = lerp_s(0, clip(child.local_space.width() - width), it.layout.align.x);
            let r1 = child.local_space.translated_x(clip(left - ox));
            let oy = lerp_s(0, clip(r1.height() - height), it.layout.align.y);
            let r2 = r1.translated_y(clip(top - oy));
            Some(NodeView { id: child.id, local_space: r2, children: child.children })
        },
    }
}

/// The laid-out children of a content box, up to item `k`; children whose
/// slots are not computable are dropped.
pub open spec fn content_children_m(avail: Vec2View, b: ContentBox, k: int) -> Seq<NodeView>
    decreases b, 0int, k,
{
    if k <= 0 || k > b.items@.len() {
        Seq::empty()
    } else {
        let prev = content_children_m(avail, b, k - 1);
        match content_child_m(avail, b.items@[k - 1]) {
            Some(c) => prev.push(c),
            None => prev,
        }
    }
}

/// An anchor/content container always fills the full available rectangle.
pub open spec fn content_box_m(avail: Vec2View, b: ContentBox) -> NodeView
    decreases b, 1int, 0int,
{
    NodeView {
        id: b.id@,
        local_space: RectView { left: 0, right: avail.x, top: 0, bottom: avail.y },
        children: content_children_m(avail, b, b.items@.len() as int),
    }
}

// ---------------------------------------------------------------------------
// Grid boxes

/// One grid child laid out in cells of size `cw` by `ch`: the cell span's
/// pixel box minus margins, recursed into and aligned inside the box.
pub open spec fn grid_child_m(avail: Vec2View, cw: int, ch: int, it: GridBoxItem) -> Option<
    NodeView,
>
    decreases it, 0int, 0int,
{
    let left = clip(it.space_occupancy.left * cw);
    let right = clip(it.space_occupancy.right * cw);
    let top = clip(it.space_occupancy.top * ch);
    let bottom = clip(it.space_occupancy.bottom * ch);
    let width = max_i(clip(clip(clip(right - left) - it.margin.left) - it.margin.right), 0);
    let height = max_i(clip(clip(clip(bottom - top) - it.margin.top) - it.margin.bottom), 0);
    match layout_node_m(Vec2View { x: width, y: height }, it.slot) {
        None => None,
        Some(child) => {
            let ox = lerp_s(0, clip(width - child.local_space.width()), it.horizontal_align);
            let oy = lerp_s(0, clip(height - child.local_space.height()), it.vertical_align);
            let r1 = child.local_space.translated_x(clip(clip(left + it.margin.left) + ox));
            let r2 = r1.translated_y(clip(clip(top + it.margin.top) + oy));
            Some(NodeView { id: child.id, local_space: r2, children: child.children })
        },
    }
}

/// The laid-out children of a grid box, up to item `k`.
pub open spec fn grid_children_m(avail: Vec2View, b: GridBox, k: int) -> Seq<NodeView>
    decreases b, 0int, k,
{
    if k <= 0 || k > b.items@.len() {
        Seq::empty()
    } else {
        let prev = grid_children_m(avail, b, k - 1);
        let cw = div_trunc(avail.x, b.cols as int);
        let ch = div_trunc(avail.y, b.rows as int);
        match grid_child_m(avail, cw, ch, b.items@[k - 1]) {
            Some(c) => prev.push(c),
            None => prev,
        }
    }
}

/// A grid with no rows or no columns is not computable; otherwise the
/// container fills the full available rectangle and cells divide it evenly.
pub open spec fn grid_box_m(avail: Vec2View, b: GridBox) -> Option<NodeView>
    decreases b, 1int, 0int,
{
    if b.cols == 0 || b.rows == 0 {
        None
    } else {
        Some(
            NodeView {
                id: b.id@,
                local_space: RectView { left: 0, right: avail.x, top: 0, bottom: avail.y },
                children: grid_children_m(avail, b, b.items@.len() as int),
            },
        )
    }
}

// ---------------------------------------------------------------------------
// Size-constrained boxes

/// A size-constrained box: the child sees the available size minus margins;
/// per axis the box's extent is its content size, the full available size, or
/// an exact value.
pub open spec fn size_box_m(avail: Vec2View, b: SizeBox) -> NodeView
    decreases b, 1int, 0int,
{
    let inner = Vec2View {
        x: max_i(clip(clip(avail.x - b.margin.left) - b.margin.right), 0),
        y: max_i(clip(clip(avail.y - b.margin.top) - b.margin.bottom), 0),
    };
    let (content, children): (Vec2View, Seq<NodeView>) = match layout_node_m(inner, *b.slot) {
        Some(child) => {
            let r1 = child.local_space.translated_x(b.margin.left as int).translated_y(
                b.margin.top as int,
            );
            (
                r1.size(),
                seq![NodeView { id: child.id, local_space: r1, children: child.children }],
            )
        },
        None => (Vec2View { x: 0, y: 0 }, Seq::empty()),
    };
    let right = match b.width {
        SizeBoxSizeValue::Content => content.x,
        SizeBoxSizeValue::Fill => avail.x,
        SizeBoxSizeValue::Exact(v) => v as int,
    };
    let bottom = match b.height {
        SizeBoxSizeValue::Content => content.y,
        SizeBoxSizeValue::Fill => avail.y,
        SizeBoxSizeValue::Exact(v) => v as int,
    };
    NodeView {
        id: b.id@,
        local_space: RectView { left: 0, right, top: 0, bottom },
        children,
    }
}

// ---------------------------------------------------------------------------
// The dispatcher

/// Layout of one node: empty nodes and zero-dimension grids are not
/// computable; every other kind yields a computed subtree.
pub open spec fn layout_node_m(avail: Vec2View, u: WidgetUnit) -> Option<NodeView>
    decreases u, 9int, 0int,
{
    match u {
        WidgetUnit::Empty => None,
        WidgetUnit::ContentBox(b) => Some(content_box_m(avail, b)),
        WidgetUnit::FlexBox(b) => Some(flex_box_m(avail, b)),
        WidgetUnit::GridBox(b) => grid_box_m(avail, b),
        WidgetUnit::SizeBox(b) => Some(size_box_m(avail, b)),
        WidgetUnit::ImageBox(b) => Some(
            NodeView {
                id: b.id@,
                local_space: RectView {
                    left: 0,
                    right: match b.width {
                        ImageBoxSizeValue::Fill => avail.x,
                        ImageBoxSizeValue::Exact(v) => v as int,
                    },
                    top: 0,
                    bottom: match b.height {
                        ImageBoxSizeValue::Fill => avail.y,
                        ImageBoxSizeValue::Exact(v) => v as int,
                    },
                },
                children: Seq::empty(),
            },
        ),
        WidgetUnit::TextBox(b) => Some(
            NodeView {
                id: b.id@,
                local_space: RectView {
                    left: 0,
                    right: match b.width {
                        TextBoxSizeValue::Fill => avail.x,
                        TextBoxSizeValue::Exact(v) => v as int,
                    },
                    top: 0,
                    bottom: match b.height {
                        TextBoxSizeValue::Fill => avail.y,
                        TextBoxSizeValue::Exact(v) => v as int,
                    },
                },
                children: Seq::empty(),
            },
        ),
    }
}

// ---------------------------------------------------------------------------
// Flattening

/// A node's absolute rectangle: its parent-relative rectangle translated by
/// the parent's absolute origin.
pub open spec fn absolute_rect(local: RectView, origin: RectView) -> RectView {
    RectView {
        left: clip(local.left + origin.left),
        right: clip(local.right + origin.left),
        top: clip(local.top + origin.top),
        bottom: clip(local.bottom + origin.top),
    }
}

/// Flattened entries of the first `k` children, each child walked with the
/// parent's absolute rectangle as its origin.
pub open spec fn unpack_children_m(abs: RectView, n: NodeView, k: int) -> Seq<
    (Seq<char>, ItemView),
>
    decreases n, 0int, k,
{
    if k <= 0 || k > n.children.len() {
        Seq::empty()
    } else {
        unpack_children_m(abs, n, k - 1) + unpack_m(abs, n.children[k - 1])
    }
}

/// Post-order flattening of a computed subtree whose parent occupies the
/// absolute rectangle `ui`: all descendants' entries first, then this node's
/// own entry.
pub open spec fn unpack_m(ui: RectView, n: NodeView) -> Seq<(Seq<char>, ItemView)>
    decreases n, 1int, 0int,
{
    let abs = absolute_rect(n.local_space, ui);
    unpack_children_m(abs, n, n.children.len() as int).push(
        (n.id, ItemView { local_space: n.local_space, ui_space: abs }),
    )
}

/// The final mapping entries for a whole tree laid out in a viewport: empty
/// when the root is not computable.
pub open spec fn layout_entries_m(ui: RectView, u: WidgetUnit) -> Seq<(Seq<char>, ItemView)> {
    match layout_node_m(ui.size(), u) {
        Some(root) => unpack_m(ui, root),
        None => Seq::empty(),
    }
}

} // verus!
