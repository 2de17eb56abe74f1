//! The layout engine: computes the geometry of a whole tree, proved equal to
//! the mathematical model in `model`.

use vstd::prelude::*;
use crate::scalar::{Scalar, div_scalar, lerp, mul_div_clip, sat_add, sat_mul_count, sat_sub, scalar_max};
use crate::utils::{Rect, Vec2};
use crate::unit::{unit_wf, WidgetUnit};
use crate::content::ContentBox;
use crate::flex::{FlexBox, FlexBoxItem};
use crate::grid::GridBox;
use crate::image::{ImageBox, ImageBoxSizeValue};
use crate::size::{SizeBox, SizeBoxSizeValue};
use crate::text::{TextBox, TextBoxSizeValue};
use crate::widget_id::WidgetId;
use crate::layout::{
    entries_of, lemma_concat_push, lemma_entries_push, lemma_node_views_index,
    lemma_node_views_len, lemma_node_views_push, node_view, node_views, opt_node_view, Layout,
    LayoutItem, LayoutNode,
};
use crate::model;
use crate::model::LineView;

verus! {

/// The stock layout engine; it holds no state of its own.
#[derive(Clone, Copy, Debug)]
pub struct DefaultLayoutEngine;

impl Default for DefaultLayoutEngine {
    fn default() -> (r: Self)
        ensures
            r == DefaultLayoutEngine,
    {
        DefaultLayoutEngine
    }
}

/// One packed line of a wrapping flex container, as the engine records it.
#[derive(Clone, Copy, Debug)]
struct LineRec {
    start: usize,
    end: usize,
    main: Scalar,
    cross: Scalar,
    grow: u128,
    count: usize,
}

/// The mathematical view of a recorded line.
spec fn line_view(l: LineRec) -> LineView {
    LineView {
        start: l.start as int,
        end: l.end as int,
        main: l.main as int,
        cross: l.cross as int,
        grow: l.grow as int,
        count: l.count as int,
    }
}

/// The views of recorded lines, in order.
spec fn line_views(s: Seq<LineRec>) -> Seq<LineView> {
    s.map_values(|l: LineRec| line_view(l))
}

/// Appending a line appends its view.
proof fn lemma_line_views_push(s: Seq<LineRec>, l: LineRec)
    ensures
        line_views(s.push(l)) == line_views(s).push(line_view(l)),
{
    assert(line_views(s.push(l)) =~= line_views(s).push(line_view(l)));
}

impl DefaultLayoutEngine {
    /// The two margins of `m` along the chosen axis, summed.
    fn axis_margins(m: &Rect, h: bool) -> (r: Scalar)
        ensures
            r as int == model::main_margins(*m, h),
    {
        if h {
            sat_add(m.left, m.right)
        } else {
            sat_add(m.top, m.bottom)
        }
    }

    /// A flex item's natural main-axis size: explicit basis or natural slot
    /// size, plus main-axis margins.
    fn item_main(item: &FlexBoxItem, h: bool) -> (r: Scalar)
        ensures
            r as int == model::item_nat_main(*item, h),
    {
        let base = match item.basis {
            Some(v) => v,
            None => if h {
                Self::calc_unit_min_width(&item.slot)
            } else {
                Self::calc_unit_min_height(&item.slot)
            },
        };
        sat_add(base, Self::axis_margins(&item.margin, h))
    }

    /// A flex item's natural cross-axis size: natural slot size across the
    /// main axis, plus cross-axis margins.
    fn item_cross(item: &FlexBoxItem, h: bool) -> (r: Scalar)
        ensures
            r as int == model::item_nat_cross(*item, h),
    {
        let base = if h {
            Self::calc_unit_min_height(&item.slot)
        } else {
            Self::calc_unit_min_width(&item.slot)
        };
        sat_add(base, Self::axis_margins(&item.margin, !h))
    }

    /// Layout of one node: empty nodes and zero-dimension grids are not
    /// computable; every other kind yields a computed subtree.
    pub fn layout_node(size_available: Vec2, unit: &WidgetUnit) -> (r: Option<LayoutNode>)
        requires
            unit_wf(*unit),
        ensures
            opt_node_view(r) == model::layout_node_m(size_available@, *unit),
        decreases *unit, 9int, 0int,
    {
        match unit {
            WidgetUnit::Empty => None,
            WidgetUnit::ContentBox(b) => Some(Self::layout_content_box(size_available, b)),
            WidgetUnit::FlexBox(b) => Some(Self::layout_flex_box(size_available, b)),
            WidgetUnit::GridBox(b) => Self::layout_grid_box(size_available, b),
            WidgetUnit::SizeBox(b) => Some(Self::layout_size_box(size_available, b)),
            WidgetUnit::ImageBox(b) => Some(Self::layout_image_box(size_available, b)),
            WidgetUnit::TextBox(b) => Some(Self::layout_text_box(size_available, b)),
        }
    }

    /// Anchor/content layout: each child's box is interpolated from its
    /// anchors over the available size, adjusted by margins and offset; the
    /// child recurses with that size and is aligned inside the box. The
    /// container always fills the available rectangle.
    pub fn layout_content_box(size_available: Vec2, unit: &ContentBox) -> (r: LayoutNode)
        requires
            unit_wf(WidgetUnit::ContentBox(*unit)),
        ensures
            node_view(r) == model::content_box_m(size_available@, *unit),
        decreases *unit, 1int, 0int,
    {
        let n = unit.items.len();
        let mut children: Vec<LayoutNode> = Vec::new();
        let mut i: usize = 0;
        while i < n
            invariant
                n == unit.items@.len(),
                i <= n,
                unit_wf(WidgetUnit::ContentBox(*unit)),
                node_views(children) == model::content_children_m(
                    size_available@,
                    *unit,
                    i as int,
                ),
            decreases n - i,
        {
            let item = &unit.items[i];
            proof {
                assert(unit.items@[i as int].layout.valid());
            }
            let lay = &item.layout;
            let left = sat_add(
                sat_add(lerp(0, size_available.x, lay.anchors.left), lay.margin.left),
                lay.offset.x,
            );
            let right = sat_add(
                sat_sub(lerp(0, size_available.x, lay.anchors.right), lay.margin.right),
                lay.offset.x,
            );
            let top = sat_add(
                sat_add(lerp(0, size_available.y, lay.anchors.top), lay.margin.top),
                lay.offset.y,
            );
            let bottom = sat_add(
                sat_sub(lerp(0, size_available.y, lay.anchors.bottom), lay.margin.bottom),
                lay.offset.y,
            );
            let width = scalar_max(sat_sub(right, left), 0);
            let height = scalar_max(sat_sub(bottom, top), 0);
            proof {
                let mb = model::content_child_box(size_available@, unit.items@[i as int]);
                assert(left as int == mb.0);
                assert(top as int == mb.1);
                assert(width as int == mb.2);
                assert(height as int == mb.3);
            }
            let size = Vec2 { x: width, y: height };
            if let Some(mut child) = Self::layout_node(size, &item.slot) {
                let ox = lerp(0, sat_sub(child.local_space.width(), width), lay.align.x);
                child.local_space = child.local_space.translate_x(sat_sub(left, ox));
                let oy = lerp(0, sat_sub(child.local_space.height(), height), lay.align.y);
                child.local_space = child.local_space.translate_y(sat_sub(top, oy));
                proof {
                    let mc = model::content_child_m(size_available@, unit.items@[i as int]);
                    assert(mc is Some);
                    assert(node_view(child) == mc->Some_0);
                }
                let ghost pre = children;
                children.push(child);
                proof {
                    lemma_node_views_push(pre, children, child);
                }
            }
            i += 1;
        }
        LayoutNode {
            id: unit.id.clone(),
            local_space: Rect { left: 0, right: size_available.x, top: 0, bottom: size_available.y },
            children,
        }
    }

    /// A flex container dispatches on its wrap flag.
    pub fn layout_flex_box(size_available: Vec2, unit: &FlexBox) -> (r: LayoutNode)
        requires
            unit_wf(WidgetUnit::FlexBox(*unit)),
        ensures
            node_view(r) == model::flex_box_m(size_available@, *unit),
        decreases *unit, 4int, 0int,
    {
        if unit.wrap {
            Self::layout_flex_box_wrapping(size_available, unit)
        } else {
            Self::layout_flex_box_no_wrap(size_available, unit)
        }
    }

    /// Wrapping flex layout: items pack greedily into lines, each line
    /// distributes only its leftover space by grow weight, and lines stack
    /// along the cross axis. The container shrinks to its content.
    pub fn layout_flex_box_wrapping(size_available: Vec2, unit: &FlexBox) -> (r: LayoutNode)
        requires
            unit_wf(WidgetUnit::FlexBox(*unit)),
        ensures
            node_view(r) == model::flex_wrap_m(size_available@, *unit),
        decreases *unit, 3int, 0int,
    {
        let h = unit.direction.is_horizontal();
        let asc = unit.direction.is_order_ascending();
        let ma = if h {
            size_available.x
        } else {
            size_available.y
        };
        let n = unit.items.len();
        // Pack items into lines.
        let mut lines: Vec<LineRec> = Vec::new();
        let mut start: usize = 0;
        let mut main_acc: Scalar = 0;
        let mut cross_acc: Scalar = 0;
        let mut grow_acc: u128 = 0;
        let mut count_acc: usize = 0;
        let mut i: usize = 0;
        while i < n
            invariant
                n == unit.items@.len(),
                i <= n,
                h == model::horizontal(unit.direction),
                ma as int == model::main_avail(size_available@, unit.direction),
                ({
                    let st = model::pack_upto(size_available@, *unit, i as int);
                    &&& line_views(lines@) == st.lines
                    &&& start as int == st.start
                    &&& main_acc as int == st.main
                    &&& cross_acc as int == st.cross
                    &&& grow_acc as int == st.grow
                    &&& count_acc as int == st.count
                }),
                start <= i,
                count_acc <= i,
                grow_acc as int <= (i as int) * 0x1_0000_0000,
                forall|j: int|
                    0 <= j < lines@.len() ==> (#[trigger] lines@[j]).start <= lines@[j].end
                        && lines@[j].end <= i,
            decreases n - i,
        {
            let item = &unit.items[i];
            if item.slot.is_some() {
                let lm = Self::item_main(item, h);
                let lc = Self::item_cross(item, h);
                if count_acc > 0 && sat_add(main_acc, lm) > ma {
                    let closed_main = sat_add(
                        main_acc,
                        sat_mul_count(count_acc - 1, unit.separation),
                    );
                    let ghost pre = lines@;
                    lines.push(
                        LineRec {
                            start,
                            end: i,
                            main: closed_main,
                            cross: cross_acc,
                            grow: grow_acc,
                            count: count_acc,
                        },
                    );
                    proof {
                        lemma_line_views_push(
                            pre,
                            LineRec {
                                start,
                                end: i,
                                main: closed_main,
                                cross: cross_acc,
                                grow: grow_acc,
                                count: count_acc,
                            },
                        );
                    }
                    start = i;
                    main_acc = 0;
                    cross_acc = 0;
                    grow_acc = 0;
                    count_acc = 0;
                }
                main_acc = sat_add(main_acc, lm);
                cross_acc = scalar_max(cross_acc, lc);
                grow_acc = grow_acc + item.grow as u128;
                count_acc = count_acc + 1;
            }
            i += 1;
        }
        let seps: usize = if count_acc == 0 {
            0
        } else {
            count_acc - 1
        };
        let closed_main = sat_add(main_acc, sat_mul_count(seps, unit.separation));
        let ghost pre_final = lines@;
        lines.push(
            LineRec {
                start,
                end: n,
                main: closed_main,
                cross: cross_acc,
                grow: grow_acc,
                count: count_acc,
            },
        );
        proof {
            lemma_line_views_push(
                pre_final,
                LineRec {
                    start,
                    end: n,
                    main: closed_main,
                    cross: cross_acc,
                    grow: grow_acc,
                    count: count_acc,
                },
            );
            assert(line_views(lines@) == model::pack_lines(size_available@, *unit));
        }
        let ghost lines_v = line_views(lines@);
        // Place each line's items, stacking lines along the cross axis.
        let mut children: Vec<LayoutNode> = Vec::new();
        let mut main_max: Scalar = 0;
        let mut cross_max: Scalar = 0;
        let n_lines = lines.len();
        let mut li: usize = 0;
        while li < n_lines
            invariant
                n == unit.items@.len(),
                n_lines == lines@.len(),
                li <= n_lines,
                unit_wf(WidgetUnit::FlexBox(*unit)),
                h == model::horizontal(unit.direction),
                asc == model::ascending(unit.direction),
                ma as int == model::main_avail(size_available@, unit.direction),
                lines_v == line_views(lines@),
                forall|j: int|
                    0 <= j < lines@.len() ==> (#[trigger] lines@[j]).start <= lines@[j].end
                        && lines@[j].end <= n,
                ({
                    let ws = model::wrap_lines_upto(size_available@, *unit, lines_v, li as int);
                    &&& node_views(children) == ws.children
                    &&& main_max as int == ws.main_max
                    &&& cross_max as int == ws.cross_max
                }),
            decreases n_lines - li,
        {
            let line = lines[li];
            let ghost lv = lines_v[li as int];
            let ghost ws_prev = model::wrap_lines_upto(size_available@, *unit, lines_v, li as int);
            let diff = sat_sub(ma, line.main);
            let ghost stack = cross_max as int;
            let mut new_main: Scalar = 0;
            let mut new_cross: Scalar = 0;
            let mut j: usize = line.start;
            while j < line.end
                invariant
                    n == unit.items@.len(),
                    line.start <= j <= line.end,
                    line.end <= n,
                    unit_wf(WidgetUnit::FlexBox(*unit)),
                    h == model::horizontal(unit.direction),
                    asc == model::ascending(unit.direction),
                    ma as int == model::main_avail(size_available@, unit.direction),
                    lv == line_view(line),
                    diff as int == crate::scalar::clip(ma as int - lv.main),
                    ws_prev == model::wrap_lines_upto(size_available@, *unit, lines_v, li as int),
                    stack == ws_prev.cross_max,
                    cross_max as int == stack,
                    ({
                        let lp = model::wrap_line_upto(size_available@, *unit, lv, stack, j as int);
                        &&& node_views(children) == ws_prev.children + lp.children
                        &&& new_main as int == lp.main
                        &&& new_cross as int == lp.cross
                    }),
                decreases line.end - j,
            {
                let item = &unit.items[j];
                if item.slot.is_some() {
                    proof {
                        assert(unit.items@[j as int].valid());
                    }
                    let base = Self::item_main(item, h);
                    let resolved = if line.main < ma {
                        if line.grow > 0 {
                            sat_add(base, mul_div_clip(diff, item.grow, line.grow))
                        } else {
                            base
                        }
                    } else {
                        base
                    };
                    let cm = scalar_max(sat_sub(resolved, Self::axis_margins(&item.margin, h)), 0);
                    let trimmed = scalar_max(
                        sat_sub(Self::item_cross(item, h), Self::axis_margins(&item.margin, !h)),
                        0,
                    );
                    let cc = lerp(trimmed, line.cross, item.fill);
                    proof {
                        let mit = unit.items@[j as int];
                        assert(cm as int == model::wrap_child_main(mit, h, lv, ma as int));
                        assert(cc as int == model::wrap_child_cross(mit, h, lv));
                    }
                    let rect = if h {
                        Vec2 { x: cm, y: cc }
                    } else {
                        Vec2 { x: cc, y: cm }
                    };
                    if let Some(mut child) = Self::layout_node(rect, &item.slot) {
                        if h {
                            if asc {
                                child.local_space = child.local_space.translate_x(
                                    sat_add(new_main, item.margin.left),
                                );
                            } else {
                                let old_l = child.local_space.left;
                                let old_r = child.local_space.right;
                                child.local_space.left = sat_sub(
                                    sat_sub(sat_sub(size_available.x, old_r), new_main),
                                    item.margin.right,
                                );
                                child.local_space.right = sat_sub(
                                    sat_sub(sat_sub(size_available.x, old_l), new_main),
                                    item.margin.right,
                                );
                            }
                            let off = lerp(
                                0,
                                sat_sub(line.cross, child.local_space.height()),
                                item.align,
                            );
                            child.local_space = child.local_space.translate_y(
                                sat_add(sat_add(cross_max, item.margin.top), off),
                            );
                            new_cross = scalar_max(new_cross, rect.y);
                        } else {
                            if asc {
                                child.local_space = child.local_space.translate_y(
                                    sat_add(new_main, item.margin.top),
                                );
                            } else {
                                let old_t = child.local_space.top;
                                let old_b = child.local_space.bottom;
                                child.local_space.top = sat_sub(
                                    sat_sub(sat_sub(size_available.y, old_b), new_main),
                                    item.margin.bottom,
                                );
                                child.local_space.bottom = sat_sub(
                                    sat_sub(sat_sub(size_available.y, old_t), new_main),
                                    item.margin.bottom,
                                );
                            }
                            let off = lerp(
                                0,
                                sat_sub(line.cross, child.local_space.width()),
                                item.align,
                            );
                            child.local_space = child.local_space.translate_x(
                                sat_add(sat_add(cross_max, item.margin.left), off),
                            );
                            new_cross = scalar_max(new_cross, rect.x);
                        }
                        new_main = sat_add(
                            sat_add(new_main, if h { rect.x } else { rect.y }),
                            unit.separation,
                        );
                        let ghost pre = children;
                        let ghost lp_pre = model::wrap_line_upto(
                            size_available@,
                            *unit,
                            lv,
                            stack,
                            j as int,
                        );
                        children.push(child);
                        proof {
                            let lp_next = model::wrap_line_upto(
                                size_available@,
                                *unit,
                                lv,
                                stack,
                                j as int + 1,
                            );
                            assert(lp_next.children == lp_pre.children.push(node_view(child)));
                            lemma_node_views_push(pre, children, child);
                            lemma_concat_push(ws_prev.children, lp_pre.children, node_view(child));
                        }
                    }
                }
                j += 1;
            }
            let placed = scalar_max(sat_sub(new_main, unit.separation), 0);
            main_max = scalar_max(main_max, placed);
            cross_max = sat_add(cross_max, sat_add(new_cross, unit.separation));
            li += 1;
        }
        let cross_extent = scalar_max(sat_sub(cross_max, unit.separation), 0);
        let local_space = if h {
            Rect { left: 0, right: main_max, top: 0, bottom: cross_extent }
        } else {
            Rect { left: 0, right: cross_extent, top: 0, bottom: main_max }
        };
        LayoutNode { id: unit.id.clone(), local_space, children }
    }

    /// Non-wrapping flex layout: items keep their natural main sizes plus a
    /// grow share of leftover space or minus a shrink share of missing space,
    /// and are placed sequentially with the configured separation. The
    /// container shrinks to its content.
    pub fn layout_flex_box_no_wrap(size_available: Vec2, unit: &FlexBox) -> (r: LayoutNode)
        requires
            unit_wf(WidgetUnit::FlexBox(*unit)),
        ensures
            node_view(r) == model::flex_no_wrap_m(size_available@, *unit),
        decreases *unit, 3int, 0int,
    {
        let h = unit.direction.is_horizontal();
        let asc = unit.direction.is_order_ascending();
        let (ma, ca) = if h {
            (size_available.x, size_available.y)
        } else {
            (size_available.y, size_available.x)
        };
        let n = unit.items.len();
        // First pass: natural sizes and weight totals.
        let mut main_sum: Scalar = 0;
        let mut grow: u128 = 0;
        let mut shrink: u128 = 0;
        let mut count: usize = 0;
        let mut i: usize = 0;
        while i < n
            invariant
                n == unit.items@.len(),
                i <= n,
                h == model::horizontal(unit.direction),
                main_sum as int == model::main_sum_upto(unit.items@, h, i as int),
                grow as int == model::grow_upto(unit.items@, i as int),
                shrink as int == model::shrink_upto(unit.items@, i as int),
                count as int == model::count_upto(unit.items@, i as int),
                count <= i,
                grow as int <= (i as int) * 0x1_0000_0000,
                shrink as int <= (i as int) * 0x1_0000_0000,
            decreases n - i,
        {
            let item = &unit.items[i];
            if item.slot.is_some() {
                let lm = Self::item_main(item, h);
                main_sum = sat_add(main_sum, lm);
                grow = grow + item.grow as u128;
                shrink = shrink + item.shrink as u128;
                count = count + 1;
            }
            i += 1;
        }
        let seps: usize = if count == 0 {
            0
        } else {
            count - 1
        };
        let total = sat_add(main_sum, sat_mul_count(seps, unit.separation));
        proof {
            assert(total as int == model::nw_total_main(
                unit.items@,
                h,
                unit.separation as int,
            ));
        }
        let diff = sat_sub(ma, total);
        // Second pass: resolve each item's size, recurse, and place it.
        let mut children: Vec<LayoutNode> = Vec::new();
        let mut new_main: Scalar = 0;
        let mut new_cross: Scalar = 0;
        let mut k: usize = 0;
        while k < n
            invariant
                n == unit.items@.len(),
                k <= n,
                unit_wf(WidgetUnit::FlexBox(*unit)),
                h == model::horizontal(unit.direction),
                asc == model::ascending(unit.direction),
                ma as int == model::main_avail(size_available@, unit.direction),
                ca as int == model::cross_avail(size_available@, unit.direction),
                total as int == model::nw_total_main(unit.items@, h, unit.separation as int),
                diff as int == crate::scalar::clip(ma as int - total as int),
                grow as int == model::grow_upto(unit.items@, n as int),
                shrink as int == model::shrink_upto(unit.items@, n as int),
                ({
                    let st = model::nw_place_upto(size_available@, *unit, k as int);
                    &&& node_views(children) == st.children
                    &&& new_main as int == st.main
                    &&& new_cross as int == st.cross
                }),
            decreases n - k,
        {
            let item = &unit.items[k];
            if item.slot.is_some() {
                proof {
                    assert(unit.items@[k as int].valid());
                }
                let base = Self::item_main(item, h);
                let resolved = if total < ma {
                    if grow > 0 {
                        sat_add(base, mul_div_clip(diff, item.grow, grow))
                    } else {
                        base
                    }
                } else if total > ma {
                    if shrink > 0 {
                        sat_add(base, mul_div_clip(diff, item.shrink, shrink))
                    } else {
                        base
                    }
                } else {
                    base
                };
                let cm = scalar_max(sat_sub(resolved, Self::axis_margins(&item.margin, h)), 0);
                let widened = lerp(Self::item_cross(item, h), ca, item.fill);
                let cc = scalar_max(sat_sub(widened, Self::axis_margins(&item.margin, !h)), 0);
                let rect = if h {
                    Vec2 { x: cm, y: cc }
                } else {
                    Vec2 { x: cc, y: cm }
                };
                if let Some(mut child) = Self::layout_node(rect, &item.slot) {
                    if h {
                        if asc {
                            child.local_space = child.local_space.translate_x(
                                sat_add(new_main, item.margin.left),
                            );
                        } else {
                            let old_l = child.local_space.left;
                            let old_r = child.local_space.right;
                            child.local_space.left = sat_sub(
                                sat_sub(sat_sub(size_available.x, old_r), new_main),
                                item.margin.right,
                            );
                            child.local_space.right = sat_sub(
                                sat_sub(sat_sub(size_available.x, old_l), new_main),
                                item.margin.right,
                            );
                        }
                        let off = lerp(
                            0,
                            sat_sub(ca, child.local_space.height()),
                            item.align,
                        );
                        child.local_space = child.local_space.translate_y(
                            sat_add(item.margin.top, off),
                        );
                        new_cross = scalar_max(new_cross, rect.y);
                    } else {
                        if asc {
                            child.local_space = child.local_space.translate_y(
                                sat_add(new_main, item.margin.top),
                            );
                        } else {
                            let old_t = child.local_space.top;
                            let old_b = child.local_space.bottom;
                            child.local_space.top = sat_sub(
                                sat_sub(sat_sub(size_available.y, old_b), new_main),
                                item.margin.bottom,
                            );
                            child.local_space.bottom = sat_sub(
                                sat_sub(sat_sub(size_available.y, old_t), new_main),
                                item.margin.bottom,
                            );
                        }
                        let off = lerp(
                            0,
                            sat_sub(ca, child.local_space.width()),
                            item.align,
                        );
                        child.local_space = child.local_space.translate_x(
                            sat_add(item.margin.left, off),
                        );
                        new_cross = scalar_max(new_cross, rect.x);
                    }
                    new_main = sat_add(
                        sat_add(new_main, if h { rect.x } else { rect.y }),
                        unit.separation,
                    );
                    let ghost pre = children;
                    children.push(child);
                    proof {
                        lemma_node_views_push(pre, children, child);
                    }
                }
            }
            k += 1;
        }
        let main_extent = scalar_max(sat_sub(new_main, unit.separation), 0);
        let local_space = if h {
            Rect { left: 0, right: main_extent, top: 0, bottom: new_cross }
        } else {
            Rect { left: 0, right: new_cross, top: 0, bottom: main_extent }
        };
        LayoutNode { id: unit.id.clone(), local_space, children }
    }

    /// Grid layout: cells divide the available size evenly; each item's cell
    /// span gives its box, minus margins; the child recurses with that size
    /// and is aligned inside the box. A grid with no rows or no columns is
    /// not computable.
    pub fn layout_grid_box(size_available: Vec2, unit: &GridBox) -> (r: Option<LayoutNode>)
        requires
            unit_wf(WidgetUnit::GridBox(*unit)),
        ensures
            opt_node_view(r) == model::grid_box_m(size_available@, *unit),
        decreases *unit, 1int, 0int,
    {
        if unit.cols == 0 || unit.rows == 0 {
            return None;
        }
        let cw = div_scalar(size_available.x, unit.cols as u64);
        let ch = div_scalar(size_available.y, unit.rows as u64);
        let n = unit.items.len();
        let mut children: Vec<LayoutNode> = Vec::new();
        let mut i: usize = 0;
        while i < n
            invariant
                n == unit.items@.len(),
                i <= n,
                unit_wf(WidgetUnit::GridBox(*unit)),
                unit.cols > 0,
                unit.rows > 0,
                cw as int == crate::scalar::div_trunc(size_available.x as int, unit.cols as int),
                ch as int == crate::scalar::div_trunc(size_available.y as int, unit.rows as int),
                node_views(children) == model::grid_children_m(size_available@, *unit, i as int),
            decreases n - i,
        {
            let item = &unit.items[i];
            proof {
                assert(unit.items@[i as int].valid());
            }
            let left = sat_mul_count(item.space_occupancy.left, cw);
            let right = sat_mul_count(item.space_occupancy.right, cw);
            let top = sat_mul_count(item.space_occupancy.top, ch);
            let bottom = sat_mul_count(item.space_occupancy.bottom, ch);
            let width = scalar_max(
                sat_sub(sat_sub(sat_sub(right, left), item.margin.left), item.margin.right),
                0,
            );
            let height = scalar_max(
                sat_sub(sat_sub(sat_sub(bottom, top), item.margin.top), item.margin.bottom),
                0,
            );
            proof {
                let mit = unit.items@[i as int];
                assert(left as int == crate::scalar::clip(mit.space_occupancy.left * cw));
                assert(top as int == crate::scalar::clip(mit.space_occupancy.top * ch));
            }
            let size = Vec2 { x: width, y: height };
            if let Some(mut child) = Self::layout_node(size, &item.slot) {
                let ox = lerp(
                    0,
                    sat_sub(size.x, child.local_space.width()),
                    item.horizontal_align,
                );
                let oy = lerp(
                    0,
                    sat_sub(size.y, child.local_space.height()),
                    item.vertical_align,
                );
                child.local_space = child.local_space.translate_x(
                    sat_add(sat_add(left, item.margin.left), ox),
                );
                child.local_space = child.local_space.translate_y(
                    sat_add(sat_add(top, item.margin.top), oy),
                );
                proof {
                    let mc = model::grid_child_m(
                        size_available@,
                        cw as int,
                        ch as int,
                        unit.items@[i as int],
                    );
                    assert(mc is Some);
                    assert(node_view(child) == mc->Some_0);
                }
                let ghost pre = children;
                children.push(child);
                proof {
                    lemma_node_views_push(pre, children, child);
                }
            }
            i += 1;
        }
        Some(
            LayoutNode {
                id: unit.id.clone(),
                local_space: Rect {
                    left: 0,
                    right: size_available.x,
                    top: 0,
                    bottom: size_available.y,
                },
                children,
            },
        )
    }

    /// Size-constrained layout: the child sees the available size minus this
    /// node's margins; per axis the node's extent is its content size, the
    /// full available size, or an exact value.
    pub fn layout_size_box(size_available: Vec2, unit: &SizeBox) -> (r: LayoutNode)
        requires
            unit_wf(WidgetUnit::SizeBox(*unit)),
        ensures
            node_view(r) == model::size_box_m(size_available@, *unit),
        decreases *unit, 1int, 0int,
    {
        let inner = Vec2 {
            x: scalar_max(
                sat_sub(sat_sub(size_available.x, unit.margin.left), unit.margin.right),
                0,
            ),
            y: scalar_max(
                sat_sub(sat_sub(size_available.y, unit.margin.top), unit.margin.bottom),
                0,
            ),
        };
        let (content, children): (Vec2, Vec<LayoutNode>) = if let Some(mut child) =
            Self::layout_node(inner, &unit.slot) {
            child.local_space = child.local_space.translate_x(unit.margin.left);
            child.local_space = child.local_space.translate_y(unit.margin.top);
            let sz = child.local_space.size();
            let mut cs: Vec<LayoutNode> = Vec::new();
            let ghost pre = cs;
            cs.push(child);
            proof {
                lemma_node_views_push(pre, cs, child);
            }
            (sz, cs)
        } else {
            (Vec2 { x: 0, y: 0 }, Vec::new())
        };
        let local_space = Rect {
            left: 0,
            right: match unit.width {
                SizeBoxSizeValue::Content => content.x,
                SizeBoxSizeValue::Fill => size_available.x,
                SizeBoxSizeValue::Exact(v) => v,
            },
            top: 0,
            bottom: match unit.height {
                SizeBoxSizeValue::Content => content.y,
                SizeBoxSizeValue::Fill => size_available.y,
                SizeBoxSizeValue::Exact(v) => v,
            },
        };
        LayoutNode { id: unit.id.clone(), local_space, children }
    }

    /// An image leaf: per axis, the available extent or an exact value.
    pub fn layout_image_box(size_available: Vec2, unit: &ImageBox) -> (r: LayoutNode)
        ensures
            node_view(r) == model::layout_node_m(
                size_available@,
                WidgetUnit::ImageBox(*unit),
            )->Some_0,
    {
        let local_space = Rect {
            left: 0,
            right: match unit.width {
                ImageBoxSizeValue::Fill => size_available.x,
                ImageBoxSizeValue::Exact(v) => v,
            },
            top: 0,
            bottom: match unit.height {
                ImageBoxSizeValue::Fill => size_available.y,
                ImageBoxSizeValue::Exact(v) => v,
            },
        };
        LayoutNode { id: unit.id.clone(), local_space, children: Vec::new() }
    }

    /// A text leaf: per axis, the available extent or an exact value.
    pub fn layout_text_box(size_available: Vec2, unit: &TextBox) -> (r: LayoutNode)
        ensures
            node_view(r) == model::layout_node_m(
                size_available@,
                WidgetUnit::TextBox(*unit),
            )->Some_0,
    {
        let local_space = Rect {
            left: 0,
            right: match unit.width {
                TextBoxSizeValue::Fill => size_available.x,
                TextBoxSizeValue::Exact(v) => v,
            },
            top: 0,
            bottom: match unit.height {
                TextBoxSizeValue::Fill => size_available.y,
                TextBoxSizeValue::Exact(v) => v,
            },
        };
        LayoutNode { id: unit.id.clone(), local_space, children: Vec::new() }
    }

    /// The natural content width of a node; see the model's `min_width`.
    pub fn calc_unit_min_width(unit: &WidgetUnit) -> (r: Scalar)
        ensures
            r as int == model::min_width(*unit),
        decreases *unit,
    {
        match unit {
            WidgetUnit::ImageBox(b) => match b.width {
                ImageBoxSizeValue::Fill => 0,
                ImageBoxSizeValue::Exact(v) => v,
            },
            WidgetUnit::TextBox(b) => match b.width {
                TextBoxSizeValue::Fill => 0,
                TextBoxSizeValue::Exact(v) => v,
            },
            WidgetUnit::SizeBox(b) => sat_add(
                sat_add(b.margin.left, b.margin.right),
                match b.width {
                    SizeBoxSizeValue::Content => Self::calc_unit_min_width(&b.slot),
                    SizeBoxSizeValue::Fill => 0,
                    SizeBoxSizeValue::Exact(v) => v,
                },
            ),
            _ => 0,
        }
    }

    /// The natural content height of a node; see the model's `min_height`.
    pub fn calc_unit_min_height(unit: &WidgetUnit) -> (r: Scalar)
        ensures
            r as int == model::min_height(*unit),
        decreases *unit,
    {
        match unit {
            WidgetUnit::ImageBox(b) => match b.height {
                ImageBoxSizeValue::Fill => 0,
                ImageBoxSizeValue::Exact(v) => v,
            },
            WidgetUnit::TextBox(b) => match b.height {
                TextBoxSizeValue::Fill => 0,
                TextBoxSizeValue::Exact(v) => v,
            },
            WidgetUnit::SizeBox(b) => sat_add(
                sat_add(b.margin.top, b.margin.bottom),
                match b.height {
                    SizeBoxSizeValue::Content => Self::calc_unit_min_height(&b.slot),
                    SizeBoxSizeValue::Fill => 0,
                    SizeBoxSizeValue::Exact(v) => v,
                },
            ),
            _ => 0,
        }
    }

    /// Post-order flattening: children first, each with this node's absolute
    /// rectangle as origin, then this node's own entry.
    fn unpack_node(ui_space: Rect, node: &LayoutNode, items: &mut Vec<(WidgetId, LayoutItem)>)
        ensures
            entries_of(final(items)@) == entries_of(old(items)@) + model::unpack_m(
                ui_space@,
                node_view(*node),
            ),
        decreases *node,
    {
        let ui2 = Rect {
            left: sat_add(node.local_space.left, ui_space.left),
            right: sat_add(node.local_space.right, ui_space.left),
            top: sat_add(node.local_space.top, ui_space.top),
            bottom: sat_add(node.local_space.bottom, ui_space.top),
        };
        proof {
            assert(ui2@ == model::absolute_rect(node.local_space@, ui_space@));
        }
        let n = node.children.len();
        let ghost base = items@;
        let mut i: usize = 0;
        while i < n
            invariant
                n == node.children@.len(),
                i <= n,
                ui2@ == model::absolute_rect(node.local_space@, ui_space@),
                entries_of(items@) == entries_of(base) + model::unpack_children_m(
                    ui2@,
                    node_view(*node),
                    i as int,
                ),
            decreases n - i,
        {
            let ghost pre = items@;
            Self::unpack_node(ui2, &node.children[i], items);
            proof {
                lemma_node_views_len(node.children, node.children@.len() as int);
                lemma_node_views_index(node.children, node.children@.len() as int, i as int);
                assert(entries_of(base) + model::unpack_children_m(
                    ui2@,
                    node_view(*node),
                    i as int + 1,
                ) =~= (entries_of(base) + model::unpack_children_m(
                    ui2@,
                    node_view(*node),
                    i as int,
                )) + model::unpack_m(ui2@, node_view(node.children@[i as int])));
            }
            i += 1;
        }
        let ghost pre_push = items@;
        let pair = (node.id.clone(), LayoutItem { local_space: node.local_space, ui_space: ui2 });
        let ghost gpair = pair;
        items.push(pair);
        proof {
            lemma_node_views_len(node.children, node.children@.len() as int);
            assert(node_view(*node).children.len() == node.children@.len());
            lemma_entries_push(pre_push, items@, gpair);
            assert(gpair.0@ == node.id@);
            assert(entries_of(base) + model::unpack_m(ui_space@, node_view(*node))
                =~= (entries_of(base) + model::unpack_children_m(
                ui2@,
                node_view(*node),
                node_view(*node).children.len() as int,
            )).push((node.id@, (LayoutItem { local_space: node.local_space, ui_space: ui2 })@)));
        }
    }

    /// Lay out a whole tree in the given viewport: compute the root subtree
    /// and flatten it into the identity-keyed mapping. A root that is not
    /// computable yields the viewport with an empty mapping.
    pub fn layout(&mut self, ui_space: Rect, tree: &WidgetUnit) -> (r: Result<Layout, ()>)
        requires
            unit_wf(*tree),
        ensures
            r is Ok,
            r->Ok_0.ui_space == ui_space,
            entries_of(r->Ok_0.items@) == model::layout_entries_m(ui_space@, *tree),
    {
        if let Some(root) = Self::layout_node(ui_space.size(), tree) {
            let mut items: Vec<(WidgetId, LayoutItem)> = Vec::new();
            proof {
                assert(entries_of(items@) =~= Seq::<(Seq<char>, crate::layout::ItemView)>::empty());
            }
            Self::unpack_node(ui_space, &root, &mut items);
            Ok(Layout { ui_space, items })
        } else {
            let items: Vec<(WidgetId, LayoutItem)> = Vec::new();
            proof {
                assert(entries_of(items@) =~= Seq::<(Seq<char>, crate::layout::ItemView)>::empty());
            }
            Ok(Layout { ui_space, items })
        }
    }
}

} // verus!
