use raui_core::content::{AlignVec, AnchorRect, ContentBox, ContentBoxItem, ContentBoxItemLayout};
use raui_core::flex::{FlexBox, FlexBoxDirection, FlexBoxItem};
use raui_core::grid::{GridBox, GridBoxItem};
use raui_core::image::{ImageBox, ImageBoxSizeValue};
use raui_core::size::{SizeBox, SizeBoxSizeValue};
use raui_core::text::TextBoxDirection;
use raui_core::utils::Color;
use raui_core::{DefaultLayoutEngine, Fraction, IntRect, Layout, LayoutItem, Rect, Vec2, WidgetId, WidgetUnit};

fn rect0() -> Rect {
    Rect { left: 0, right: 0, top: 0, bottom: 0 }
}

fn size_box(id: &str, width: SizeBoxSizeValue, height: SizeBoxSizeValue) -> WidgetUnit {
    WidgetUnit::SizeBox(SizeBox {
        id: WidgetId::new(id.to_string()),
        slot: Box::new(WidgetUnit::Empty),
        width,
        height,
        margin: rect0(),
    })
}

fn image_box(id: &str, width: ImageBoxSizeValue, height: ImageBoxSizeValue) -> WidgetUnit {
    WidgetUnit::ImageBox(ImageBox {
        id: WidgetId::new(id.to_string()),
        image: String::new(),
        width,
        height,
        tint: Color::white(),
    })
}

fn flex_item(slot: WidgetUnit, basis: Option<i64>, fill: Fraction, grow: u32, shrink: u32) -> FlexBoxItem {
    FlexBoxItem {
        slot,
        basis,
        fill,
        grow,
        shrink,
        margin: rect0(),
        align: Fraction::zero(),
    }
}

fn content_item_layout_zero() -> ContentBoxItemLayout {
    ContentBoxItemLayout {
        anchors: AnchorRect::zero(),
        margin: rect0(),
        align: AlignVec::zero(),
        offset: Vec2 { x: 0, y: 0 },
        depth: 0,
    }
}

fn find(layout: &Layout, path: &str) -> LayoutItem {
    match layout.get(&path.to_string()) {
        Some(item) => *item,
        None => panic!("no layout item for {}", path),
    }
}

fn rect(left: i64, right: i64, top: i64, bottom: i64) -> Rect {
    Rect { left, right, top, bottom }
}

#[test]
fn test_layout_no_wrap() {
    let mut layout_engine = DefaultLayoutEngine;
    let view = rect(0, 1024, 0, 576);

    let tree = WidgetUnit::FlexBox(FlexBox {
        id: WidgetId::new("type:/list".to_string()),
        direction: FlexBoxDirection::VerticalTopToBottom,
        separation: 10,
        wrap: false,
        items: vec![
            flex_item(
                size_box("type:/list/0", SizeBoxSizeValue::Fill, SizeBoxSizeValue::Exact(100)),
                None,
                Fraction::one(),
                0,
                0,
            ),
            flex_item(
                size_box("type:/list/1", SizeBoxSizeValue::Fill, SizeBoxSizeValue::Fill),
                None,
                Fraction::one(),
                1,
                0,
            ),
            flex_item(
                size_box("type:/list/2", SizeBoxSizeValue::Fill, SizeBoxSizeValue::Fill),
                None,
                Fraction::one(),
                2,
                0,
            ),
        ],
    });

    let layout = layout_engine.layout(view, &tree).unwrap();
    assert_eq!(layout.ui_space, view);
    assert_eq!(layout.items.len(), 4);
    // Fixed consumption 100 + 2 * 10 = 120; remaining 456; grow total 3,
    // so the growing items take 152 and 304.
    assert_eq!(find(&layout, "type:/list").ui_space, rect(0, 1024, 0, 576));
    assert_eq!(find(&layout, "type:/list/0").ui_space, rect(0, 1024, 0, 100));
    assert_eq!(find(&layout, "type:/list/1").ui_space, rect(0, 1024, 110, 262));
    assert_eq!(find(&layout, "type:/list/2").ui_space, rect(0, 1024, 272, 576));
}

#[test]
fn test_layout_wrapping() {
    let mut layout_engine = DefaultLayoutEngine;
    let view = rect(0, 1024, 0, 576);

    let tree = WidgetUnit::FlexBox(FlexBox {
        id: WidgetId::new("type:/list".to_string()),
        direction: FlexBoxDirection::HorizontalLeftToRight,
        separation: 10,
        wrap: true,
        items: vec![
            flex_item(
                size_box("type:/list/0", SizeBoxSizeValue::Fill, SizeBoxSizeValue::Exact(100)),
                Some(400),
                Fraction::one(),
                1,
                0,
            ),
            flex_item(
                size_box("type:/list/1", SizeBoxSizeValue::Fill, SizeBoxSizeValue::Exact(200)),
                Some(400),
                Fraction::one(),
                1,
                0,
            ),
            flex_item(
                size_box("type:/list/2", SizeBoxSizeValue::Fill, SizeBoxSizeValue::Exact(50)),
                Some(400),
                Fraction::one(),
                2,
                0,
            ),
        ],
    });

    let layout = layout_engine.layout(view, &tree).unwrap();
    assert_eq!(layout.ui_space, view);
    assert_eq!(layout.items.len(), 4);
    // The first two items pack into one line (400 + 400 fits in 1024);
    // its leftover 1024 - 810 = 214 splits evenly between grow weights 1
    // and 1. The third item starts a second line stacked below the first
    // (cross extent 200 plus separation 10) and grows to the full width.
    assert_eq!(find(&layout, "type:/list").ui_space, rect(0, 1024, 0, 260));
    assert_eq!(find(&layout, "type:/list/0").ui_space, rect(0, 507, 0, 100));
    assert_eq!(find(&layout, "type:/list/1").ui_space, rect(517, 1024, 0, 200));
    assert_eq!(find(&layout, "type:/list/2").ui_space, rect(0, 1024, 210, 260));
}

#[test]
fn test_layout_deterministic() {
    let mut engine = DefaultLayoutEngine;
    let view = rect(0, 800, 0, 600);
    let tree = WidgetUnit::FlexBox(FlexBox {
        id: WidgetId::new("a:/root".to_string()),
        direction: FlexBoxDirection::VerticalTopToBottom,
        separation: 3,
        wrap: false,
        items: vec![
            flex_item(
                size_box("a:/root/0", SizeBoxSizeValue::Fill, SizeBoxSizeValue::Exact(40)),
                None,
                Fraction::one(),
                1,
                0,
            ),
        ],
    });
    let first = engine.layout(view, &tree).unwrap();
    let second = engine.layout(view, &tree).unwrap();
    assert_eq!(first.ui_space, second.ui_space);
    assert_eq!(first.items.len(), second.items.len());
    for (a, b) in first.items.iter().zip(second.items.iter()) {
        assert_eq!(a.0.path, b.0.path);
        assert_eq!(a.1, b.1);
    }
}

#[test]
fn test_anchor_identity_fills_parent() {
    let mut engine = DefaultLayoutEngine;
    let view = rect(0, 1024, 0, 576);
    let tree = WidgetUnit::ContentBox(ContentBox {
        id: WidgetId::new("c:/root".to_string()),
        items: vec![ContentBoxItem {
            slot: image_box("c:/root/fill", ImageBoxSizeValue::Fill, ImageBoxSizeValue::Fill),
            layout: ContentBoxItemLayout {
                anchors: AnchorRect {
                    left: Fraction::zero(),
                    right: Fraction::one(),
                    top: Fraction::zero(),
                    bottom: Fraction::one(),
                },
                margin: rect0(),
                align: AlignVec::zero(),
                offset: Vec2 { x: 0, y: 0 },
                depth: 0,
            },
        }],
        clipping: false,
    });
    let layout = engine.layout(view, &tree).unwrap();
    assert_eq!(find(&layout, "c:/root/fill").ui_space, view);
    assert_eq!(find(&layout, "c:/root").ui_space, view);
}

#[test]
fn test_flex_no_grow_keeps_natural_sizes() {
    let mut engine = DefaultLayoutEngine;
    let view = rect(0, 300, 0, 576);
    let tree = WidgetUnit::FlexBox(FlexBox {
        id: WidgetId::new("f:/col".to_string()),
        direction: FlexBoxDirection::VerticalTopToBottom,
        separation: 7,
        wrap: false,
        items: vec![
            flex_item(
                size_box("f:/col/0", SizeBoxSizeValue::Fill, SizeBoxSizeValue::Exact(100)),
                None,
                Fraction::one(),
                0,
                0,
            ),
            flex_item(
                size_box("f:/col/1", SizeBoxSizeValue::Fill, SizeBoxSizeValue::Exact(50)),
                None,
                Fraction::one(),
                0,
                0,
            ),
        ],
    });
    let layout = engine.layout(view, &tree).unwrap();
    // Natural heights kept, consecutive bands exactly 7 apart.
    assert_eq!(find(&layout, "f:/col/0").ui_space, rect(0, 300, 0, 100));
    assert_eq!(find(&layout, "f:/col/1").ui_space, rect(0, 300, 107, 157));
}

#[test]
fn test_flex_equal_shrink_distributes_evenly() {
    let mut engine = DefaultLayoutEngine;
    let view = rect(0, 200, 0, 100);
    let tree = WidgetUnit::FlexBox(FlexBox {
        id: WidgetId::new("s:/col".to_string()),
        direction: FlexBoxDirection::VerticalTopToBottom,
        separation: 0,
        wrap: false,
        items: vec![
            flex_item(
                size_box("s:/col/0", SizeBoxSizeValue::Fill, SizeBoxSizeValue::Fill),
                Some(80),
                Fraction::one(),
                0,
                1,
            ),
            flex_item(
                size_box("s:/col/1", SizeBoxSizeValue::Fill, SizeBoxSizeValue::Fill),
                Some(80),
                Fraction::one(),
                0,
                1,
            ),
        ],
    });
    let layout = engine.layout(view, &tree).unwrap();
    // Natural total 160 exceeds 100 by 60; equal shrink weights absorb
    // 30 each.
    assert_eq!(find(&layout, "s:/col/0").ui_space, rect(0, 200, 0, 50));
    assert_eq!(find(&layout, "s:/col/1").ui_space, rect(0, 200, 50, 100));
}

#[test]
fn test_wrap_packing_respects_available_width() {
    let mut engine = DefaultLayoutEngine;
    let view = rect(0, 1000, 0, 500);
    let tree = WidgetUnit::FlexBox(FlexBox {
        id: WidgetId::new("w:/row".to_string()),
        direction: FlexBoxDirection::HorizontalLeftToRight,
        separation: 0,
        wrap: true,
        items: vec![
            flex_item(
                size_box("w:/row/0", SizeBoxSizeValue::Fill, SizeBoxSizeValue::Exact(50)),
                Some(400),
                Fraction::zero(),
                0,
                0,
            ),
            flex_item(
                size_box("w:/row/1", SizeBoxSizeValue::Fill, SizeBoxSizeValue::Exact(50)),
                Some(400),
                Fraction::zero(),
                0,
                0,
            ),
            flex_item(
                size_box("w:/row/2", SizeBoxSizeValue::Fill, SizeBoxSizeValue::Exact(50)),
                Some(400),
                Fraction::zero(),
                0,
                0,
            ),
        ],
    });
    let layout = engine.layout(view, &tree).unwrap();
    // 400 + 400 fits in 1000; the third item wraps onto a second line.
    assert_eq!(find(&layout, "w:/row/0").ui_space, rect(0, 400, 0, 50));
    assert_eq!(find(&layout, "w:/row/1").ui_space, rect(400, 800, 0, 50));
    assert_eq!(find(&layout, "w:/row/2").ui_space, rect(0, 400, 50, 100));
    assert!(find(&layout, "w:/row/1").ui_space.right <= 1000);
}

#[test]
fn test_wrap_single_oversized_item_keeps_its_line() {
    let mut engine = DefaultLayoutEngine;
    let view = rect(0, 1000, 0, 500);
    let tree = WidgetUnit::FlexBox(FlexBox {
        id: WidgetId::new("w:/row".to_string()),
        direction: FlexBoxDirection::HorizontalLeftToRight,
        separation: 0,
        wrap: true,
        items: vec![
            flex_item(
                size_box("w:/row/0", SizeBoxSizeValue::Fill, SizeBoxSizeValue::Exact(50)),
                Some(1200),
                Fraction::zero(),
                0,
                0,
            ),
            flex_item(
                size_box("w:/row/1", SizeBoxSizeValue::Fill, SizeBoxSizeValue::Exact(50)),
                Some(400),
                Fraction::zero(),
                0,
                0,
            ),
        ],
    });
    let layout = engine.layout(view, &tree).unwrap();
    // A line is never left empty: the oversized first item occupies a
    // line alone and exceeds the available width; the next item wraps.
    assert_eq!(find(&layout, "w:/row/0").ui_space, rect(0, 1200, 0, 50));
    assert_eq!(find(&layout, "w:/row/1").ui_space, rect(0, 400, 50, 100));
}

#[test]
fn test_grid_zero_dimension_not_computable() {
    let mut engine = DefaultLayoutEngine;
    let view = rect(0, 100, 0, 100);
    let no_cols = WidgetUnit::GridBox(GridBox {
        id: WidgetId::new("g:/grid".to_string()),
        items: vec![],
        cols: 0,
        rows: 2,
    });
    let layout = engine.layout(view, &no_cols).unwrap();
    assert_eq!(layout.ui_space, view);
    assert!(layout.items.is_empty());

    let no_rows = WidgetUnit::GridBox(GridBox {
        id: WidgetId::new("g:/grid".to_string()),
        items: vec![],
        cols: 2,
        rows: 0,
    });
    let layout = engine.layout(view, &no_rows).unwrap();
    assert!(layout.items.is_empty());
}

#[test]
fn test_grid_places_cell_spans() {
    let mut engine = DefaultLayoutEngine;
    let view = rect(0, 100, 0, 100);
    let tree = WidgetUnit::GridBox(GridBox {
        id: WidgetId::new("g:/grid".to_string()),
        items: vec![
            GridBoxItem {
                slot: image_box("g:/grid/a", ImageBoxSizeValue::Fill, ImageBoxSizeValue::Fill),
                space_occupancy: IntRect { left: 0, right: 1, top: 0, bottom: 1 },
                margin: rect0(),
                horizontal_align: Fraction::zero(),
                vertical_align: Fraction::zero(),
            },
            GridBoxItem {
                slot: image_box("g:/grid/b", ImageBoxSizeValue::Fill, ImageBoxSizeValue::Fill),
                space_occupancy: IntRect { left: 1, right: 2, top: 1, bottom: 2 },
                margin: rect0(),
                horizontal_align: Fraction::zero(),
                vertical_align: Fraction::zero(),
            },
        ],
        cols: 2,
        rows: 2,
    });
    let layout = engine.layout(view, &tree).unwrap();
    assert_eq!(find(&layout, "g:/grid").ui_space, rect(0, 100, 0, 100));
    assert_eq!(find(&layout, "g:/grid/a").ui_space, rect(0, 50, 0, 50));
    assert_eq!(find(&layout, "g:/grid/b").ui_space, rect(50, 100, 50, 100));
}

#[test]
fn test_size_box_exact_extent_wins() {
    let mut engine = DefaultLayoutEngine;
    let view = rect(0, 1000, 0, 1000);
    let tree = WidgetUnit::SizeBox(SizeBox {
        id: WidgetId::new("z:/box".to_string()),
        slot: Box::new(image_box("z:/box/img", ImageBoxSizeValue::Exact(30), ImageBoxSizeValue::Exact(40))),
        width: SizeBoxSizeValue::Exact(123),
        height: SizeBoxSizeValue::Content,
        margin: rect0(),
    });
    let layout = engine.layout(view, &tree).unwrap();
    // Width is the exact value whatever the viewport or the child; height
    // derives from the child's content.
    assert_eq!(find(&layout, "z:/box").ui_space, rect(0, 123, 0, 40));
    assert_eq!(find(&layout, "z:/box/img").ui_space, rect(0, 30, 0, 40));
}

#[test]
fn test_absolute_composition() {
    let mut engine = DefaultLayoutEngine;
    let view = rect(5, 1029, 7, 583);
    let inner = WidgetUnit::ContentBox(ContentBox {
        id: WidgetId::new("p:/root/mid".to_string()),
        items: vec![ContentBoxItem {
            slot: image_box("p:/root/mid/leaf", ImageBoxSizeValue::Exact(30), ImageBoxSizeValue::Exact(40)),
            layout: ContentBoxItemLayout {
                offset: Vec2 { x: 10, y: 20 },
                ..content_item_layout_zero()
            },
        }],
        clipping: false,
    });
    let tree = WidgetUnit::ContentBox(ContentBox {
        id: WidgetId::new("p:/root".to_string()),
        items: vec![ContentBoxItem {
            slot: inner,
            layout: ContentBoxItemLayout {
                anchors: AnchorRect {
                    left: Fraction::zero(),
                    right: Fraction::one(),
                    top: Fraction::zero(),
                    bottom: Fraction::one(),
                },
                ..content_item_layout_zero()
            },
        }],
        clipping: false,
    });
    let layout = engine.layout(view, &tree).unwrap();
    let root = find(&layout, "p:/root");
    let mid = find(&layout, "p:/root/mid");
    let leaf = find(&layout, "p:/root/mid/leaf");
    // The root's absolute rectangle is the viewport itself.
    assert_eq!(root.ui_space, view);
    // Every node's absolute rectangle is its parent-relative rectangle
    // translated by the parent's absolute origin.
    assert_eq!(mid.ui_space.left, root.ui_space.left + mid.local_space.left);
    assert_eq!(mid.ui_space.top, root.ui_space.top + mid.local_space.top);
    assert_eq!(leaf.ui_space.left, mid.ui_space.left + leaf.local_space.left);
    assert_eq!(leaf.ui_space.right, mid.ui_space.left + leaf.local_space.right);
    assert_eq!(leaf.ui_space.top, mid.ui_space.top + leaf.local_space.top);
    assert_eq!(leaf.ui_space.bottom, mid.ui_space.top + leaf.local_space.bottom);
    assert_eq!(leaf.ui_space, rect(15, 45, 27, 67));
}

#[test]
fn test_text_box_leaf_sizing() {
    let mut engine = DefaultLayoutEngine;
    let view = rect(0, 640, 0, 480);
    let tree = WidgetUnit::TextBox(raui_core::text::TextBox {
        id: WidgetId::new("t:/text".to_string()),
        text: "hello".to_string(),
        width: raui_core::text::TextBoxSizeValue::Fill,
        height: raui_core::text::TextBoxSizeValue::Exact(24),
        alignment: raui_core::text::TextBoxAlignment::Left,
        direction: raui_core::text::TextBoxDirection::HorizontalLeftToRight,
        font: raui_core::text::TextBoxFont {
            name: String::new(),
            size: 12,
            bold: false,
            italic: false,
        },
        color: Color::white(),
    });
    let layout = engine.layout(view, &tree).unwrap();
    assert_eq!(find(&layout, "t:/text").ui_space, rect(0, 640, 0, 24));
}

#[test]
fn test_empty_root_yields_empty_mapping() {
    let mut engine = DefaultLayoutEngine;
    let view = rect(0, 100, 0, 100);
    let layout = engine.layout(view, &WidgetUnit::Empty).unwrap();
    assert_eq!(layout.ui_space, view);
    assert!(layout.items.is_empty());
}

#[test]
fn test_text_box_direction_predicates() {
    assert!(TextBoxDirection::HorizontalLeftToRight.is_horizontal());
    assert!(TextBoxDirection::HorizontalRightToLeft.is_horizontal());
    assert!(!TextBoxDirection::VerticalTopToBottom.is_horizontal());
    assert!(TextBoxDirection::VerticalTopToBottom.is_vertical());
    assert!(TextBoxDirection::VerticalBottomToTop.is_vertical());
    assert!(TextBoxDirection::HorizontalLeftToRight.is_order_ascending());
    assert!(TextBoxDirection::VerticalTopToBottom.is_order_ascending());
    assert!(TextBoxDirection::HorizontalRightToLeft.is_order_descending());
    assert!(TextBoxDirection::VerticalBottomToTop.is_order_descending());
    assert!(!TextBoxDirection::HorizontalLeftToRight.is_order_descending());
}

#[test]
fn test_flex_descending_order_mirrors_placement() {
    let mut engine = DefaultLayoutEngine;
    let view = rect(0, 1000, 0, 100);
    let tree = WidgetUnit::FlexBox(FlexBox {
        id: WidgetId::new("d:/row".to_string()),
        direction: FlexBoxDirection::HorizontalRightToLeft,
        separation: 10,
        wrap: false,
        items: vec![
            flex_item(
                size_box("d:/row/0", SizeBoxSizeValue::Fill, SizeBoxSizeValue::Exact(20)),
                Some(100),
                Fraction::one(),
                0,
                0,
            ),
            flex_item(
                size_box("d:/row/1", SizeBoxSizeValue::Fill, SizeBoxSizeValue::Exact(20)),
                Some(200),
                Fraction::one(),
                0,
                0,
            ),
        ],
    });
    let layout = engine.layout(view, &tree).unwrap();
    // Descending order mirrors from the far edge: the first item occupies
    // the rightmost band, the second sits to its left across the
    // separation.
    assert_eq!(find(&layout, "d:/row/0").ui_space, rect(900, 1000, 0, 20));
    assert_eq!(find(&layout, "d:/row/1").ui_space, rect(690, 890, 0, 20));
}

#[test]
fn test_flex_cross_alignment_centers() {
    let mut engine = DefaultLayoutEngine;
    let view = rect(0, 100, 0, 200);
    let tree = WidgetUnit::FlexBox(FlexBox {
        id: WidgetId::new("m:/col".to_string()),
        direction: FlexBoxDirection::VerticalTopToBottom,
        separation: 0,
        wrap: false,
        items: vec![FlexBoxItem {
            slot: size_box("m:/col/0", SizeBoxSizeValue::Exact(40), SizeBoxSizeValue::Exact(50)),
            basis: None,
            fill: Fraction::zero(),
            grow: 0,
            shrink: 0,
            margin: rect0(),
            align: Fraction::new(1, 2),
        }],
    });
    let layout = engine.layout(view, &tree).unwrap();
    // The child is 40 wide in a 100-wide cross axis; alignment one half
    // leaves 30 on each side.
    assert_eq!(find(&layout, "m:/col/0").ui_space, rect(30, 70, 0, 50));
}

#[test]
fn test_flex_item_margins_offset_and_shrink_extents() {
    let mut engine = DefaultLayoutEngine;
    let view = rect(0, 100, 0, 200);
    let tree = WidgetUnit::FlexBox(FlexBox {
        id: WidgetId::new("mg:/col".to_string()),
        direction: FlexBoxDirection::VerticalTopToBottom,
        separation: 0,
        wrap: false,
        items: vec![FlexBoxItem {
            slot: size_box("mg:/col/0", SizeBoxSizeValue::Fill, SizeBoxSizeValue::Exact(50)),
            basis: None,
            fill: Fraction::one(),
            grow: 0,
            shrink: 0,
            margin: Rect { left: 5, right: 5, top: 3, bottom: 2 },
            align: Fraction::zero(),
        }],
    });
    let layout = engine.layout(view, &tree).unwrap();
    // Natural main 50 + 5 of vertical margins; the child keeps 50 and is
    // offset by its top and left margins; the cross extent fills 100 less
    // 10 of horizontal margins.
    assert_eq!(find(&layout, "mg:/col/0").ui_space, rect(5, 95, 3, 53));
    assert_eq!(find(&layout, "mg:/col").ui_space, rect(0, 90, 0, 50));
}

#[test]
fn test_content_alignment_centers_child() {
    let mut engine = DefaultLayoutEngine;
    let view = rect(0, 100, 0, 100);
    let half = Fraction::new(1, 2);
    let tree = WidgetUnit::ContentBox(ContentBox {
        id: WidgetId::new("ca:/root".to_string()),
        items: vec![ContentBoxItem {
            slot: image_box("ca:/root/img", ImageBoxSizeValue::Exact(40), ImageBoxSizeValue::Exact(20)),
            layout: ContentBoxItemLayout {
                anchors: AnchorRect {
                    left: Fraction::zero(),
                    right: Fraction::one(),
                    top: Fraction::zero(),
                    bottom: Fraction::one(),
                },
                margin: rect0(),
                align: AlignVec { x: half, y: half },
                offset: Vec2 { x: 0, y: 0 },
                depth: 0,
            },
        }],
        clipping: false,
    });
    let layout = engine.layout(view, &tree).unwrap();
    // The 40 by 20 child sits centered in the 100 by 100 anchored box.
    assert_eq!(find(&layout, "ca:/root/img").ui_space, rect(30, 70, 40, 60));
}

#[test]
fn test_grid_alignment_stays_inside_cell_box() {
    let mut engine = DefaultLayoutEngine;
    let view = rect(0, 100, 0, 100);
    let tree = WidgetUnit::GridBox(GridBox {
        id: WidgetId::new("ga:/grid".to_string()),
        items: vec![
            GridBoxItem {
                slot: image_box("ga:/grid/end", ImageBoxSizeValue::Exact(10), ImageBoxSizeValue::Exact(10)),
                space_occupancy: IntRect { left: 0, right: 1, top: 0, bottom: 1 },
                margin: rect0(),
                horizontal_align: Fraction::one(),
                vertical_align: Fraction::one(),
            },
            GridBoxItem {
                slot: image_box("ga:/grid/mid", ImageBoxSizeValue::Exact(10), ImageBoxSizeValue::Exact(10)),
                space_occupancy: IntRect { left: 1, right: 2, top: 0, bottom: 1 },
                margin: rect0(),
                horizontal_align: Fraction::new(1, 2),
                vertical_align: Fraction::new(1, 2),
            },
        ],
        cols: 2,
        rows: 2,
    });
    let layout = engine.layout(view, &tree).unwrap();
    // A 10 by 10 child in a 50 by 50 cell box: alignment one pushes it to
    // the box's far corner, alignment one half centers it; both stay
    // inside the box.
    assert_eq!(find(&layout, "ga:/grid/end").ui_space, rect(40, 50, 40, 50));
    assert_eq!(find(&layout, "ga:/grid/mid").ui_space, rect(70, 80, 20, 30));
}

#[test]
fn test_natural_width_adds_horizontal_margins() {
    let mut engine = DefaultLayoutEngine;
    let view = rect(0, 500, 0, 500);
    let inner = WidgetUnit::SizeBox(SizeBox {
        id: WidgetId::new("nw:/row/0".to_string()),
        slot: Box::new(image_box("nw:/row/0/img", ImageBoxSizeValue::Exact(10), ImageBoxSizeValue::Exact(20))),
        width: SizeBoxSizeValue::Content,
        height: SizeBoxSizeValue::Content,
        margin: Rect { left: 1, right: 2, top: 3, bottom: 4 },
    });
    let tree = WidgetUnit::FlexBox(FlexBox {
        id: WidgetId::new("nw:/row".to_string()),
        direction: FlexBoxDirection::HorizontalLeftToRight,
        separation: 0,
        wrap: false,
        items: vec![flex_item(inner, None, Fraction::zero(), 0, 0)],
    });
    let layout = engine.layout(view, &tree).unwrap();
    // Natural width resolves through the content-derived size box adding
    // its left and right margins: 10 + 1 + 2 = 13; natural height adds
    // top and bottom: 20 + 3 + 4 = 27.
    assert_eq!(find(&layout, "nw:/row").ui_space, rect(0, 13, 0, 27));
    assert_eq!(find(&layout, "nw:/row/0").ui_space, rect(0, 10, 0, 20));
    assert_eq!(find(&layout, "nw:/row/0/img").ui_space, rect(1, 11, 3, 23));
}
