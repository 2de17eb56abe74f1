//! The flex kind: items placed along a main axis, growing or shrinking to
//! share leftover space, optionally wrapping into lines.

use vstd::prelude::*;
use crate::scalar::{Scalar, Fraction};
use crate::utils::Rect;
use crate::unit::WidgetUnit;
use crate::widget_id::WidgetId;

verus! {

/// Main-axis selection and placement order of a flex container.
#[derive(Clone, Copy, Debug, PartialEq, Eq, Structural)]
pub enum FlexBoxDirection {
    HorizontalLeftToRight,
    HorizontalRightToLeft,
    VerticalTopToBottom,
    VerticalBottomToTop,
}

impl FlexBoxDirection {
    /// Whether the main axis is horizontal.
    pub fn is_horizontal(&self) -> (r: bool)
        ensures
            r == (*self == FlexBoxDirection::HorizontalLeftToRight
                || *self == FlexBoxDirection::HorizontalRightToLeft),
    {
        matches!(*self,
            FlexBoxDirection::HorizontalLeftToRight | FlexBoxDirection::HorizontalRightToLeft)
    }

    /// Whether the main axis is vertical.
    pub fn is_vertical(&self) -> (r: bool)
        ensures
            r == (*self == FlexBoxDirection::VerticalTopToBottom
                || *self == FlexBoxDirection::VerticalBottomToTop),
    {
        matches!(*self,
            FlexBoxDirection::VerticalTopToBottom | FlexBoxDirection::VerticalBottomToTop)
    }

    /// Whether placement accumulates forward along the main axis.
    pub fn is_order_ascending(&self) -> (r: bool)
        ensures
            r == (*self == FlexBoxDirection::HorizontalLeftToRight
                || *self == FlexBoxDirection::VerticalTopToBottom),
    {
        matches!(*self,
            FlexBoxDirection::HorizontalLeftToRight | FlexBoxDirection::VerticalTopToBottom)
    }

    /// Whether placement mirrors backward from the far edge.
    pub fn is_order_descending(&self) -> (r: bool)
        ensures
            r == (*self == FlexBoxDirection::HorizontalRightToLeft
                || *self == FlexBoxDirection::VerticalBottomToTop),
    {
        matches!(*self,
            FlexBoxDirection::HorizontalRightToLeft | FlexBoxDirection::VerticalBottomToTop)
    }
}

/// One item of a flex container together with its layout parameters.
///
/// `basis` overrides the natural main-axis size; `grow` and `shrink` are the
/// item's weights when positive or negative leftover space is distributed;
/// `fill` widens the cross extent toward the full available cross size; and
/// `align` positions the item across the cross axis.
#[derive(Debug)]
pub struct FlexBoxItem {
    pub slot: WidgetUnit,
    pub basis: Option<Scalar>,
    pub fill: Fraction,
    pub grow: u32,
    pub shrink: u32,
    pub margin: Rect,
    pub align: Fraction,
}

impl FlexBoxItem {
    /// The fractional parameters denote unit-interval rationals.
    pub open spec fn valid(self) -> bool {
        self.fill.valid() && self.align.valid()
    }
}

/// A flex container node.
#[derive(Debug)]
pub struct FlexBox {
    pub id: WidgetId,
    pub items: Vec<FlexBoxItem>,
    pub direction: FlexBoxDirection,
    pub separation: Scalar,
    pub wrap: bool,
}

} // verus!
