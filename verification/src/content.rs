//! The anchor/content kind: children positioned by fractional anchors over
//! the available rectangle, with margins, offsets and alignment.

use vstd::prelude::*;
use crate::scalar::{Scalar, Fraction};
use crate::utils::{Rect, Vec2};
use crate::unit::WidgetUnit;
use crate::widget_id::WidgetId;

verus! {

/// Four fractional anchors, each a unit-interval position within the parent's
/// available extent on its axis.
#[derive(Clone, Copy, Debug, PartialEq, Eq, Structural)]
pub struct AnchorRect {
    pub left: Fraction,
    pub right: Fraction,
    pub top: Fraction,
    pub bottom: Fraction,
}

impl AnchorRect {
    /// All four anchors denote unit-interval rationals.
    pub open spec fn valid(self) -> bool {
        self.left.valid() && self.right.valid() && self.top.valid() && self.bottom.valid()
    }

    /// All anchors at zero.
    pub fn zero() -> (r: AnchorRect)
        ensures
            r.left == (Fraction { num: 0u32, den: 1u32 }),
            r.right == (Fraction { num: 0u32, den: 1u32 }),
            r.top == (Fraction { num: 0u32, den: 1u32 }),
            r.bottom == (Fraction { num: 0u32, den: 1u32 }),
            r.valid(),
    {
        AnchorRect {
            left: Fraction::zero(),
            right: Fraction::zero(),
            top: Fraction::zero(),
            bottom: Fraction::zero(),
        }
    }
}

/// A pair of unit-interval alignment fractions, one per axis.
#[derive(Clone, Copy, Debug, PartialEq, Eq, Structural)]
pub struct AlignVec {
    pub x: Fraction,
    pub y: Fraction,
}

impl AlignVec {
    /// Both alignment fractions denote unit-interval rationals.
    pub open spec fn valid(self) -> bool {
        self.x.valid() && self.y.valid()
    }

    /// Alignment toward the start on both axes.
    pub fn zero() -> (r: AlignVec)
        ensures
            r.x == (Fraction { num: 0u32, den: 1u32 }),
            r.y == (Fraction { num: 0u32, den: 1u32 }),
            r.valid(),
    {
        AlignVec { x: Fraction::zero(), y: Fraction::zero() }
    }
}

/// How one child of a content box is anchored and adjusted.
#[derive(Clone, Copy, Debug)]
pub struct ContentBoxItemLayout {
    pub anchors: AnchorRect,
    pub margin: Rect,
    pub align: AlignVec,
    pub offset: Vec2,
    pub depth: Scalar,
}

impl ContentBoxItemLayout {
    /// All fractional parameters denote unit-interval rationals.
    pub open spec fn valid(self) -> bool {
        self.anchors.valid() && self.align.valid()
    }
}

/// One child of a content box together with its layout parameters.
#[derive(Debug)]
pub struct ContentBoxItem {
    pub slot: WidgetUnit,
    pub layout: ContentBoxItemLayout,
}

/// An anchor/content container node.
#[derive(Debug)]
pub struct ContentBox {
    pub id: WidgetId,
    pub items: Vec<ContentBoxItem>,
    pub clipping: bool,
}

impl ContentBox {
    /// The node's stable identity.
    pub fn id(&self) -> (r: &WidgetId)
        ensures
            r@ == self.id@,
    {
        &self.id
    }

    /// The child slots, in item order.
    pub fn get_children<'a>(&'a self) -> (r: Vec<&'a WidgetUnit>)
        ensures
            r@.len() == self.items@.len(),
            forall|i: int| 0 <= i < r@.len() ==> *(#[trigger] r@[i]) == self.items@[i].slot,
    {
        let mut r: Vec<&WidgetUnit> = Vec::new();
        let n = self.items.len();
        let mut i: usize = 0;
        while i < n
            invariant
                n == self.items@.len(),
                i <= n,
                r@.len() == i,
                forall|j: int| 0 <= j < i ==> *(#[trigger] r@[j]) == self.items@[j].slot,
            decreases n - i,
        {
            r.push(&self.items[i].slot);
            i += 1;
        }
        r
    }
}

} // verus!
