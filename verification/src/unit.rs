//! The closed union of box kinds that a layout tree is built from.

use vstd::prelude::*;
use crate::content::ContentBox;
use crate::flex::FlexBox;
use crate::grid::GridBox;
use crate::image::ImageBox;
use crate::size::SizeBox;
use crate::text::TextBox;

verus! {

/// A node of the layout tree: empty, one of four containers, or one of two
/// leaf kinds.
#[derive(Debug)]
pub enum WidgetUnit {
    Empty,
    ContentBox(ContentBox),
    FlexBox(FlexBox),
    GridBox(GridBox),
    SizeBox(SizeBox),
    ImageBox(ImageBox),
    TextBox(TextBox),
}

/// Every fractional parameter anywhere in the tree denotes a unit-interval
/// rational. Layout is defined for trees that satisfy this.
pub open spec fn unit_wf(u: WidgetUnit) -> bool
    decreases u, 0int, 0int,
{
    match u {
        WidgetUnit::Empty => true,
        WidgetUnit::ContentBox(b) => forall|i: int|
            0 <= i < b.items@.len() ==> {
                &&& (#[trigger] b.items@[i]).layout.valid()
                &&& unit_wf(b.items@[i].slot)
            },
        WidgetUnit::FlexBox(b) => forall|i: int|
            0 <= i < b.items@.len() ==> {
                &&& (#[trigger] b.items@[i]).valid()
                &&& unit_wf(b.items@[i].slot)
            },
        WidgetUnit::GridBox(b) => forall|i: int|
            0 <= i < b.items@.len() ==> {
                &&& (#[trigger] b.items@[i]).valid()
                &&& unit_wf(b.items@[i].slot)
            },
        WidgetUnit::SizeBox(b) => unit_wf(*b.slot),
        WidgetUnit::ImageBox(_) => true,
        WidgetUnit::TextBox(_) => true,
    }
}

impl WidgetUnit {
    /// Whether the node is anything but empty.
    pub fn is_some(&self) -> (r: bool)
        ensures
            r == !(*self is Empty),
    {
        !matches!(*self, WidgetUnit::Empty)
    }
}

} // verus!
