//! The grid kind: a fixed matrix of evenly sized cells, each item claiming a
//! rectangular span of cells.

use vstd::prelude::*;
use crate::scalar::Fraction;
use crate::utils::{IntRect, Rect};
use crate::unit::WidgetUnit;
use crate::widget_id::WidgetId;

verus! {

/// One item of a grid container together with its layout parameters.
#[derive(Debug)]
pub struct GridBoxItem {
    pub slot: WidgetUnit,
    pub space_occupancy: IntRect,
    pub margin: Rect,
    pub horizontal_align: Fraction,
    pub vertical_align: Fraction,
}

impl GridBoxItem {
    /// The alignment fractions denote unit-interval rationals.
    pub open spec fn valid(self) -> bool {
        self.horizontal_align.valid() && self.vertical_align.valid()
    }
}

/// A grid container node with a fixed number of columns and rows.
#[derive(Debug)]
pub struct GridBox {
    pub id: WidgetId,
    pub items: Vec<GridBoxItem>,
    pub cols: usize,
    pub rows: usize,
}

} // verus!
