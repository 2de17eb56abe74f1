//! The size-constrained kind: a single optional child with per-axis sizing.

use vstd::prelude::*;
use crate::scalar::Scalar;
use crate::utils::Rect;
use crate::unit::WidgetUnit;
use crate::widget_id::WidgetId;

verus! {

/// Per-axis sizing of a size-constrained node: derive from the child's
/// content, take the available extent, or use an exact value.
#[derive(Clone, Copy, Debug, PartialEq, Eq, Structural)]
pub enum SizeBoxSizeValue {
    Content,
    Fill,
    Exact(Scalar),
}

/// A size-constrained node wrapping a single (possibly empty) child.
#[derive(Debug)]
pub struct SizeBox {
    pub id: WidgetId,
    pub slot: Box<WidgetUnit>,
    pub width: SizeBoxSizeValue,
    pub height: SizeBoxSizeValue,
    pub margin: Rect,
}

} // verus!
