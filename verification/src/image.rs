//! The image leaf kind: no children, sized per axis by fill or an exact value.

use vstd::prelude::*;
use crate::scalar::Scalar;
use crate::utils::Color;
use crate::widget_id::WidgetId;

verus! {

/// Per-axis sizing of an image leaf: take the available extent, or an exact one.
#[derive(Clone, Copy, Debug, PartialEq, Eq, Structural)]
pub enum ImageBoxSizeValue {
    Fill,
    Exact(Scalar),
}

/// An image leaf node.
#[derive(Debug)]
pub struct ImageBox {
    pub id: WidgetId,
    pub image: String,
    pub width: ImageBoxSizeValue,
    pub height: ImageBoxSizeValue,
    pub tint: Color,
}

} // verus!
