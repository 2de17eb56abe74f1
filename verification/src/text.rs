//! The text leaf kind: no children, sized per axis by fill or an exact value.

use vstd::prelude::*;
use crate::scalar::Scalar;
use crate::utils::Color;
use crate::widget_id::WidgetId;

verus! {

/// Horizontal alignment of rendered text; carried through layout untouched.
#[derive(Clone, Copy, Debug, PartialEq, Eq, Structural)]
pub enum TextBoxAlignment {
    Left,
    Center,
    Right,
}

/// Reading direction of rendered text; carried through layout untouched.
#[derive(Clone, Copy, Debug, PartialEq, Eq, Structural)]
pub enum TextBoxDirection {
    HorizontalLeftToRight,
    HorizontalRightToLeft,
    VerticalTopToBottom,
    VerticalBottomToTop,
}

impl TextBoxDirection {
    /// Whether the direction runs along the horizontal axis.
    pub fn is_horizontal(&self) -> (r: bool)
        ensures
            r == (*self == TextBoxDirection::HorizontalLeftToRight
                || *self == TextBoxDirection::HorizontalRightToLeft),
    {
        matches!(*self,
            TextBoxDirection::HorizontalLeftToRight | TextBoxDirection::HorizontalRightToLeft)
    }

    /// Whether the direction runs along the vertical axis.
    pub fn is_vertical(&self) -> (r: bool)
        ensures
            r == (*self == TextBoxDirection::VerticalTopToBottom
                || *self == TextBoxDirection::VerticalBottomToTop),
    {
        matches!(*self,
            TextBoxDirection::VerticalTopToBottom | TextBoxDirection::VerticalBottomToTop)
    }

    /// Whether placement accumulates forward along the axis.
    pub fn is_order_ascending(&self) -> (r: bool)
        ensures
            r == (*self == TextBoxDirection::HorizontalLeftToRight
                || *self == TextBoxDirection::VerticalTopToBottom),
    {
        matches!(*self,
            TextBoxDirection::HorizontalLeftToRight | TextBoxDirection::VerticalTopToBottom)
    }

    /// Whether placement mirrors backward from the far edge.
    pub fn is_order_descending(&self) -> (r: bool)
        ensures
            r == (*self == TextBoxDirection::HorizontalRightToLeft
                || *self == TextBoxDirection::VerticalBottomToTop),
    {
        matches!(*self,
            TextBoxDirection::HorizontalRightToLeft | TextBoxDirection::VerticalBottomToTop)
    }
}

impl Default for TextBoxAlignment {
    fn default() -> (r: Self)
        ensures
            r == TextBoxAlignment::Left,
    {
        TextBoxAlignment::Left
    }
}

impl Default for TextBoxDirection {
    fn default() -> (r: Self)
        ensures
            r == TextBoxDirection::HorizontalLeftToRight,
    {
        TextBoxDirection::HorizontalLeftToRight
    }
}

/// Font selection for a text leaf; carried through layout untouched.
#[derive(Debug)]
pub struct TextBoxFont {
    pub name: String,
    pub size: Scalar,
    pub bold: bool,
    pub italic: bool,
}

/// Per-axis sizing of a text leaf: take the available extent, or an exact one.
#[derive(Clone, Copy, Debug, PartialEq, Eq, Structural)]
pub enum TextBoxSizeValue {
    Fill,
    Exact(Scalar),
}

impl Default for TextBoxSizeValue {
    fn default() -> (r: Self)
        ensures
            r == TextBoxSizeValue::Fill,
    {
        TextBoxSizeValue::Fill
    }
}

/// A text leaf node.
#[derive(Debug)]
pub struct TextBox {
    pub id: WidgetId,
    pub text: String,
    pub width: TextBoxSizeValue,
    pub height: TextBoxSizeValue,
    pub alignment: TextBoxAlignment,
    pub direction: TextBoxDirection,
    pub font: TextBoxFont,
    pub color: Color,
}

impl TextBox {
    /// The node's stable identity.
    pub fn id(&self) -> (r: &WidgetId)
        ensures
            r@ == self.id@,
    {
        &self.id
    }
}

} // verus!
