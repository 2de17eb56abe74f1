//! Geometry value types: 2D vectors and axis-aligned rectangles.

use vstd::prelude::*;
use crate::scalar::{Scalar, clip, max_i, sat_add, sat_sub};

verus! {

/// Mathematical view of a 2D vector: both components as unbounded integers.
pub struct Vec2View {
    pub x: int,
    pub y: int,
}

/// A 2D point or extent.
#[derive(Clone, Copy, Debug, PartialEq, Eq, Structural)]
pub struct Vec2 {
    pub x: Scalar,
    pub y: Scalar,
}

impl View for Vec2 {
    type V = Vec2View;

    open spec fn view(&self) -> Vec2View {
        Vec2View { x: self.x as int, y: self.y as int }
    }
}

impl Vec2 {
    /// The origin.
    pub fn zero() -> (r: Vec2)
        ensures
            r@ == (Vec2View { x: 0, y: 0 }),
    {
        Vec2 { x: 0, y: 0 }
    }
}

/// Mathematical view of a rectangle: the four edges as unbounded integers.
pub struct RectView {
    pub left: int,
    pub right: int,
    pub top: int,
    pub bottom: int,
}

impl RectView {
    /// Width: the horizontal extent, clamped into the scalar range.
    pub open spec fn width(self) -> int {
        clip(self.right - self.left)
    }

    /// Height: the vertical extent, clamped into the scalar range.
    pub open spec fn height(self) -> int {
        clip(self.bottom - self.top)
    }

    /// The extent of the rectangle as a vector.
    pub open spec fn size(self) -> Vec2View {
        Vec2View { x: self.width(), y: self.height() }
    }

    /// The rectangle shifted right by `dx`, each edge clamped.
    pub open spec fn translated_x(self, dx: int) -> RectView {
        RectView {
            left: clip(self.left + dx),
            right: clip(self.right + dx),
            top: self.top,
            bottom: self.bottom,
        }
    }

    /// The rectangle shifted down by `dy`, each edge clamped.
    pub open spec fn translated_y(self, dy: int) -> RectView {
        RectView {
            left: self.left,
            right: self.right,
            top: clip(self.top + dy),
            bottom: clip(self.bottom + dy),
        }
    }
}

/// An axis-aligned rectangle given by its four edges.
#[derive(Clone, Copy, Debug, PartialEq, Eq, Structural)]
pub struct Rect {
    pub left: Scalar,
    pub right: Scalar,
    pub top: Scalar,
    pub bottom: Scalar,
}

impl View for Rect {
    type V = RectView;

    open spec fn view(&self) -> RectView {
        RectView {
            left: self.left as int,
            right: self.right as int,
            top: self.top as int,
            bottom: self.bottom as int,
        }
    }
}

impl Rect {
    /// The rectangle with all four edges at zero.
    pub fn zero() -> (r: Rect)
        ensures
            r@ == (RectView { left: 0, right: 0, top: 0, bottom: 0 }),
    {
        Rect { left: 0, right: 0, top: 0, bottom: 0 }
    }

    /// The horizontal extent.
    pub fn width(&self) -> (r: Scalar)
        ensures
            r as int == self@.width(),
    {
        sat_sub(self.right, self.left)
    }

    /// The vertical extent.
    pub fn height(&self) -> (r: Scalar)
        ensures
            r as int == self@.height(),
    {
        sat_sub(self.bottom, self.top)
    }

    /// The extent of the rectangle as a vector.
    pub fn size(&self) -> (r: Vec2)
        ensures
            r@ == self@.size(),
    {
        Vec2 { x: self.width(), y: self.height() }
    }

    /// Shift the rectangle right by `dx`, clamping each edge.
    pub fn translate_x(&self, dx: Scalar) -> (r: Rect)
        ensures
            r@ == self@.translated_x(dx as int),
    {
        Rect {
            left: sat_add(self.left, dx),
            right: sat_add(self.right, dx),
            top: self.top,
            bottom: self.bottom,
        }
    }

    /// Shift the rectangle down by `dy`, clamping each edge.
    pub fn translate_y(&self, dy: Scalar) -> (r: Rect)
        ensures
            r@ == self@.translated_y(dy as int),
    {
        Rect {
            left: self.left,
            right: self.right,
            top: sat_add(self.top, dy),
            bottom: sat_add(self.bottom, dy),
        }
    }
}

/// An RGBA color; carried through layout untouched.
#[derive(Clone, Copy, Debug, PartialEq, Eq, Structural)]
pub struct Color {
    pub r: u8,
    pub g: u8,
    pub b: u8,
    pub a: u8,
}

impl Color {
    /// Opaque white.
    pub fn white() -> (c: Color)
        ensures
            c == (Color { r: 255u8, g: 255u8, b: 255u8, a: 255u8 }),
    {
        Color { r: 255, g: 255, b: 255, a: 255 }
    }
}

/// A rectangle of cell indices, used by grid items to claim a span of cells.
#[derive(Clone, Copy, Debug, PartialEq, Eq, Structural)]
pub struct IntRect {
    pub left: usize,
    pub right: usize,
    pub top: usize,
    pub bottom: usize,
}

impl IntRect {
    /// The empty span at the origin.
    pub fn zero() -> (r: IntRect)
        ensures
            r == (IntRect { left: 0usize, right: 0usize, top: 0usize, bottom: 0usize }),
    {
        IntRect { left: 0, right: 0, top: 0, bottom: 0 }
    }
}

} // verus!
