//! Layout core for a declarative tree of UI boxes.
//!
//! Given a viewport rectangle and an immutable tree of box descriptions, the
//! engine computes a parent-relative rectangle for every reachable node and
//! flattens the result into a mapping keyed by node identity, with both
//! parent-relative and viewport-absolute coordinates.
//!
//! Coordinates are exact 64-bit integers; every arithmetic step saturates at
//! the scalar bounds instead of overflowing, and the fractional parameters
//! (anchors, alignment, fill) are rational values in the unit interval.

pub mod scalar;
pub mod utils;
pub mod widget_id;
pub mod unit;
pub mod content;
pub mod flex;
pub mod grid;
pub mod image;
pub mod size;
pub mod text;
pub mod layout;
pub mod model;
pub mod default_layout_engine;
pub mod laws;
pub mod renderer;

pub use scalar::{Fraction, Scalar};
pub use utils::{Color, IntRect, Rect, Vec2};
pub use widget_id::WidgetId;
pub use unit::WidgetUnit;
pub use layout::{Layout, LayoutItem, LayoutNode};
pub use default_layout_engine::DefaultLayoutEngine;
pub use renderer::BinaryRenderer;
