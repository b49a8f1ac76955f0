//! A constraint-based layout protocol for paginated documents.
//!
//! Elements are measured and then drawn into a sequence of page-like frames.
//! An element learns the height left on the current frame and the height of a
//! fresh one, and may ask for further frames while it is drawn. Every length is
//! a fixed-point [`Length`], so that the whole negotiation is exact integer
//! arithmetic.

pub mod context;
pub mod element;
pub mod elements;
pub mod geometry;
pub mod resolver;
pub mod serde_elements;
pub mod test_utils;

pub use crate::context::{
    BreakableDraw, BreakableMeasure, DrawCtx, FirstLocationUsage, FirstLocationUsageCtx,
    InsufficientFirstHeightCtx, MeasureCtx,
};
pub use crate::element::Element;
pub use crate::geometry::{
    translate, ElementSize, LayerHandle, Length, Location, WidthConstraint, LENGTH_MAX,
    UNITS_PER_MM,
};
pub use crate::resolver::LocationResolver;
