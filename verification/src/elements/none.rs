//! The element that is not there.

use vstd::prelude::*;
use crate::context::{
    DrawCtx, DrawInput, DrawOutcome, FirstLocationUsage, FirstLocationUsageCtx,
    InsufficientFirstHeightCtx, MeasureCtx, MeasureInput, MeasureOutcome,
};
use crate::element::Element;
use crate::geometry::ElementSize;
use crate::resolver::LocationResolver;

verus! {

/// An element without content. It has no size, draws nothing, asks for no
/// frame and leaves the outputs of a measure pass as they are.
pub struct NoneElement;

impl<S> Element<S> for NoneElement {
    open spec fn first_location_usage_spec(&self, ctx: FirstLocationUsageCtx) -> FirstLocationUsage {
        FirstLocationUsage::NoneHeight
    }

    open spec fn insufficient_first_height_spec(&self, ctx: InsufficientFirstHeightCtx) -> bool {
        false
    }

    open spec fn measure_spec(&self, ctx: MeasureInput) -> MeasureOutcome {
        MeasureOutcome {
            size: None,
            break_count: match ctx.breakable {
                Some(b) => b.break_count,
                None => 0,
            },
            extra_location_min_height: match ctx.breakable {
                Some(b) => b.extra_location_min_height,
                None => None,
            },
        }
    }

    open spec fn draw_spec(&self, ctx: DrawInput<S>) -> DrawOutcome<S> {
        DrawOutcome { size: None, requested: Seq::empty(), surface: ctx.surface }
    }

    open spec fn draw_stays_in_range(&self, ctx: DrawInput<S>) -> bool {
        true
    }

    fn first_location_usage(&self, ctx: FirstLocationUsageCtx) -> (usage: FirstLocationUsage) {
        FirstLocationUsage::NoneHeight
    }

    fn insufficient_first_height(&self, ctx: InsufficientFirstHeightCtx) -> (insufficient: bool) {
        false
    }

    fn measure(&self, ctx: MeasureCtx<'_>) -> (size: Option<ElementSize>) {
        None
    }

    fn draw<R: LocationResolver<S>>(&self, ctx: DrawCtx<'_, S, R>) -> (drawn: (
        Option<ElementSize>,
        Option<R>,
    )) {
        match ctx.breakable {
            Some(breakable) => (None, Some(breakable.get_location)),
            None => (None, None),
        }
    }
}

} // verus!
