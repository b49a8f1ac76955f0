//! The contract every element meets.

use vstd::prelude::*;
use crate::context::{
    BreakableMeasureInput, DrawCtx, DrawInput, DrawOutcome, FirstLocationUsage,
    FirstLocationUsageCtx, InsufficientFirstHeightCtx, MeasureCtx, MeasureInput, MeasureOutcome,
};
use crate::geometry::{length_in_range, ElementSize};
use crate::resolver::LocationResolver;

verus! {

/// Something that can be measured and drawn onto an output surface `S`.
///
/// Each pass is a function of the element and of the values in its context:
/// the four `*_spec` functions say which, and the executable methods return
/// what they say. Measuring therefore gives the same answer however often it is
/// repeated, and never touches the element. An implementation that is not
/// verified leaves these functions as they stand here: some function of the
/// element and the context, of which nothing more is known.
pub trait Element<S> {
    /// What [`Element::first_location_usage`] answers.
    open spec fn first_location_usage_spec(&self, ctx: FirstLocationUsageCtx)
        -> FirstLocationUsage {
        (arbitrary::<spec_fn(&Self, FirstLocationUsageCtx) -> FirstLocationUsage>())(self, ctx)
    }

    /// What [`Element::insufficient_first_height`] answers.
    open spec fn insufficient_first_height_spec(&self, ctx: InsufficientFirstHeightCtx) -> bool {
        (arbitrary::<spec_fn(&Self, InsufficientFirstHeightCtx) -> bool>())(self, ctx)
    }

    /// What [`Element::measure`] yields.
    open spec fn measure_spec(&self, ctx: MeasureInput) -> MeasureOutcome {
        (arbitrary::<spec_fn(&Self, MeasureInput) -> MeasureOutcome>())(self, ctx)
    }

    /// What [`Element::draw`] yields.
    open spec fn draw_spec(&self, ctx: DrawInput<S>) -> DrawOutcome<S> {
        (arbitrary::<spec_fn(&Self, DrawInput<S>) -> DrawOutcome<S>>())(self, ctx)
    }

    /// Whether the element can be drawn in this pass with every position that
    /// it moves staying within the range of lengths. A pass of which this does
    /// not hold would have to go on with a wrong position and is not accepted.
    open spec fn draw_stays_in_range(&self, ctx: DrawInput<S>) -> bool {
        (arbitrary::<spec_fn(&Self, DrawInput<S>) -> bool>())(self, ctx)
    }

    /// Says, without drawing, how the element would use the frame it is
    /// started in.
    fn first_location_usage(&self, ctx: FirstLocationUsageCtx) -> (usage: FirstLocationUsage)
        requires
            ctx.wf(),
        ensures
            usage == self.first_location_usage_spec(ctx),
    ;

    /// Says, without drawing, whether the element has to begin on a fresh
    /// frame.
    fn insufficient_first_height(&self, ctx: InsufficientFirstHeightCtx) -> (insufficient: bool)
        requires
            ctx.wf(),
        ensures
            insufficient == self.insufficient_first_height_spec(ctx),
    ;

    /// Computes the size of the element without drawing it. In a breakable
    /// pass the outputs of the context receive what the element reports.
    fn measure(&self, ctx: MeasureCtx<'_>) -> (size: Option<ElementSize>)
        requires
            ctx@.wf(),
        ensures
            size == self.measure_spec(ctx@).size,
            size matches Some(s) ==> s.wf(),
            ctx.breakable matches Some(b) ==> {
                &&& *final(b.break_count) == self.measure_spec(ctx@).break_count
                &&& *final(b.extra_location_min_height) == self.measure_spec(
                    ctx@,
                ).extra_location_min_height
                &&& *final(b.extra_location_min_height) matches Some(h) ==> length_in_range(
                    h as int,
                )
            },
    ;

    /// Draws the element onto the surface of the context. Returns the size it
    /// took and, in a breakable pass, the resolver of the context, which the
    /// element has asked for each further frame it drew into.
    fn draw<R: LocationResolver<S>>(&self, ctx: DrawCtx<'_, S, R>) -> (drawn: (
        Option<ElementSize>,
        Option<R>,
    ))
        requires
            ctx@.wf(),
            ctx.breakable matches Some(b) ==> b.get_location.stays_in_range(),
            self.draw_stays_in_range(ctx@),
        ensures
            drawn.0 == self.draw_spec(ctx@).size,
            drawn.0 matches Some(s) ==> s.wf(),
            *final(ctx.surface) == self.draw_spec(ctx@).surface,
            match ctx.breakable {
                Some(b) => drawn.1 matches Some(resolver) && resolver.stays_in_range()
                    && resolver.requested() == b.get_location.requested() + self.draw_spec(
                    ctx@,
                ).requested,
                None => drawn.1 is None,
            },
    ;
}

/// The breakable measurement that answers a first-location-usage question:
/// the same widths and heights, with outputs that start at zero and nothing.
pub open spec fn usage_query(ctx: FirstLocationUsageCtx) -> MeasureInput {
    MeasureInput {
        width: ctx.width,
        first_height: ctx.first_height,
        breakable: Some(
            BreakableMeasureInput {
                full_height: ctx.full_height,
                break_count: 0,
                extra_location_min_height: None,
            },
        ),
    }
}

/// How a breakable measurement is read as the use of the first frame: an
/// element that needed a break will skip it, one that fitted with a known
/// height will use it, and of one without a known height nothing can be said.
pub open spec fn usage_of_measurement(break_count: u32, size: Option<ElementSize>)
    -> FirstLocationUsage {
    if break_count >= 1 {
        FirstLocationUsage::WillSkip
    } else if size matches Some(s) && s.height is Some {
        FirstLocationUsage::WillUse
    } else {
        FirstLocationUsage::NoneHeight
    }
}

/// Reads the result of a breakable measurement as the use of the first frame.
/// An element that has no cheaper way to answer a first-location-usage
/// question measures itself with [`usage_query`] and hands the result to this
/// function.
pub fn usage_of_measured(break_count: u32, size: Option<ElementSize>) -> (usage:
    FirstLocationUsage)
    ensures
        usage == usage_of_measurement(break_count, size),
{
    if break_count >= 1 {
        FirstLocationUsage::WillSkip
    } else {
        match size {
            Some(ElementSize { width: _, height: Some(_) }) => FirstLocationUsage::WillUse,
            _ => FirstLocationUsage::NoneHeight,
        }
    }
}

} // verus!
