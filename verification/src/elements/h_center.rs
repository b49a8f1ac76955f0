//! Horizontal centring.

use vstd::prelude::*;
use crate::context::{
    BreakableDraw, BreakableDrawInput, BreakableMeasure, DrawCtx, DrawInput, DrawOutcome,
    FirstLocationUsage, FirstLocationUsageCtx, InsufficientFirstHeightCtx, MeasureCtx,
    MeasureInput, MeasureOutcome,
};
use crate::element::{usage_of_measured, usage_of_measurement, usage_query, Element};
use crate::geometry::{
    known_height, translate, ElementSize, Length, Location, WidthConstraint, LENGTH_MAX,
};
use crate::resolver::LocationResolver;

verus! {

/// Centres the wrapped element in the width it is offered, where the
/// constraint asks it to fill that width. Under a constraint that does not, the
/// element is handed on as it is.
pub struct HCenter<E>(pub E);

/// The frames `frames`, each moved by `x_offset` to the right.
pub open spec fn shifted_frames(frames: spec_fn(u32) -> Location, x_offset: Length) -> spec_fn(
    u32,
) -> Location {
    |frame_index: u32| frames(frame_index).translated(x_offset as int, 0)
}

/// A resolver that hands out the locations of another one, each moved by
/// `x_offset` to the right.
pub struct ShiftedResolver<R> {
    pub inner: R,
    pub x_offset: Length,
}

impl<S, R: LocationResolver<S>> LocationResolver<S> for ShiftedResolver<R> {
    open spec fn stays_in_range(&self) -> bool {
        &&& self.inner.stays_in_range()
        &&& forall|frame_index: u32|
            (#[trigger] (self.inner.frames())(frame_index)).can_move(self.x_offset as int, 0)
    }

    open spec fn frames(&self) -> spec_fn(u32) -> Location {
        shifted_frames(self.inner.frames(), self.x_offset)
    }

    open spec fn preparation(&self) -> spec_fn(S, u32) -> S {
        self.inner.preparation()
    }

    open spec fn requested(&self) -> Seq<u32> {
        self.inner.requested()
    }

    fn get_location(&mut self, surface: &mut S, frame_index: u32) -> (location: Location) {
        let mut location = self.inner.get_location(surface, frame_index);
        location.pos.0 = translate(location.pos.0, self.x_offset);
        location
    }
}

/// The size that the centring wrapper reports for a size of its content: the
/// width resolved against the wrapper's own constraint, the height as it is.
pub open spec fn reconstrained(width: WidthConstraint, size: Option<ElementSize>) -> Option<
    ElementSize,
> {
    match size {
        Some(s) => Some(ElementSize { width: width.constrain_spec(s.width), height: s.height }),
        None => None,
    }
}

/// The width by which content of measured size `natural` is centred. Content
/// that reports no size, or a size without a height, has none: it flows over
/// whatever it is given and is not centred.
pub open spec fn natural_width(natural: Option<ElementSize>) -> Option<Length> {
    match natural {
        Some(s) => if s.height is Some {
            Some(s.width)
        } else {
            None
        },
        None => None,
    }
}

/// The distance by which content of measured size `natural` is moved to the
/// right to stand centred in `max`, rounded down to a whole unit. Content
/// without a natural width is not moved.
pub open spec fn centering_offset(max: Length, natural: Option<ElementSize>) -> Length {
    match natural_width(natural) {
        Some(width) => ((max - width) / 2) as Length,
        None => 0,
    }
}

/// The width that the content is told to fill once it is centred: its natural
/// width, or all of `max` where it has none.
pub open spec fn centered_width(max: Length, natural: Option<ElementSize>) -> Length {
    match natural_width(natural) {
        Some(width) => width,
        None => max,
    }
}

/// The measurement by which a draw pass learns the natural size of the
/// content: the measure pass that goes with the draw pass, without the demand
/// to fill the width.
pub open spec fn natural_size_query<S>(ctx: DrawInput<S>) -> MeasureInput {
    MeasureInput {
        width: ctx.width.natural(),
        first_height: ctx.first_height,
        breakable: ctx.measurement().breakable,
    }
}

/// The draw pass that the content of a centring wrapper receives under an
/// expanding constraint, given the natural size `natural` of the content.
pub open spec fn centered_draw<S>(ctx: DrawInput<S>, natural: Option<ElementSize>) -> DrawInput<S> {
    let x_offset = centering_offset(ctx.width.max, natural);
    DrawInput {
        surface: ctx.surface,
        location: ctx.location.translated(x_offset as int, 0),
        width: WidthConstraint { max: centered_width(ctx.width.max, natural), expand: true },
        first_height: ctx.first_height,
        preferred_height: ctx.preferred_height,
        breakable: match ctx.breakable {
            Some(b) => Some(
                BreakableDrawInput {
                    full_height: b.full_height,
                    preferred_height_break_count: b.preferred_height_break_count,
                    frames: shifted_frames(b.frames, x_offset),
                    preparation: b.preparation,
                },
            ),
            None => None,
        },
    }
}

/// Half of `difference`, rounded down.
fn halve(difference: Length) -> (half: Length)
    ensures
        half == difference / 2,
{
    if difference >= 0 {
        difference / 2
    } else {
        -((-(difference + 1)) / 2) - 1
    }
}

impl<S, E: Element<S>> Element<S> for HCenter<E> {
    open spec fn first_location_usage_spec(&self, ctx: FirstLocationUsageCtx) -> FirstLocationUsage {
        let measured = self.measure_spec(usage_query(ctx));
        usage_of_measurement(measured.break_count, measured.size)
    }

    open spec fn insufficient_first_height_spec(&self, ctx: InsufficientFirstHeightCtx) -> bool {
        self.0.insufficient_first_height_spec(
            InsufficientFirstHeightCtx {
                width: ctx.width.natural(),
                first_height: ctx.first_height,
                full_height: ctx.full_height,
            },
        )
    }

    open spec fn measure_spec(&self, ctx: MeasureInput) -> MeasureOutcome {
        let inner = self.0.measure_spec(
            MeasureInput {
                width: ctx.width.natural(),
                first_height: ctx.first_height,
                breakable: ctx.breakable,
            },
        );
        MeasureOutcome {
            size: reconstrained(ctx.width, inner.size),
            break_count: inner.break_count,
            extra_location_min_height: inner.extra_location_min_height,
        }
    }

    open spec fn draw_stays_in_range(&self, ctx: DrawInput<S>) -> bool {
        if ctx.width.expand {
            let natural = self.0.measure_spec(natural_size_query(ctx)).size;
            let x_offset = centering_offset(ctx.width.max, natural);
            &&& ctx.location.can_move(x_offset as int, 0)
            &&& ctx.breakable matches Some(b) ==> forall|frame_index: u32|
                (#[trigger] (b.frames)(frame_index)).can_move(x_offset as int, 0)
            &&& self.0.draw_stays_in_range(centered_draw(ctx, natural))
        } else {
            self.0.draw_stays_in_range(ctx)
        }
    }

    open spec fn draw_spec(&self, ctx: DrawInput<S>) -> DrawOutcome<S> {
        let inner = if ctx.width.expand {
            self.0.draw_spec(
                centered_draw(ctx, self.0.measure_spec(natural_size_query(ctx)).size),
            )
        } else {
            self.0.draw_spec(ctx)
        };
        DrawOutcome {
            size: reconstrained(ctx.width, inner.size),
            requested: inner.requested,
            surface: inner.surface,
        }
    }

    fn first_location_usage(&self, ctx: FirstLocationUsageCtx) -> (usage: FirstLocationUsage) {
        let mut break_count: u32 = 0;
        let mut extra_location_min_height: Option<Length> = None;
        let size = Element::<S>::measure(
            self,
            MeasureCtx {
                width: ctx.width,
                first_height: ctx.first_height,
                breakable: Some(
                    BreakableMeasure {
                        full_height: ctx.full_height,
                        break_count: &mut break_count,
                        extra_location_min_height: &mut extra_location_min_height,
                    },
                ),
            },
        );
        usage_of_measured(break_count, size)
    }

    fn insufficient_first_height(&self, ctx: InsufficientFirstHeightCtx) -> (insufficient: bool) {
        self.0.insufficient_first_height(
            InsufficientFirstHeightCtx {
                width: WidthConstraint { max: ctx.width.max, expand: false },
                first_height: ctx.first_height,
                full_height: ctx.full_height,
            },
        )
    }

    fn measure(&self, ctx: MeasureCtx<'_>) -> (size: Option<ElementSize>) {
        let width = ctx.width;
        let size = self.0.measure(
            MeasureCtx {
                width: WidthConstraint { max: width.max, expand: false },
                first_height: ctx.first_height,
                breakable: ctx.breakable,
            },
        );
        match size {
            Some(size) => Some(
                ElementSize { width: width.constrain(size.width), height: size.height },
            ),
            None => None,
        }
    }

    fn draw<R: LocationResolver<S>>(&self, ctx: DrawCtx<'_, S, R>) -> (drawn: (
        Option<ElementSize>,
        Option<R>,
    )) {
        let width = ctx.width;
        let (size, resolver) = if width.expand {
            let mut break_count: u32 = 0;
            let mut extra_location_min_height: Option<Length> = None;
            let element_size = self.0.measure(
                MeasureCtx {
                    width: WidthConstraint { max: width.max, expand: false },
                    first_height: ctx.first_height,
                    breakable: match &ctx.breakable {
                        Some(b) => Some(
                            BreakableMeasure {
                                full_height: b.full_height,
                                break_count: &mut break_count,
                                extra_location_min_height: &mut extra_location_min_height,
                            },
                        ),
                        None => None,
                    },
                },
            );
            let x_offset: Length;
            let element_width: Length;
            match element_size {
                Some(ElementSize { width: natural_width, height: Some(_) }) => {
                    x_offset = halve(width.max - natural_width);
                    element_width = natural_width;
                },
                _ => {
                    x_offset = 0;
                    element_width = width.max;
                },
            }
            let mut location = ctx.location;
            location.pos.0 = translate(location.pos.0, x_offset);
            let width_constraint = WidthConstraint { max: element_width, expand: true };
            match ctx.breakable {
                Some(breakable) => {
                    let (size, shifted) = self.0.draw(
                        DrawCtx {
                            surface: ctx.surface,
                            location,
                            width: width_constraint,
                            first_height: ctx.first_height,
                            preferred_height: ctx.preferred_height,
                            breakable: Some(
                                BreakableDraw {
                                    full_height: breakable.full_height,
                                    preferred_height_break_count:
                                        breakable.preferred_height_break_count,
                                    get_location: ShiftedResolver {
                                        inner: breakable.get_location,
                                        x_offset,
                                    },
                                },
                            ),
                        },
                    );
                    match shifted {
                        Some(shifted) => (size, Some(shifted.inner)),
                        None => (size, None),
                    }
                },
                None => self.0.draw(
                    DrawCtx::<S, R> {
                        surface: ctx.surface,
                        location,
                        width: width_constraint,
                        first_height: ctx.first_height,
                        preferred_height: ctx.preferred_height,
                        breakable: None,
                    },
                ),
            }
        } else {
            self.0.draw(ctx)
        };
        match size {
            Some(size) => (
                Some(ElementSize { width: width.constrain(size.width), height: size.height }),
                resolver,
            ),
            None => (None, resolver),
        }
    }
}

/// Centred content has the same room on both sides, up to the one unit that
/// cannot be halved, which goes to the right.
pub proof fn lemma_centering_is_symmetric(max: Length, natural: ElementSize)
    requires
        0 <= max <= LENGTH_MAX,
        natural.wf(),
        natural.height is Some,
    ensures
        ({
            let left = centering_offset(max, Some(natural));
            let right = max - natural.width - left;
            &&& left == (max - natural.width) / 2
            &&& left <= right <= left + 1
            &&& centered_width(max, Some(natural)) == natural.width
        }),
{
}

/// Under an expanding constraint the content is told to fill its natural
/// width, and everything it is drawn into is moved to the right by exactly the
/// same centring offset: the place where the pass starts and each further
/// frame alike. Nothing else of the pass changes.
pub proof fn lemma_every_frame_is_moved_alike<S>(
    ctx: DrawInput<S>,
    natural: Option<ElementSize>,
    frame_index: u32,
)
    requires
        ctx.location.can_move(centering_offset(ctx.width.max, natural) as int, 0),
        ctx.breakable matches Some(b) ==> (b.frames)(frame_index).can_move(
            centering_offset(ctx.width.max, natural) as int,
            0,
        ),
    ensures
        ({
            let content = centered_draw(ctx, natural);
            let x_offset = centering_offset(ctx.width.max, natural);
            &&& content.location.layer == ctx.location.layer
            &&& content.location.pos.0 == ctx.location.pos.0 + x_offset
            &&& content.location.pos.1 == ctx.location.pos.1
            &&& content.width == WidthConstraint {
                max: centered_width(ctx.width.max, natural),
                expand: true,
            }
            &&& content.surface == ctx.surface
            &&& content.first_height == ctx.first_height
            &&& content.preferred_height == ctx.preferred_height
            &&& match ctx.breakable {
                Some(b) => (content.breakable matches Some(c) && {
                    let frame = (b.frames)(frame_index);
                    let moved = (c.frames)(frame_index);
                    &&& moved.layer == frame.layer
                    &&& moved.pos.0 == frame.pos.0 + x_offset
                    &&& moved.pos.1 == frame.pos.1
                    &&& c.preparation == b.preparation
                    &&& c.full_height == b.full_height
                    &&& c.preferred_height_break_count == b.preferred_height_break_count
                }),
                None => content.breakable is None,
            }
        }),
{
}

/// Content that reports no size, or a size without a height, is not centred:
/// it is drawn where the pass starts, in frames that are where they were, and
/// told to fill the whole width.
pub proof fn lemma_content_without_height_is_not_moved<S>(
    ctx: DrawInput<S>,
    natural: Option<ElementSize>,
    frame_index: u32,
)
    requires
        known_height(natural) is None,
    ensures
        ({
            let content = centered_draw(ctx, natural);
            &&& centering_offset(ctx.width.max, natural) == 0
            &&& content.location == ctx.location
            &&& content.width == WidthConstraint { max: ctx.width.max, expand: true }
            &&& ctx.breakable matches Some(b) ==> (content.breakable matches Some(c) && (
            c.frames)(frame_index) == (b.frames)(frame_index))
        }),
{
}

impl<E> HCenter<E> {
    /// Under a constraint that does not expand, the content is drawn with the
    /// very pass the wrapper was handed, and only the reported width is
    /// resolved against the constraint.
    pub proof fn lemma_without_expand_the_pass_is_handed_on<S>(&self, ctx: DrawInput<S>) where
        E: Element<S>,

        requires
            !ctx.width.expand,
        ensures
            self.draw_spec(ctx).size == reconstrained(ctx.width, self.0.draw_spec(ctx).size),
            self.draw_spec(ctx).requested == self.0.draw_spec(ctx).requested,
            self.draw_spec(ctx).surface == self.0.draw_spec(ctx).surface,
    {
    }

    /// Under an expanding constraint, the content is drawn once, with the
    /// centred pass that its natural size calls for, and only the reported
    /// width is resolved against the constraint. The frames asked for are
    /// those that the content asks for.
    pub proof fn lemma_with_expand_the_content_is_drawn_centred<S>(&self, ctx: DrawInput<S>) where
        E: Element<S>,

        requires
            ctx.width.expand,
        ensures
            ({
                let natural = self.0.measure_spec(natural_size_query(ctx)).size;
                let content = self.0.draw_spec(centered_draw(ctx, natural));
                &&& self.draw_spec(ctx).size == reconstrained(ctx.width, content.size)
                &&& self.draw_spec(ctx).requested == content.requested
                &&& self.draw_spec(ctx).surface == content.surface
            }),
    {
    }

    /// Drawing reports the size that measuring reports, provided the same
    /// holds of the content for the pass it is handed, and the content has the
    /// same height, or none, whether it is measured under the offered width or
    /// told to fill its natural width.
    pub proof fn lemma_draw_reports_the_measured_size<S>(&self, ctx: DrawInput<S>) where
        E: Element<S>,

        requires
            ({
                let natural = self.0.measure_spec(natural_size_query(ctx));
                let handed = if ctx.width.expand {
                    centered_draw(ctx, natural.size)
                } else {
                    ctx
                };
                let remeasured = self.0.measure_spec(handed.measurement()).size;
                &&& self.0.draw_spec(handed).size == remeasured
                &&& remeasured is Some == natural.size is Some
                &&& known_height(remeasured) == known_height(natural.size)
            }),
        ensures
            self.draw_spec(ctx).size == self.measure_spec(ctx.measurement()).size,
    {
    }

    /// Drawing asks for as many frames as measuring counts breaks, provided
    /// the same holds of the content for the pass it is handed, and the
    /// content counts the same breaks whether it is measured under the offered
    /// width or told to fill its natural width.
    pub proof fn lemma_draw_asks_for_the_measured_frames<S>(&self, ctx: DrawInput<S>) where
        E: Element<S>,

        requires
            ({
                let natural = self.0.measure_spec(natural_size_query(ctx));
                let handed = if ctx.width.expand {
                    centered_draw(ctx, natural.size)
                } else {
                    ctx
                };
                let remeasured = self.0.measure_spec(handed.measurement());
                &&& self.0.draw_spec(handed).requested.len() == remeasured.break_count
                &&& remeasured.break_count == natural.break_count
            }),
        ensures
            self.draw_spec(ctx).requested.len() == self.measure_spec(
                ctx.measurement(),
            ).break_count,
    {
    }
}

} // verus!
