//! Alignment to the bottom of a frame.

use vstd::prelude::*;
use crate::context::{
    DrawCtx, DrawInput, DrawOutcome, FirstLocationUsage, FirstLocationUsageCtx,
    InsufficientFirstHeightCtx, MeasureCtx, MeasureInput, MeasureOutcome,
};
use crate::element::Element;
use crate::geometry::{
    known_height, length_in_range, offset_in_range, translate, ElementSize, Length, Location,
    WidthConstraint,
};
use crate::resolver::LocationResolver;

verus! {

/// Places the wrapped element flush against the bottom of the frame it ends up
/// in: the frame the pass starts in where the element fits there, else a fresh
/// one. The element is never split; it is measured and drawn as one piece.
pub struct AlignLocationBottom<'a, E>(pub &'a E);

/// Where the content of an [`AlignLocationBottom`] goes.
#[derive(Clone, Copy, Debug, PartialEq, Eq, Structural)]
pub struct Layout {
    /// Number of frames passed over before the one the content is drawn in.
    pub breaks: u32,
    /// Distance by which the content is moved down from the top of its frame.
    pub y_offset: Length,
    /// Size of the content by itself.
    pub size: Option<ElementSize>,
}

/// The height that the content is offered: that of a whole fresh frame where
/// the pass is breakable, else what is left on the frame the pass starts in.
pub open spec fn height_available(first_height: Length, full_height: Option<Length>) -> Length {
    match full_height {
        Some(full) => full,
        None => first_height,
    }
}

/// The measurement by which the content of an [`AlignLocationBottom`] is
/// sized: unbreakable, with the height available.
pub open spec fn content_query(
    width: WidthConstraint,
    first_height: Length,
    full_height: Option<Length>,
) -> MeasureInput {
    MeasureInput {
        width,
        first_height: height_available(first_height, full_height),
        breakable: None,
    }
}

/// The number of frames passed over. Only content of known height in a
/// breakable pass can break at all. A count the caller has settled on is kept
/// as it is; without one, content that is higher than the first frame moves to
/// the next frame as a whole.
pub open spec fn break_count_for(
    height: Option<Length>,
    first_height: Length,
    full_height: Option<Length>,
    preferred_breaks: u32,
) -> u32 {
    match (height, full_height) {
        (Some(h), Some(_)) => if preferred_breaks == 0 && h > first_height {
            1
        } else {
            preferred_breaks
        },
        _ => 0,
    }
}

/// The height of the frame that the content is drawn in.
pub open spec fn frame_height(breaks: u32, first_height: Length, full_height: Option<Length>)
    -> Length {
    match full_height {
        Some(full) => if breaks > 0 {
            full
        } else {
            first_height
        },
        None => first_height,
    }
}

/// The layout of content of size `size`.
pub open spec fn layout_of(
    size: Option<ElementSize>,
    first_height: Length,
    full_height: Option<Length>,
    preferred_breaks: u32,
) -> Layout {
    let breaks = break_count_for(known_height(size), first_height, full_height, preferred_breaks);
    Layout {
        breaks,
        y_offset: match known_height(size) {
            Some(h) => (frame_height(breaks, first_height, full_height) - h) as Length,
            None => 0,
        },
        size,
    }
}

/// The size that the wrapper reports: the width of the content, and as height
/// that of the whole frame it stands in, since it reaches from the top of the
/// frame to its bottom. Content without a known height has none here either.
pub open spec fn reported_size(layout: Layout, first_height: Length, full_height: Option<Length>)
    -> Option<ElementSize> {
    match layout.size {
        Some(s) => Some(
            ElementSize {
                width: s.width,
                height: if layout.breaks > 0 {
                    full_height
                } else {
                    match s.height {
                        Some(_) => Some(first_height),
                        None => None,
                    }
                },
            },
        ),
        None => None,
    }
}

/// The break count that a draw pass has been handed by its caller; 0 where the
/// pass is not breakable.
pub open spec fn preferred_breaks<S>(ctx: DrawInput<S>) -> u32 {
    match ctx.breakable {
        Some(b) => b.preferred_height_break_count,
        None => 0,
    }
}

/// Where the frame starts that the content is drawn in: the last frame passed
/// over where there is a break, else the place where the pass starts.
pub open spec fn frame_start<S>(ctx: DrawInput<S>, layout: Layout) -> Location {
    match ctx.breakable {
        Some(b) if layout.breaks > 0 => (b.frames)((layout.breaks - 1) as u32),
        _ => ctx.location,
    }
}

/// The draw pass that the content of an [`AlignLocationBottom`] receives: not
/// breakable, at the start of its frame moved down by the offset of the
/// layout, with the height available. Where the content moves to a later
/// frame, that frame has been asked for before.
pub open spec fn aligned_draw<S>(ctx: DrawInput<S>, layout: Layout) -> DrawInput<S> {
    DrawInput {
        surface: match ctx.breakable {
            Some(b) if layout.breaks > 0 => (b.preparation)(
                ctx.surface,
                (layout.breaks - 1) as u32,
            ),
            _ => ctx.surface,
        },
        location: frame_start(ctx, layout).translated(0, -layout.y_offset),
        width: ctx.width,
        first_height: height_available(ctx.first_height, ctx.full_height()),
        preferred_height: None,
        breakable: None,
    }
}

/// The frames that a draw pass with layout `layout` asks for: the one the
/// content moves to, if it moves.
pub open spec fn frames_asked(layout: Layout) -> Seq<u32> {
    if layout.breaks > 0 {
        seq![(layout.breaks - 1) as u32]
    } else {
        Seq::empty()
    }
}

impl<'a, E> AlignLocationBottom<'a, E> {
    /// The layout of the content under the given constraints.
    pub open spec fn layout_spec<S>(
        &self,
        width: WidthConstraint,
        first_height: Length,
        full_height: Option<Length>,
        preferred_breaks: u32,
    ) -> Layout where E: Element<S> {
        layout_of(
            self.0.measure_spec(content_query(width, first_height, full_height)).size,
            first_height,
            full_height,
            preferred_breaks,
        )
    }

    /// Measures the content and decides which frame it goes to and how far
    /// down in it. `full_height` is the height of a fresh frame in a breakable
    /// pass, `preferred_breaks` a break count the caller has settled on, or 0.
    pub fn layout<S>(
        &self,
        width: WidthConstraint,
        first_height: Length,
        full_height: Option<Length>,
        preferred_breaks: u32,
    ) -> (layout: Layout) where E: Element<S>
        requires
            width.wf(),
            length_in_range(first_height as int),
            full_height matches Some(full) ==> length_in_range(full as int),
        ensures
            layout == self.layout_spec::<S>(width, first_height, full_height, preferred_breaks),
            layout.size matches Some(s) ==> s.wf(),
            offset_in_range(layout.y_offset as int),
    {
        let height_available = match full_height {
            Some(full) => full,
            None => first_height,
        };
        let size = self.0.measure(
            MeasureCtx { width, first_height: height_available, breakable: None },
        );
        let height = match size {
            Some(s) => s.height,
            None => None,
        };
        let breaks: u32;
        let location_height: Length;
        match (height, full_height) {
            (Some(height), Some(full_height)) => {
                breaks = if preferred_breaks == 0 && height > first_height {
                    1
                } else {
                    preferred_breaks
                };
                location_height = if breaks > 0 {
                    full_height
                } else {
                    first_height
                };
            },
            _ => {
                breaks = 0;
                location_height = first_height;
            },
        }
        let y_offset = match height {
            Some(height) => location_height - height,
            None => 0,
        };
        Layout { breaks, y_offset, size }
    }
}

/// The size reported for a layout, as [`reported_size`] states it.
fn size_reported(layout: &Layout, first_height: Length, full_height: Option<Length>) -> (size:
    Option<ElementSize>)
    ensures
        size == reported_size(*layout, first_height, full_height),
{
    match layout.size {
        Some(s) => {
            let height = if layout.breaks > 0 {
                full_height
            } else {
                match s.height {
                    Some(_) => Some(first_height),
                    None => None,
                }
            };
            Some(ElementSize { width: s.width, height })
        },
        None => None,
    }
}

impl<'a, S, E: Element<S>> Element<S> for AlignLocationBottom<'a, E> {
    open spec fn first_location_usage_spec(&self, ctx: FirstLocationUsageCtx) -> FirstLocationUsage {
        let layout = self.layout_spec::<S>(ctx.width, ctx.first_height, Some(ctx.full_height), 0);
        if layout.breaks > 0 {
            FirstLocationUsage::WillSkip
        } else if known_height(layout.size) is Some {
            FirstLocationUsage::WillUse
        } else {
            FirstLocationUsage::NoneHeight
        }
    }

    open spec fn insufficient_first_height_spec(&self, ctx: InsufficientFirstHeightCtx) -> bool {
        self.layout_spec::<S>(ctx.width, ctx.first_height, Some(ctx.full_height), 0).breaks > 0
    }

    open spec fn measure_spec(&self, ctx: MeasureInput) -> MeasureOutcome {
        let layout = self.layout_spec::<S>(ctx.width, ctx.first_height, ctx.full_height(), 0);
        MeasureOutcome {
            size: reported_size(layout, ctx.first_height, ctx.full_height()),
            break_count: layout.breaks,
            extra_location_min_height: ctx.full_height(),
        }
    }

    open spec fn draw_stays_in_range(&self, ctx: DrawInput<S>) -> bool {
        let layout = self.layout_spec::<S>(
            ctx.width,
            ctx.first_height,
            ctx.full_height(),
            preferred_breaks(ctx),
        );
        &&& frame_start(ctx, layout).can_move(0, -layout.y_offset)
        &&& self.0.draw_stays_in_range(aligned_draw(ctx, layout))
    }

    open spec fn draw_spec(&self, ctx: DrawInput<S>) -> DrawOutcome<S> {
        let layout = self.layout_spec::<S>(
            ctx.width,
            ctx.first_height,
            ctx.full_height(),
            preferred_breaks(ctx),
        );
        DrawOutcome {
            size: reported_size(layout, ctx.first_height, ctx.full_height()),
            requested: frames_asked(layout),
            surface: self.0.draw_spec(aligned_draw(ctx, layout)).surface,
        }
    }

    fn first_location_usage(&self, ctx: FirstLocationUsageCtx) -> (usage: FirstLocationUsage) {
        let layout = self.layout::<S>(ctx.width, ctx.first_height, Some(ctx.full_height), 0);
        if layout.breaks > 0 {
            FirstLocationUsage::WillSkip
        } else {
            match layout.size {
                Some(ElementSize { width: _, height: Some(_) }) => FirstLocationUsage::WillUse,
                _ => FirstLocationUsage::NoneHeight,
            }
        }
    }

    fn insufficient_first_height(&self, ctx: InsufficientFirstHeightCtx) -> (insufficient: bool) {
        let layout = self.layout::<S>(ctx.width, ctx.first_height, Some(ctx.full_height), 0);
        layout.breaks > 0
    }

    fn measure(&self, ctx: MeasureCtx<'_>) -> (size: Option<ElementSize>)
        ensures
            ctx.breakable matches Some(b) ==> *final(b.extra_location_min_height) == Some(
                b.full_height,
            ),
    {
        let full_height = match &ctx.breakable {
            Some(b) => Some(b.full_height),
            None => None,
        };
        let layout = self.layout::<S>(ctx.width, ctx.first_height, full_height, 0);
        match ctx.breakable {
            Some(breakable) => {
                *breakable.break_count = layout.breaks;
                *breakable.extra_location_min_height = Some(breakable.full_height);
            },
            None => {},
        }
        size_reported(&layout, ctx.first_height, full_height)
    }

    fn draw<R: LocationResolver<S>>(&self, ctx: DrawCtx<'_, S, R>) -> (drawn: (
        Option<ElementSize>,
        Option<R>,
    )) {
        let (full_height, preferred_breaks) = match &ctx.breakable {
            Some(b) => (Some(b.full_height), b.preferred_height_break_count),
            None => (None, 0),
        };
        let layout = self.layout::<S>(ctx.width, ctx.first_height, full_height, preferred_breaks);
        let surface = ctx.surface;
        let mut location = ctx.location;
        let height_available = match full_height {
            Some(full_height) => full_height,
            None => ctx.first_height,
        };
        let resolver = match ctx.breakable {
            Some(breakable) => {
                let mut get_location = breakable.get_location;
                if layout.breaks > 0 {
                    location = get_location.get_location(surface, layout.breaks - 1);
                }
                Some(get_location)
            },
            None => None,
        };
        location.pos.1 = translate(location.pos.1, -layout.y_offset);
        self.0.draw(
            DrawCtx::<S, R> {
                surface,
                location,
                width: ctx.width,
                first_height: height_available,
                preferred_height: None,
                breakable: None,
            },
        );
        (size_reported(&layout, ctx.first_height, full_height), resolver)
    }
}

/// Content of known height stands on the bottom of its frame: it is moved
/// down from the top of the frame by what the frame is higher than the
/// content. Without a break the frame is the one the pass starts in, after a
/// break it is a fresh one.
pub proof fn lemma_offset_is_what_the_frame_is_higher(
    size: ElementSize,
    first_height: Length,
    full_height: Option<Length>,
    preferred_breaks: u32,
)
    requires
        size.wf(),
        size.height is Some,
        length_in_range(first_height as int),
        full_height matches Some(full) ==> length_in_range(full as int),
    ensures
        ({
            let layout = layout_of(Some(size), first_height, full_height, preferred_breaks);
            &&& layout.y_offset == frame_height(layout.breaks, first_height, full_height)
                - size.height->0
            &&& layout.breaks == 0 ==> layout.y_offset == first_height - size.height->0
            &&& layout.breaks > 0 ==> (full_height matches Some(full) && layout.y_offset == full
                - size.height->0)
        }),
{
}

/// Where the caller has settled on no break count, content that is higher
/// than the first frame takes exactly one break, and content that is not takes
/// none.
pub proof fn lemma_break_is_forced_by_height(
    size: ElementSize,
    first_height: Length,
    full_height: Length,
)
    requires
        size.height is Some,
    ensures
        layout_of(Some(size), first_height, Some(full_height), 0).breaks == (if size.height->0
            > first_height {
            1u32
        } else {
            0u32
        }),
{
}

/// A break count that the caller has settled on is kept as it is, whatever the
/// heights are.
pub proof fn lemma_preferred_breaks_are_kept(
    size: ElementSize,
    first_height: Length,
    full_height: Length,
    preferred_breaks: u32,
)
    requires
        size.height is Some,
        preferred_breaks != 0,
    ensures
        layout_of(Some(size), first_height, Some(full_height), preferred_breaks).breaks
            == preferred_breaks,
{
}

/// Content without a known height, and any content in a pass that is not
/// breakable, takes no break and is not moved at all in the first case.
pub proof fn lemma_no_break_without_height_or_frames(
    size: Option<ElementSize>,
    first_height: Length,
    full_height: Option<Length>,
    preferred_breaks: u32,
)
    requires
        known_height(size) is None || full_height is None,
    ensures
        layout_of(size, first_height, full_height, preferred_breaks).breaks == 0,
        known_height(size) is None ==> layout_of(
            size,
            first_height,
            full_height,
            preferred_breaks,
        ).y_offset == 0,
{
}

/// The content is drawn in the frame the layout names, at the place where that
/// frame starts moved down by exactly the offset of the layout and not moved
/// sideways, with the height available, and as a pass that cannot break.
pub proof fn lemma_content_is_drawn_moved_down<S>(ctx: DrawInput<S>, layout: Layout)
    requires
        frame_start(ctx, layout).can_move(0, -layout.y_offset),
    ensures
        ({
            let content = aligned_draw(ctx, layout);
            let start = frame_start(ctx, layout);
            &&& content.location.layer == start.layer
            &&& content.location.pos.0 == start.pos.0
            &&& content.location.pos.1 == start.pos.1 - layout.y_offset
            &&& content.location.wf()
            &&& content.width == ctx.width
            &&& content.first_height == height_available(ctx.first_height, ctx.full_height())
            &&& content.breakable is None
            &&& content.preferred_height is None
        }),
{
}

impl<'a, E> AlignLocationBottom<'a, E> {
    /// The content is drawn once, with its top as far below the start of its
    /// frame as the frame is higher than the content, so that it ends on the
    /// bottom of the frame. Without a break the frame is the one the pass
    /// starts in; after a break it is the last frame passed over, which is the
    /// only one asked for. In a breakable pass the content is offered the
    /// height of a whole frame either way.
    pub proof fn lemma_content_stands_on_the_bottom<S>(&self, ctx: DrawInput<S>) where
        E: Element<S>,

        requires
            ctx.wf(),
            self.0.measure_spec(
                content_query(ctx.width, ctx.first_height, ctx.full_height()),
            ).size matches Some(s) && s.wf() && s.height is Some,
        ensures
            ({
                let layout = self.layout_spec::<S>(
                    ctx.width,
                    ctx.first_height,
                    ctx.full_height(),
                    preferred_breaks(ctx),
                );
                let content = aligned_draw(ctx, layout);
                let height = known_height(layout.size)->0;
                &&& self.draw_spec(ctx).surface == self.0.draw_spec(content).surface
                &&& content.first_height == height_available(ctx.first_height, ctx.full_height())
                &&& layout.breaks == 0 ==> {
                    &&& content.location.pos.0 == ctx.location.pos.0
                    &&& content.location.pos.1 == ctx.location.pos.1 - (ctx.first_height
                        - height)
                    &&& content.surface == ctx.surface
                    &&& self.draw_spec(ctx).requested == Seq::<u32>::empty()
                }
                &&& layout.breaks > 0 ==> (ctx.breakable matches Some(b) && {
                    let frame = (layout.breaks - 1) as u32;
                    &&& content.location.pos.0 == (b.frames)(frame).pos.0
                    &&& content.location.pos.1 == (b.frames)(frame).pos.1 - (b.full_height
                        - height)
                    &&& content.surface == (b.preparation)(ctx.surface, frame)
                    &&& self.draw_spec(ctx).requested == seq![frame]
                })
            }),
    {
    }

    /// Drawing reports the size that measuring reports, where the break count
    /// that the draw pass was handed is none or the one that measuring
    /// reports. Where it was handed none, it also asks for as many frames as
    /// measuring counts breaks.
    pub proof fn lemma_draw_reports_the_measured_size<S>(&self, ctx: DrawInput<S>) where
        E: Element<S>,

        requires
            preferred_breaks(ctx) == 0 || (ctx.breakable is Some && preferred_breaks(ctx)
                == self.measure_spec(ctx.measurement()).break_count),
        ensures
            self.draw_spec(ctx).size == self.measure_spec(ctx.measurement()).size,
            preferred_breaks(ctx) == 0 ==> self.draw_spec(ctx).requested.len()
                == self.measure_spec(ctx.measurement()).break_count,
    {
    }

    /// In a breakable pass, measuring reports the height of a fresh frame as
    /// the least height of the last frame touched, whatever the content is,
    /// and the break count of the layout, whatever the counter held before.
    pub proof fn lemma_measure_reports_full_height<S>(&self, ctx: MeasureInput) where
        E: Element<S>,

        requires
            ctx.breakable is Some,
        ensures
            Element::<S>::measure_spec(self, ctx).extra_location_min_height == Some(
                ctx.breakable->0.full_height,
            ),
            Element::<S>::measure_spec(self, ctx).break_count == self.layout_spec::<S>(
                ctx.width,
                ctx.first_height,
                ctx.full_height(),
                0,
            ).breaks,
    {
    }
}

} // verus!
