//! Runs an element on a surface that only counts its pages, and holds what
//! came of it.

use vstd::prelude::*;
use vstd::pervasive::runtime_assert;
use crate::context::{BreakableDraw, BreakableDrawInput, DrawCtx, DrawInput};
use crate::element::Element;
use crate::geometry::{
    length_in_range, ElementSize, LayerHandle, Length, Location, WidthConstraint, LENGTH_MAX,
};
use crate::resolver::LocationResolver;

verus! {

/// Distance of the drawing area from the left edge of a page.
pub const MARGIN_LEFT: Length = 2_500;

/// Distance of the drawing area from the bottom edge of a page.
pub const MARGIN_BOTTOM: Length = 10_000;

/// A surface that consists of a number of pages and nothing else. It starts
/// out with one page.
#[derive(Clone, Copy, Debug, PartialEq, Eq, Structural)]
pub struct Pages {
    pub count: u64,
}

impl Pages {
    /// This surface with pages added until frame `frame_index` has a page
    /// of its own. Frame 0 stands on the second page.
    pub open spec fn covering(self, frame_index: u32) -> Pages {
        if self.count <= frame_index + 1 {
            Pages { count: (frame_index + 2) as u64 }
        } else {
            self
        }
    }
}

/// The location of each frame after the first: frame `i` is layer 0 of page
/// `i + 1`, and the drawing area starts at `pos` on every page.
pub open spec fn page_frames(pos: (Length, Length)) -> spec_fn(u32) -> Location {
    |frame_index: u32|
        Location { layer: LayerHandle { page: (frame_index + 1) as u64, layer: 0 }, pos }
}

/// What asking for a frame does to the pages: there are enough of them
/// afterwards.
pub open spec fn page_preparation() -> spec_fn(Pages, u32) -> Pages {
    |pages: Pages, frame_index: u32| pages.covering(frame_index)
}

/// A resolver that notes every frame it is asked for and makes sure that the
/// surface has a page for it.
pub struct BreakRecorder {
    pub breaks: Vec<u32>,
    pub pos: (Length, Length),
}

impl LocationResolver<Pages> for BreakRecorder {
    open spec fn stays_in_range(&self) -> bool {
        &&& length_in_range(self.pos.0 as int)
        &&& length_in_range(self.pos.1 as int)
    }

    open spec fn frames(&self) -> spec_fn(u32) -> Location {
        page_frames(self.pos)
    }

    open spec fn preparation(&self) -> spec_fn(Pages, u32) -> Pages {
        page_preparation()
    }

    open spec fn requested(&self) -> Seq<u32> {
        self.breaks@
    }

    fn get_location(&mut self, surface: &mut Pages, frame_index: u32) -> (location: Location) {
        let ghost before = *surface;
        self.breaks.push(frame_index);
        let page: u64 = frame_index as u64 + 1;
        while surface.count <= page
            invariant
                page == frame_index + 1,
                before.count <= page ==> before.count <= surface.count <= page + 1,
                before.count > page ==> *surface == before,
            decreases page + 1 - surface.count,
        {
            surface.count = surface.count + 1;
        }
        Location { layer: LayerHandle { page, layer: 0 }, pos: (self.pos.0, self.pos.1) }
    }
}

/// What came of drawing an element: the number of pages of the surface
/// afterwards, the frames the element asked for, and the size it reported.
pub struct ElementStats {
    pages: u64,
    breaks: Vec<u32>,
    size: Option<ElementSize>,
}

/// The values of an [`ElementStats`].
pub struct ElementStatsView {
    pub pages: u64,
    pub breaks: Seq<u32>,
    pub size: Option<ElementSize>,
}

/// Frames asked for one after the other, counted from 1.
pub open spec fn is_linear(breaks: Seq<u32>) -> bool {
    forall|i: int| 0 <= i < breaks.len() ==> #[trigger] breaks[i] == i + 1
}

impl View for ElementStats {
    type V = ElementStatsView;

    closed spec fn view(&self) -> ElementStatsView {
        ElementStatsView { pages: self.pages, breaks: self.breaks@, size: self.size }
    }
}

impl ElementStats {
    /// Passes where the surface has `pages` pages. A caller outside the
    /// verifier's sight that breaks this is stopped when the call runs.
    pub fn assert_pages(&self, pages: u32) -> (stats: &Self)
        requires
            self@.pages == pages,
        ensures
            stats == self,
    {
        runtime_assert(self.pages == pages as u64);
        self
    }

    /// Passes where the frames asked for are 1, 2, 3 and so on.
    pub fn assert_linear(&self) -> (stats: &Self)
        requires
            is_linear(self@.breaks),
        ensures
            stats == self,
    {
        let mut expected: Vec<u32> = Vec::new();
        let mut i: usize = 0;
        while i < self.breaks.len()
            invariant
                i <= self.breaks.len(),
                is_linear(self.breaks@),
                expected@ == self.breaks@.take(i as int),
            decreases self.breaks.len() - i,
        {
            assert(self.breaks@[i as int] == i + 1);
            expected.push((i + 1) as u32);
            i = i + 1;
            assert(expected@ =~= self.breaks@.take(i as int));
        }
        assert(self.breaks@.take(i as int) =~= self.breaks@);
        self.assert_breaks(expected)
    }

    /// Passes where the frames asked for are `breaks`, in that order.
    pub fn assert_breaks(&self, breaks: Vec<u32>) -> (stats: &Self)
        requires
            self@.breaks == breaks@,
        ensures
            stats == self,
    {
        runtime_assert(breaks.len() == self.breaks.len());
        let mut i: usize = 0;
        while i < breaks.len()
            invariant
                breaks@ == self.breaks@,
                i <= breaks.len(),
            decreases breaks.len() - i,
        {
            runtime_assert(breaks[i] == self.breaks[i]);
            i = i + 1;
        }
        self
    }

    /// Passes where the element reported the size `size`.
    pub fn assert_size(&self, size: Option<ElementSize>) -> (stats: &Self)
        requires
            self@.size == size,
        ensures
            stats == self,
    {
        runtime_assert(self.size == size);
        self
    }
}

/// The draw pass that [`run_element`] hands to the element: breakable, with
/// the whole of `width`, starting at the top of a frame of height `height`,
/// with every later frame of the same height and on a page of its own.
pub open spec fn run_input(width: Length, height: Length) -> DrawInput<Pages> {
    let pos = (MARGIN_LEFT, (height + MARGIN_BOTTOM) as Length);
    DrawInput {
        surface: Pages { count: 1 },
        location: Location { layer: LayerHandle { page: 0, layer: 0 }, pos },
        width: WidthConstraint { max: width, expand: true },
        first_height: height,
        preferred_height: None,
        breakable: Some(
            BreakableDrawInput {
                full_height: height,
                preferred_height_break_count: 0,
                frames: page_frames(pos),
                preparation: page_preparation(),
            },
        ),
    }
}

/// Draws `element` with frames of `width` by `height` on a fresh surface of
/// one page, and reports the pages the surface has afterwards, the frames the
/// element asked for, and the size it took.
pub fn run_element<E: Element<Pages>>(width: Length, height: Length, element: E) -> (stats:
    ElementStats)
    requires
        0 <= width <= LENGTH_MAX,
        -LENGTH_MAX <= height <= LENGTH_MAX - MARGIN_BOTTOM,
        element.draw_stays_in_range(run_input(width, height)),
    ensures
        stats@.size == element.draw_spec(run_input(width, height)).size,
        stats@.breaks == element.draw_spec(run_input(width, height)).requested,
        stats@.pages == element.draw_spec(run_input(width, height)).surface.count,
{
    let mut pages = Pages { count: 1 };
    let recorder = BreakRecorder { breaks: Vec::new(), pos: (MARGIN_LEFT, height + MARGIN_BOTTOM) };
    let ctx = DrawCtx {
        surface: &mut pages,
        location: Location {
            layer: LayerHandle { page: 0, layer: 0 },
            pos: (MARGIN_LEFT, height + MARGIN_BOTTOM),
        },
        width: WidthConstraint { max: width, expand: true },
        first_height: height,
        preferred_height: None,
        breakable: Some(
            BreakableDraw {
                full_height: height,
                preferred_height_break_count: 0,
                get_location: recorder,
            },
        ),
    };
    assert(ctx@ == run_input(width, height));
    let (size, recorder) = element.draw(ctx);
    let breaks = match recorder {
        Some(recorder) => recorder.breaks,
        None => Vec::new(),
    };
    ElementStats { pages: pages.count, breaks, size }
}

} // verus!
