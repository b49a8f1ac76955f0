//! What an element is handed in each pass of the layout protocol.
//!
//! The executable contexts mirror what a caller builds. Each has a plain-value
//! reading (`MeasureInput`, `DrawInput`) that the contracts speak of.

use vstd::prelude::*;
use crate::geometry::{length_in_range, ElementSize, Length, Location, WidthConstraint};
use crate::resolver::LocationResolver;

verus! {

/// How an element would use the frame it is started in.
#[derive(Clone, Copy, Debug, PartialEq, Eq, Structural)]
pub enum FirstLocationUsage {
    /// The element has no bounded height; the caller has to be careful.
    NoneHeight,
    /// The element draws into the frame it is started in.
    WillUse,
    /// The element leaves the frame it is started in empty and begins on the
    /// next one.
    WillSkip,
}

/// The question whether an element can start in the space that is left.
#[derive(Clone, Copy, Debug, PartialEq, Eq, Structural)]
pub struct FirstLocationUsageCtx {
    pub width: WidthConstraint,
    /// Height left on the frame the element would start in.
    pub first_height: Length,
    /// Height of every later frame.
    pub full_height: Length,
}

impl FirstLocationUsageCtx {
    pub open spec fn wf(self) -> bool {
        &&& self.width.wf()
        &&& length_in_range(self.first_height as int)
        &&& length_in_range(self.full_height as int)
    }
}

/// The question whether the height left on the current frame is too small for
/// an element to start there.
#[derive(Clone, Copy, Debug, PartialEq, Eq, Structural)]
pub struct InsufficientFirstHeightCtx {
    pub width: WidthConstraint,
    /// Height left on the frame the element would start in.
    pub first_height: Length,
    /// Height of every later frame.
    pub full_height: Length,
}

impl InsufficientFirstHeightCtx {
    pub open spec fn wf(self) -> bool {
        &&& self.width.wf()
        &&& length_in_range(self.first_height as int)
        &&& length_in_range(self.full_height as int)
    }
}

/// The part of a measure pass that exists only where the element may span
/// several frames. The two references are outputs, to which the element
/// writes what it reports.
pub struct BreakableMeasure<'a> {
    /// Height of every frame after the first.
    pub full_height: Length,
    /// Number of further frames the element takes.
    pub break_count: &'a mut u32,
    /// Least height that the last frame the element touches must have.
    pub extra_location_min_height: &'a mut Option<Length>,
}

/// A measure pass.
pub struct MeasureCtx<'a> {
    pub width: WidthConstraint,
    /// Height left on the frame the element starts in.
    pub first_height: Length,
    pub breakable: Option<BreakableMeasure<'a>>,
}

/// The values of a [`BreakableMeasure`] as a call finds them.
pub struct BreakableMeasureInput {
    pub full_height: Length,
    pub break_count: u32,
    pub extra_location_min_height: Option<Length>,
}

/// The values of a [`MeasureCtx`] as a call finds them.
pub struct MeasureInput {
    pub width: WidthConstraint,
    pub first_height: Length,
    pub breakable: Option<BreakableMeasureInput>,
}

/// Everything a measure pass yields: the size it returns, and the values it
/// leaves in the two outputs of a breakable pass. Where the pass is not
/// breakable the latter two have no meaning.
pub struct MeasureOutcome {
    pub size: Option<ElementSize>,
    pub break_count: u32,
    pub extra_location_min_height: Option<Length>,
}

impl<'a> BreakableMeasure<'a> {
    pub open spec fn view(&self) -> BreakableMeasureInput {
        BreakableMeasureInput {
            full_height: self.full_height,
            break_count: *self.break_count,
            extra_location_min_height: *self.extra_location_min_height,
        }
    }
}

impl<'a> MeasureCtx<'a> {
    pub open spec fn view(&self) -> MeasureInput {
        MeasureInput {
            width: self.width,
            first_height: self.first_height,
            breakable: match self.breakable {
                Some(b) => Some(b@),
                None => None,
            },
        }
    }
}

impl MeasureInput {
    pub open spec fn wf(self) -> bool {
        &&& self.width.wf()
        &&& length_in_range(self.first_height as int)
        &&& self.breakable matches Some(b) ==> {
            &&& length_in_range(b.full_height as int)
            &&& b.extra_location_min_height matches Some(h) ==> length_in_range(h as int)
        }
    }

    /// Height of the frames after the first, where the pass is breakable.
    pub open spec fn full_height(self) -> Option<Length> {
        match self.breakable {
            Some(b) => Some(b.full_height),
            None => None,
        }
    }
}

/// The part of a draw pass that exists only where the element may span
/// several frames.
pub struct BreakableDraw<R> {
    /// Height of every frame after the first.
    pub full_height: Length,
    /// Number of breaks an ancestor has settled on beforehand; 0 where none
    /// has.
    pub preferred_height_break_count: u32,
    /// Hands out the location of each further frame. Frame 0 is the one that
    /// follows the frame the pass starts in. The pass owns the resolver while
    /// it runs and gives it back when it is done.
    pub get_location: R,
}

/// A draw pass.
pub struct DrawCtx<'a, S, R> {
    /// The output surface.
    pub surface: &'a mut S,
    /// Where the element starts.
    pub location: Location,
    pub width: WidthConstraint,
    /// Height left on the frame the element starts in.
    pub first_height: Length,
    /// A height an ancestor would like the element to take.
    pub preferred_height: Option<Length>,
    pub breakable: Option<BreakableDraw<R>>,
}

/// The values of a [`BreakableDraw`] as a call finds them.
#[verifier::reject_recursive_types(S)]
pub struct BreakableDrawInput<S> {
    pub full_height: Length,
    pub preferred_height_break_count: u32,
    /// The location of each further frame.
    pub frames: spec_fn(u32) -> Location,
    /// What asking for a frame does to the surface.
    pub preparation: spec_fn(S, u32) -> S,
}

/// The values of a [`DrawCtx`] as a call finds them.
#[verifier::reject_recursive_types(S)]
pub struct DrawInput<S> {
    pub surface: S,
    pub location: Location,
    pub width: WidthConstraint,
    pub first_height: Length,
    pub preferred_height: Option<Length>,
    pub breakable: Option<BreakableDrawInput<S>>,
}

/// Everything a draw pass yields: the size the element took, the frames it
/// asked for, in the order in which it asked, and the surface as the pass
/// leaves it.
pub struct DrawOutcome<S> {
    pub size: Option<ElementSize>,
    pub requested: Seq<u32>,
    pub surface: S,
}

impl<R> BreakableDraw<R> {
    pub open spec fn view<S>(&self) -> BreakableDrawInput<S> where R: LocationResolver<S> {
        BreakableDrawInput {
            full_height: self.full_height,
            preferred_height_break_count: self.preferred_height_break_count,
            frames: self.get_location.frames(),
            preparation: self.get_location.preparation(),
        }
    }
}

impl<'a, S, R: LocationResolver<S>> DrawCtx<'a, S, R> {
    pub open spec fn view(&self) -> DrawInput<S> {
        DrawInput {
            surface: *self.surface,
            location: self.location,
            width: self.width,
            first_height: self.first_height,
            preferred_height: self.preferred_height,
            breakable: match self.breakable {
                Some(b) => Some(b.view::<S>()),
                None => None,
            },
        }
    }
}

impl<S> DrawInput<S> {
    /// The measure pass that goes with this draw pass: the same width and
    /// heights, with outputs that start at zero and nothing.
    pub open spec fn measurement(self) -> MeasureInput {
        MeasureInput {
            width: self.width,
            first_height: self.first_height,
            breakable: match self.breakable {
                Some(b) => Some(
                    BreakableMeasureInput {
                        full_height: b.full_height,
                        break_count: 0,
                        extra_location_min_height: None,
                    },
                ),
                None => None,
            },
        }
    }

    pub open spec fn wf(self) -> bool {
        &&& self.width.wf()
        &&& length_in_range(self.first_height as int)
        &&& self.preferred_height matches Some(h) ==> length_in_range(h as int)
        &&& self.location.wf()
        &&& self.breakable matches Some(b) ==> {
            &&& length_in_range(b.full_height as int)
            &&& forall|frame_index: u32| (#[trigger] (b.frames)(frame_index)).wf()
        }
    }

    /// Height of the frames after the first, where the pass is breakable.
    pub open spec fn full_height(self) -> Option<Length> {
        match self.breakable {
            Some(b) => Some(b.full_height),
            None => None,
        }
    }
}

} // verus!
