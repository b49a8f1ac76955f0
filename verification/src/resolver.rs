//! The source of further frames during a breakable draw pass.

use vstd::prelude::*;
use crate::geometry::Location;

verus! {

/// Hands out the location of each frame that follows the one a draw pass
/// starts in. Frame 0 is the first of them. `S` is the output surface, which a
/// resolver may have to prepare before a frame can be drawn into.
///
/// A resolver is described by three things: the location it has for each
/// frame, what it does to the surface when it is asked for a frame, and the
/// list of frames it has been asked for so far. Only the last changes as the
/// resolver is used. A resolver may be asked only while its frames lie within
/// the range of lengths. An implementation that is not verified leaves these
/// descriptions as they stand here: some function of the resolver, of which
/// nothing more is known.
pub trait LocationResolver<S> {
    /// The location of each frame.
    open spec fn frames(&self) -> spec_fn(u32) -> Location {
        (arbitrary::<spec_fn(&Self) -> spec_fn(u32) -> Location>())(self)
    }

    /// The surface as it is after the resolver was asked for a frame, given
    /// the surface as it was before.
    open spec fn preparation(&self) -> spec_fn(S, u32) -> S {
        (arbitrary::<spec_fn(&Self) -> spec_fn(S, u32) -> S>())(self)
    }

    /// The frames asked for so far, oldest first.
    open spec fn requested(&self) -> Seq<u32> {
        (arbitrary::<spec_fn(&Self) -> Seq<u32>>())(self)
    }

    /// Every frame of the resolver lies within the range of lengths, and so
    /// does whatever it is built on.
    open spec fn stays_in_range(&self) -> bool {
        (arbitrary::<spec_fn(&Self) -> bool>())(self)
    }

    /// Returns the location of frame `frame_index`, prepares the surface for
    /// it and notes the request.
    fn get_location(&mut self, surface: &mut S, frame_index: u32) -> (location: Location)
        requires
            old(self).stays_in_range(),
        ensures
            location == (old(self).frames())(frame_index),
            location.wf(),
            final(self).stays_in_range(),
            *final(surface) == (old(self).preparation())(*old(surface), frame_index),
            final(self).frames() == old(self).frames(),
            final(self).preparation() == old(self).preparation(),
            final(self).requested() == old(self).requested().push(frame_index),
    ;
}

} // verus!
