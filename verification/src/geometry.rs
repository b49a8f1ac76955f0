//! Lengths, width constraints, sizes and drawable locations.
//!
//! Coordinate convention: `pos.0` grows to the right and `pos.1` grows upwards,
//! so moving content towards the bottom of a frame subtracts from `pos.1`.

use vstd::prelude::*;
use vstd::pervasive::runtime_assert;

verus! {

/// A length or coordinate in thousandths of a millimetre.
pub type Length = i64;

/// Number of [`Length`] units in one millimetre.
pub const UNITS_PER_MM: i64 = 1000;

/// Largest magnitude a constraint or a measured size may have. Differences of
/// two such lengths still fit a [`Length`].
pub const LENGTH_MAX: i64 = 0x1FFF_FFFF_FFFF_FFFF;

/// `v` is a length that constraints and sizes may carry.
pub open spec fn length_in_range(v: int) -> bool {
    -LENGTH_MAX <= v <= LENGTH_MAX
}

/// `v` is a distance by which a position may be moved: the difference of two
/// lengths.
pub open spec fn offset_in_range(v: int) -> bool {
    -2 * LENGTH_MAX <= v <= 2 * LENGTH_MAX
}

/// Moves the coordinate `at` by `by`. The coordinate has to be in the range of
/// lengths before and after; a move that would leave it is a mistake of the
/// caller and not carried out. A caller outside the verifier's sight that
/// makes it is stopped when the call runs.
pub fn translate(at: Length, by: Length) -> (moved: Length)
    requires
        length_in_range(at as int),
        offset_in_range(by as int),
        length_in_range(at + by),
    ensures
        moved == at + by,
{
    runtime_assert(-LENGTH_MAX <= at && at <= LENGTH_MAX);
    runtime_assert(-2 * LENGTH_MAX <= by && by <= 2 * LENGTH_MAX);
    let moved = at + by;
    runtime_assert(-LENGTH_MAX <= moved && moved <= LENGTH_MAX);
    moved
}

/// The horizontal budget offered to an element.
#[derive(Clone, Copy, Debug, PartialEq, Eq, Structural)]
pub struct WidthConstraint {
    /// The widest the element may be.
    pub max: Length,
    /// Whether the element is to fill `max` or to keep its natural width.
    pub expand: bool,
}

impl WidthConstraint {
    /// The maximum is a length and not negative.
    pub open spec fn wf(self) -> bool {
        0 <= self.max <= LENGTH_MAX
    }

    /// The width an element of natural width `width` takes under this
    /// constraint: all of `max` when expanding, else the natural width cut off
    /// at `max`.
    pub open spec fn constrain_spec(self, width: Length) -> Length {
        if self.expand || width > self.max {
            self.max
        } else {
            width
        }
    }

    /// The same constraint without the demand to fill it.
    pub open spec fn natural(self) -> WidthConstraint {
        WidthConstraint { max: self.max, expand: false }
    }

    /// Resolves a natural width against this constraint.
    pub fn constrain(&self, width: Length) -> (resolved: Length)
        ensures
            resolved == self.constrain_spec(width),
    {
        if self.expand || width > self.max {
            self.max
        } else {
            width
        }
    }
}

/// The space an element takes. A height of `None` means that the element has no
/// bounded height in this pass.
#[derive(Clone, Copy, Debug, PartialEq, Eq, Structural)]
pub struct ElementSize {
    pub width: Length,
    pub height: Option<Length>,
}

impl ElementSize {
    /// The width is a non-negative length and the height, if known, a length.
    pub open spec fn wf(self) -> bool {
        &&& 0 <= self.width <= LENGTH_MAX
        &&& self.height matches Some(h) ==> length_in_range(h as int)
    }
}

/// The height of content of size `size`, where it has a size and a height.
pub open spec fn known_height(size: Option<ElementSize>) -> Option<Length> {
    match size {
        Some(s) => s.height,
        None => None,
    }
}

/// Names a drawable layer of the output surface by the index of its page and
/// the index of the layer on that page.
#[derive(Clone, Copy, Debug, PartialEq, Eq, Structural)]
pub struct LayerHandle {
    pub page: u64,
    pub layer: u64,
}

/// A place to draw at: a layer of the output surface and a position on it.
/// Elements only ever move the position.
#[derive(Debug, PartialEq, Eq)]
pub struct Location {
    pub layer: LayerHandle,
    pub pos: (Length, Length),
}

impl Clone for Location {
    fn clone(&self) -> (copy: Self)
        ensures
            copy == *self,
    {
        Location { layer: self.layer, pos: (self.pos.0, self.pos.1) }
    }
}

impl Copy for Location {

}

impl Location {
    /// Both coordinates are in the range of lengths.
    pub open spec fn wf(self) -> bool {
        &&& length_in_range(self.pos.0 as int)
        &&& length_in_range(self.pos.1 as int)
    }

    /// This location moved by `dx` to the right and `dy` upwards. It is a
    /// location only where the moved coordinates are in range.
    pub open spec fn translated(self, dx: int, dy: int) -> Location {
        Location {
            layer: self.layer,
            pos: ((self.pos.0 + dx) as Length, (self.pos.1 + dy) as Length),
        }
    }

    /// The location can be moved by `dx` and `dy` without leaving the range of
    /// lengths.
    pub open spec fn can_move(self, dx: int, dy: int) -> bool {
        &&& self.wf()
        &&& offset_in_range(dx)
        &&& offset_in_range(dy)
        &&& length_in_range(self.pos.0 + dx)
        &&& length_in_range(self.pos.1 + dy)
    }
}

} // verus!
