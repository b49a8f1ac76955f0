//! The pairing of a described element with the fonts it may name.

use vstd::prelude::*;

verus! {

/// An element as a document description holds it, together with the fonts
/// that the description refers to by name. The layout protocol is carried out
/// on what is built from the two.
pub struct SerdeElement<'a, E, F> {
    pub element: &'a E,
    pub fonts: &'a F,
}

} // verus!
