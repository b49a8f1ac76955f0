//! The elements of the library: two that wrap another element and change
//! where it is drawn, and the empty one.

pub mod align_location_bottom;
pub mod h_center;
pub mod none;
