//! Plane vector with fixed-point integer components.

use vstd::prelude::*;

verus! {

/// A 2D vector of world units. Positions, velocities and forces are all
/// carried as `Vec2i`; the subpixel scale is the caller's choice.
#[derive(Clone, Copy, Debug, PartialEq, Eq, Structural)]
pub struct Vec2i {
    pub x: i64,
    pub y: i64,
}

} // verus!
