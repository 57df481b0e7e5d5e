//! Axis-aligned bounding boxes, the currency of the broad phase and of the
//! tile collision tests.

use vstd::prelude::*;
use crate::num::{sat64, sat_i64};
use crate::vec2::Vec2i;

verus! {

/// An axis-aligned rectangle given by its lower-left and upper-right corners.
#[derive(Clone, Copy, Debug, PartialEq, Eq, Structural)]
pub struct Aabb {
    pub min: Vec2i,
    pub max: Vec2i,
}

/// Closed-rectangle overlap: true when the two boxes share at least a point
/// (touching edges count as intersecting).
pub open spec fn aabb_intersects(a: Aabb, b: Aabb) -> bool {
    &&& a.max.x >= b.min.x
    &&& a.max.y >= b.min.y
    &&& a.min.x <= b.max.x
    &&& a.min.y <= b.max.y
}

impl Aabb {
    /// Builds the box with the given corners.
    pub fn new(min: Vec2i, max: Vec2i) -> (r: Aabb)
        ensures
            r == (Aabb { min, max }),
    {
        Aabb { min, max }
    }

    /// The box anchored at `point` (its lower-left corner) spanning `size`,
    /// the anchoring the tile collision tests use for bodies.
    pub fn from_vec_size(point: Vec2i, size: Vec2i) -> (r: Aabb)
        ensures
            r.min == point,
            r.max.x == sat64(point.x + size.x),
            r.max.y == sat64(point.y + size.y),
    {
        let max_x: i64 = sat_i64(point.x as i128 + size.x as i128);
        let max_y: i64 = sat_i64(point.y as i128 + size.y as i128);
        Aabb { min: point, max: Vec2i { x: max_x, y: max_y } }
    }

    /// True when the boxes overlap as closed rectangles.
    pub fn intersects(&self, other: &Aabb) -> (r: bool)
        ensures
            r == aabb_intersects(*self, *other),
    {
        self.max.x >= other.min.x && self.max.y >= other.min.y && self.min.x <= other.max.x
            && self.min.y <= other.max.y
    }

    /// The greater x edge.
    pub fn right(&self) -> (r: i64)
        ensures
            r == self.max.x,
    {
        self.max.x
    }

    /// The greater y edge.
    pub fn top(&self) -> (r: i64)
        ensures
            r == self.max.y,
    {
        self.max.y
    }

    /// The lesser x edge.
    pub fn left(&self) -> (r: i64)
        ensures
            r == self.min.x,
    {
        self.min.x
    }

    /// The lesser y edge.
    pub fn bottom(&self) -> (r: i64)
        ensures
            r == self.min.y,
    {
        self.min.y
    }
}

} // verus!
