//! Movement intent: the per-tick input record and direction classification.

use vstd::prelude::*;
use crate::vec2::Vec2i;

verus! {

/// Horizontal movement intent.
#[derive(Clone, Copy, Debug, PartialEq, Eq, Structural)]
pub enum ControllerDirection {
    Idle,
    Left,
    Right,
}

/// The signed direction of an intent: -1 for left, 1 for right, 0 for idle.
pub open spec fn spec_direction_sign(d: ControllerDirection) -> int {
    match d {
        ControllerDirection::Idle => 0,
        ControllerDirection::Left => -1,
        ControllerDirection::Right => 1,
    }
}

impl ControllerDirection {
    /// The signed direction: -1, 0 or 1.
    pub fn sign(&self) -> (r: i64)
        ensures
            r == spec_direction_sign(*self),
    {
        match self {
            ControllerDirection::Idle => 0,
            ControllerDirection::Left => -1,
            ControllerDirection::Right => 1,
        }
    }
}

/// The per-tick movement intent handed in by the input layer: a horizontal
/// direction, a jump request and a run modifier.
#[derive(Clone, Copy, Debug, PartialEq, Eq, Structural)]
pub struct MovementController {
    pub moving: ControllerDirection,
    pub jumping: bool,
    pub running: bool,
}

impl MovementController {
    /// A neutral intent: idle, no jump, walking.
    pub fn new() -> (r: MovementController)
        ensures
            r == (MovementController {
                moving: ControllerDirection::Idle,
                jumping: false,
                running: false,
            }),
    {
        MovementController { moving: ControllerDirection::Idle, jumping: false, running: false }
    }

    /// True when a horizontal direction is held.
    pub fn is_moving(&self) -> (r: bool)
        ensures
            r == (self.moving != ControllerDirection::Idle),
    {
        match self.moving {
            ControllerDirection::Idle => false,
            ControllerDirection::Left => true,
            ControllerDirection::Right => true,
        }
    }
}

/// The eight compass octants of a vector, plus neutral.
#[derive(Clone, Copy, Debug, PartialEq, Eq, Structural)]
pub enum Direction {
    Right,
    TopRight,
    Top,
    TopLeft,
    Left,
    BottomLeft,
    Bottom,
    BottomRight,
    Neutral,
}

/// The octant of a vector, classified by the signs of its components.
pub open spec fn spec_direction_of(v: Vec2i) -> Direction {
    if v.x > 0 && v.y > 0 {
        Direction::TopRight
    } else if v.x < 0 && v.y > 0 {
        Direction::TopLeft
    } else if v.x < 0 && v.y < 0 {
        Direction::BottomLeft
    } else if v.x > 0 && v.y < 0 {
        Direction::BottomRight
    } else if v.x > 0 {
        Direction::Right
    } else if v.x < 0 {
        Direction::Left
    } else if v.y > 0 {
        Direction::Top
    } else if v.y < 0 {
        Direction::Bottom
    } else {
        Direction::Neutral
    }
}

impl Direction {
    /// Classifies a vector into its compass octant.
    pub fn of_vec(v: Vec2i) -> (r: Direction)
        ensures
            r == spec_direction_of(v),
    {
        if v.x > 0 && v.y > 0 {
            Direction::TopRight
        } else if v.x < 0 && v.y > 0 {
            Direction::TopLeft
        } else if v.x < 0 && v.y < 0 {
            Direction::BottomLeft
        } else if v.x > 0 && v.y < 0 {
            Direction::BottomRight
        } else if v.x > 0 {
            Direction::Right
        } else if v.x < 0 {
            Direction::Left
        } else if v.y > 0 {
            Direction::Top
        } else if v.y < 0 {
            Direction::Bottom
        } else {
            Direction::Neutral
        }
    }
}

} // verus!
