//! Compass headings and routes.

use crate::geometry::VEHICLE_SPEED;
use vstd::prelude::*;

verus! {

/// A compass heading; also the heading a vehicle starts with, which names
/// the lane it enters on.
#[derive(Clone, Copy, Debug, PartialEq, Eq, Structural)]
pub enum ApproachDirection {
    /// Travelling up the screen (vertical coordinate decreasing).
    North,
    /// Travelling down the screen (vertical coordinate increasing).
    South,
    /// Travelling right (horizontal coordinate increasing).
    East,
    /// Travelling left (horizontal coordinate decreasing).
    West,
}

/// The turning behaviour a vehicle is given when it spawns.
#[derive(Clone, Copy, Debug, PartialEq, Eq, Structural)]
pub enum Route {
    Straight,
    TurnLeft,
    TurnRight,
}

impl ApproachDirection {
    /// True for the headings that move along the vertical axis.
    pub open spec fn is_vertical(self) -> bool {
        self == ApproachDirection::North || self == ApproachDirection::South
    }

    /// Horizontal displacement of one tick of travel with this heading.
    pub open spec fn dx(self) -> int {
        match self {
            ApproachDirection::East => VEHICLE_SPEED as int,
            ApproachDirection::West => -VEHICLE_SPEED as int,
            _ => 0,
        }
    }

    /// Vertical displacement of one tick of travel with this heading.
    pub open spec fn dy(self) -> int {
        match self {
            ApproachDirection::North => -VEHICLE_SPEED as int,
            ApproachDirection::South => VEHICLE_SPEED as int,
            _ => 0,
        }
    }
}

} // verus!
