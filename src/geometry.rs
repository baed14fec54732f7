//! Fixed geometry of the scene, in whole screen units.

use vstd::prelude::*;

verus! {

/// Width of the screen.
pub const WINDOW_WIDTH: i32 = 1000;

/// Height of the screen.
pub const WINDOW_HEIGHT: i32 = 800;

/// Side length of the square drawn for a vehicle.
pub const VEHICLE_SIZE: u32 = 40;

/// Distance a vehicle covers in one tick.
pub const VEHICLE_SPEED: i32 = 2;

/// Width of each road (both lanes together).
pub const ROAD_WIDTH: i32 = 120;

/// Width of one lane.
pub const LANE_WIDTH: i32 = 30;

/// Half the width of one lane.
pub const HALF_LANE: i32 = 15;

/// Side length of a traffic-light square.
pub const LIGHT_SIZE: i32 = 30;

/// Horizontal coordinate of the intersection center.
pub const CENTER_X: i32 = 500;

/// Vertical coordinate of the intersection center.
pub const CENTER_Y: i32 = 400;

/// How far beyond the screen edge a vehicle may go before it is removed.
pub const OFFSCREEN_MARGIN: i32 = 50;

/// Ticks that must pass after an accepted spawn before the same approach
/// direction accepts another one (one second at sixty ticks per second).
pub const SPAWN_COOLDOWN_TICKS: u32 = 60;

/// Distance between the starts of two consecutive lane-marker dashes.
pub const DASH_SPACING: i32 = 30;

/// Length of one lane-marker dash.
pub const DASH_LENGTH: u32 = 15;

/// Thickness of one lane-marker dash.
pub const DASH_THICKNESS: u32 = 4;

} // verus!
