//! A single vehicle: where it is, where it is heading, and the one turn its
//! route may call for.

use crate::geometry::{
    CENTER_X, CENTER_Y, HALF_LANE, LANE_WIDTH, OFFSCREEN_MARGIN, VEHICLE_SPEED, WINDOW_HEIGHT,
    WINDOW_WIDTH,
};
use crate::heading::{ApproachDirection, Route};
use crate::random::random_route;
use vstd::prelude::*;

verus! {

/// The heading a vehicle takes when its route makes it turn.
/// A straight route keeps the initial heading.
pub open spec fn turn_target(initial: ApproachDirection, route: Route) -> ApproachDirection {
    match route {
        Route::Straight => initial,
        Route::TurnLeft => match initial {
            ApproachDirection::North => ApproachDirection::East,
            ApproachDirection::South => ApproachDirection::West,
            ApproachDirection::East => ApproachDirection::South,
            ApproachDirection::West => ApproachDirection::North,
        },
        Route::TurnRight => match initial {
            ApproachDirection::North => ApproachDirection::West,
            ApproachDirection::South => ApproachDirection::East,
            ApproachDirection::East => ApproachDirection::North,
            ApproachDirection::West => ApproachDirection::South,
        },
    }
}

/// The coordinate, on the axis of the initial heading, at which a turning
/// vehicle turns: half a lane before or past the intersection center.
pub open spec fn turn_line(initial: ApproachDirection, route: Route) -> int {
    let center = if initial.is_vertical() { CENTER_Y as int } else { CENTER_X as int };
    let near = match initial {
        ApproachDirection::North => center + HALF_LANE,
        ApproachDirection::South => center - HALF_LANE,
        ApproachDirection::East => center - HALF_LANE,
        ApproachDirection::West => center + HALF_LANE,
    };
    let far = match initial {
        ApproachDirection::North => center - HALF_LANE,
        ApproachDirection::South => center + HALF_LANE,
        ApproachDirection::East => center + HALF_LANE,
        ApproachDirection::West => center - HALF_LANE,
    };
    if route == Route::TurnLeft { near } else { far }
}

/// Where a vehicle entering with heading `d` appears: at the screen edge it
/// enters from, one lane width to the right of the road's centerline as
/// seen in its direction of travel.
pub open spec fn spawn_position(d: ApproachDirection) -> (int, int) {
    match d {
        ApproachDirection::North => (CENTER_X + LANE_WIDTH, WINDOW_HEIGHT as int),
        ApproachDirection::South => (CENTER_X - LANE_WIDTH, 0),
        ApproachDirection::East => (0, CENTER_Y + LANE_WIDTH),
        ApproachDirection::West => (WINDOW_WIDTH as int, CENTER_Y - LANE_WIDTH),
    }
}

/// The mathematical state of a vehicle, with unbounded coordinates.
pub struct VehicleModel {
    pub x: int,
    pub y: int,
    pub heading: ApproachDirection,
    pub initial_heading: ApproachDirection,
    pub route: Route,
}

/// The state of a vehicle entering with heading `d` on route `route`.
pub open spec fn spawned_model(d: ApproachDirection, route: Route) -> VehicleModel {
    VehicleModel {
        x: spawn_position(d).0,
        y: spawn_position(d).1,
        heading: d,
        initial_heading: d,
        route,
    }
}

impl VehicleModel {
    /// The vehicle has reached its turn line, going by its initial heading.
    pub open spec fn at_turn_line(self) -> bool {
        let line = turn_line(self.initial_heading, self.route);
        match self.initial_heading {
            ApproachDirection::North => self.y <= line,
            ApproachDirection::South => self.y >= line,
            ApproachDirection::East => self.x >= line,
            ApproachDirection::West => self.x <= line,
        }
    }

    /// The vehicle has not turned yet.
    pub open spec fn unturned(self) -> bool {
        self.heading == self.initial_heading
    }

    /// The turn is taken on this tick.
    pub open spec fn turns_now(self) -> bool {
        self.route != Route::Straight && self.unturned() && self.at_turn_line()
    }

    /// The heading the vehicle moves with on its next tick.
    pub open spec fn next_heading(self) -> ApproachDirection {
        if self.turns_now() {
            turn_target(self.initial_heading, self.route)
        } else {
            self.heading
        }
    }

    /// The state after one tick: the turn rule, then one step along the
    /// (possibly new) heading.
    pub open spec fn advanced(self) -> VehicleModel {
        let h = self.next_heading();
        VehicleModel { x: self.x + h.dx(), y: self.y + h.dy(), heading: h, ..self }
    }

    /// Either coordinate lies beyond the screen by more than the margin.
    pub open spec fn off_screen(self) -> bool {
        self.x < -OFFSCREEN_MARGIN || self.x > WINDOW_WIDTH + OFFSCREEN_MARGIN
            || self.y < -OFFSCREEN_MARGIN || self.y > WINDOW_HEIGHT + OFFSCREEN_MARGIN
    }

    /// The heading is the initial one or the one its route turns to.
    pub open spec fn heading_consistent(self) -> bool {
        self.unturned() || (self.route != Route::Straight && self.heading == turn_target(
            self.initial_heading,
            self.route,
        ))
    }
}

/// A vehicle with whole-unit screen coordinates.
#[derive(Clone, Copy, Debug, PartialEq, Eq, Structural)]
pub struct Vehicle {
    pub x: i32,
    pub y: i32,
    pub heading: ApproachDirection,
    pub initial_heading: ApproachDirection,
    pub route: Route,
}

impl View for Vehicle {
    type V = VehicleModel;

    open spec fn view(&self) -> VehicleModel {
        VehicleModel {
            x: self.x as int,
            y: self.y as int,
            heading: self.heading,
            initial_heading: self.initial_heading,
            route: self.route,
        }
    }
}

impl Vehicle {
    /// One step in any direction keeps both coordinates within `i32`.
    pub open spec fn can_step(self) -> bool {
        i32::MIN + VEHICLE_SPEED <= self.x <= i32::MAX - VEHICLE_SPEED
            && i32::MIN + VEHICLE_SPEED <= self.y <= i32::MAX - VEHICLE_SPEED
    }

    /// A vehicle entering with heading `direction` on the given route.
    pub fn spawn(direction: ApproachDirection, route: Route) -> (r: Vehicle)
        ensures
            r@ == spawned_model(direction, route),
    {
        let (x, y) = match direction {
            ApproachDirection::North => (CENTER_X + LANE_WIDTH, WINDOW_HEIGHT),
            ApproachDirection::South => (CENTER_X - LANE_WIDTH, 0),
            ApproachDirection::East => (0, CENTER_Y + LANE_WIDTH),
            ApproachDirection::West => (WINDOW_WIDTH, CENTER_Y - LANE_WIDTH),
        };
        Vehicle { x, y, heading: direction, initial_heading: direction, route }
    }

    /// A vehicle entering with heading `direction` on a route drawn at random.
    pub fn new(direction: ApproachDirection) -> (r: Vehicle)
        ensures
            r@ == spawned_model(direction, r.route),
    {
        Vehicle::spawn(direction, random_route())
    }

    /// Advances the vehicle by one tick: takes the turn if its route calls
    /// for it here and it has not turned yet, then moves one step.
    pub fn update(&mut self)
        requires
            old(self).can_step(),
        ensures
            final(self)@ == old(self)@.advanced(),
    {
        if self.heading == self.initial_heading {
            match self.initial_heading {
                ApproachDirection::North => match self.route {
                    Route::TurnLeft => if self.y <= CENTER_Y + HALF_LANE {
                        self.heading = ApproachDirection::East;
                    },
                    Route::TurnRight => if self.y <= CENTER_Y - HALF_LANE {
                        self.heading = ApproachDirection::West;
                    },
                    Route::Straight => {},
                },
                ApproachDirection::South => match self.route {
                    Route::TurnLeft => if self.y >= CENTER_Y - HALF_LANE {
                        self.heading = ApproachDirection::West;
                    },
                    Route::TurnRight => if self.y >= CENTER_Y + HALF_LANE {
                        self.heading = ApproachDirection::East;
                    },
                    Route::Straight => {},
                },
                ApproachDirection::East => match self.route {
                    Route::TurnLeft => if self.x >= CENTER_X - HALF_LANE {
                        self.heading = ApproachDirection::South;
                    },
                    Route::TurnRight => if self.x >= CENTER_X + HALF_LANE {
                        self.heading = ApproachDirection::North;
                    },
                    Route::Straight => {},
                },
                ApproachDirection::West => match self.route {
                    Route::TurnLeft => if self.x <= CENTER_X + HALF_LANE {
                        self.heading = ApproachDirection::North;
                    },
                    Route::TurnRight => if self.x <= CENTER_X - HALF_LANE {
                        self.heading = ApproachDirection::South;
                    },
                    Route::Straight => {},
                },
            }
        }
        match self.heading {
            ApproachDirection::North => self.y = self.y - VEHICLE_SPEED,
            ApproachDirection::South => self.y = self.y + VEHICLE_SPEED,
            ApproachDirection::East => self.x = self.x + VEHICLE_SPEED,
            ApproachDirection::West => self.x = self.x - VEHICLE_SPEED,
        }
    }

    /// True when either coordinate lies beyond the screen by more than the
    /// margin.
    pub fn is_off_screen(&self) -> (r: bool)
        ensures
            r == self@.off_screen(),
    {
        self.x < -OFFSCREEN_MARGIN || self.x > WINDOW_WIDTH + OFFSCREEN_MARGIN || self.y
            < -OFFSCREEN_MARGIN || self.y > WINDOW_HEIGHT + OFFSCREEN_MARGIN
    }
}

} // verus!
