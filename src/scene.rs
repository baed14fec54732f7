//! What a renderer draws: screen rectangles and lines for the road, the
//! traffic lights and the vehicles, and the color of each route.

use crate::geometry::{
    CENTER_X, CENTER_Y, DASH_LENGTH, DASH_SPACING, DASH_THICKNESS, LIGHT_SIZE, ROAD_WIDTH,
    VEHICLE_SIZE, WINDOW_HEIGHT, WINDOW_WIDTH,
};
use crate::heading::Route;
use crate::vehicle::{Vehicle, VehicleModel};
use vstd::prelude::*;

verus! {

/// An axis-aligned rectangle: top-left corner and size.
#[derive(Clone, Copy, Debug, PartialEq, Eq, Structural)]
pub struct ScreenRect {
    pub x: i32,
    pub y: i32,
    pub width: u32,
    pub height: u32,
}

/// A straight line between two points.
#[derive(Clone, Copy, Debug, PartialEq, Eq, Structural)]
pub struct Segment {
    pub x1: i32,
    pub y1: i32,
    pub x2: i32,
    pub y2: i32,
}

/// A color by its red, green and blue components.
#[derive(Clone, Copy, Debug, PartialEq, Eq, Structural)]
pub struct Rgb {
    pub r: u8,
    pub g: u8,
    pub b: u8,
}

/// A vehicle as drawn: its square and its color.
#[derive(Clone, Copy, Debug, PartialEq, Eq, Structural)]
pub struct Sprite {
    pub rect: ScreenRect,
    pub color: Rgb,
}

/// The color a vehicle on `route` is drawn in.
pub open spec fn color_of(route: Route) -> Rgb {
    match route {
        Route::Straight => Rgb { r: 200, g: 200, b: 200 },
        Route::TurnLeft => Rgb { r: 100, g: 255, b: 100 },
        Route::TurnRight => Rgb { r: 100, g: 100, b: 255 },
    }
}

/// The color a vehicle on `route` is drawn in.
pub fn route_color(route: Route) -> (r: Rgb)
    ensures
        r == color_of(route),
{
    match route {
        Route::Straight => Rgb { r: 200, g: 200, b: 200 },
        Route::TurnLeft => Rgb { r: 100, g: 255, b: 100 },
        Route::TurnRight => Rgb { r: 100, g: 100, b: 255 },
    }
}

/// The square of a vehicle at `(x, y)`, centered on that point.
pub open spec fn vehicle_square(m: VehicleModel) -> ScreenRect {
    ScreenRect {
        x: (m.x - VEHICLE_SIZE / 2) as i32,
        y: (m.y - VEHICLE_SIZE / 2) as i32,
        width: VEHICLE_SIZE,
        height: VEHICLE_SIZE,
    }
}

/// How a vehicle is drawn.
pub open spec fn sprite_of(m: VehicleModel) -> Sprite {
    Sprite { rect: vehicle_square(m), color: color_of(m.route) }
}

impl Vehicle {
    /// The position leaves room for half a vehicle below it on both axes.
    pub open spec fn can_draw(self) -> bool {
        self.x >= i32::MIN + VEHICLE_SIZE / 2 && self.y >= i32::MIN + VEHICLE_SIZE / 2
    }

    /// The square the vehicle is drawn as.
    pub fn get_rect(&self) -> (r: ScreenRect)
        requires
            self.can_draw(),
        ensures
            r == vehicle_square(self@),
    {
        let half = (VEHICLE_SIZE / 2) as i32;
        ScreenRect { x: self.x - half, y: self.y - half, width: VEHICLE_SIZE, height: VEHICLE_SIZE }
    }

    /// The square and color the vehicle is drawn with.
    pub fn sprite(&self) -> (r: Sprite)
        requires
            self.can_draw(),
        ensures
            r == sprite_of(self@),
    {
        Sprite { rect: self.get_rect(), color: route_color(self.route) }
    }
}

/// Number of dashes along the horizontal centerline.
pub open spec fn horizontal_dash_count() -> int {
    (WINDOW_WIDTH + DASH_SPACING - 1) / (DASH_SPACING as int)
}

/// Number of dashes along the vertical centerline.
pub open spec fn vertical_dash_count() -> int {
    (WINDOW_HEIGHT + DASH_SPACING - 1) / (DASH_SPACING as int)
}

/// The `i`-th dash of the horizontal centerline, from the left edge.
pub open spec fn horizontal_dash(i: int) -> ScreenRect {
    ScreenRect {
        x: (i * DASH_SPACING) as i32,
        y: (CENTER_Y - DASH_THICKNESS / 2) as i32,
        width: DASH_LENGTH,
        height: DASH_THICKNESS,
    }
}

/// The `i`-th dash of the vertical centerline, from the top edge.
pub open spec fn vertical_dash(i: int) -> ScreenRect {
    ScreenRect {
        x: (CENTER_X - DASH_THICKNESS / 2) as i32,
        y: (i * DASH_SPACING) as i32,
        width: DASH_THICKNESS,
        height: DASH_LENGTH,
    }
}

/// The dashes of the horizontal centerline, left to right, one every
/// `DASH_SPACING` units starting at the left edge.
pub fn horizontal_lane_markers() -> (r: Vec<ScreenRect>)
    ensures
        r@.len() == horizontal_dash_count(),
        forall|i: int| 0 <= i < r@.len() ==> #[trigger] r@[i] == horizontal_dash(i),
{
    let count = (WINDOW_WIDTH + DASH_SPACING - 1) / DASH_SPACING;
    let half = (DASH_THICKNESS / 2) as i32;
    let mut r: Vec<ScreenRect> = Vec::new();
    let mut i: i32 = 0;
    while i < count
        invariant
            count == horizontal_dash_count(),
            0 <= i <= count,
            half == DASH_THICKNESS / 2,
            r@.len() == i,
            forall|j: int| 0 <= j < i ==> #[trigger] r@[j] == horizontal_dash(j),
        decreases count - i,
    {
        r.push(
            ScreenRect {
                x: i * DASH_SPACING,
                y: CENTER_Y - half,
                width: DASH_LENGTH,
                height: DASH_THICKNESS,
            },
        );
        i = i + 1;
    }
    r
}

/// The dashes of the vertical centerline, top to bottom, one every
/// `DASH_SPACING` units starting at the top edge.
pub fn vertical_lane_markers() -> (r: Vec<ScreenRect>)
    ensures
        r@.len() == vertical_dash_count(),
        forall|i: int| 0 <= i < r@.len() ==> #[trigger] r@[i] == vertical_dash(i),
{
    let count = (WINDOW_HEIGHT + DASH_SPACING - 1) / DASH_SPACING;
    let half = (DASH_THICKNESS / 2) as i32;
    let mut r: Vec<ScreenRect> = Vec::new();
    let mut i: i32 = 0;
    while i < count
        invariant
            count == vertical_dash_count(),
            0 <= i <= count,
            half == DASH_THICKNESS / 2,
            r@.len() == i,
            forall|j: int| 0 <= j < i ==> #[trigger] r@[j] == vertical_dash(j),
        decreases count - i,
    {
        r.push(
            ScreenRect {
                x: CENTER_X - half,
                y: i * DASH_SPACING,
                width: DASH_THICKNESS,
                height: DASH_LENGTH,
            },
        );
        i = i + 1;
    }
    r
}

/// The four road edges, each across the whole screen: the upper and lower
/// edges of the horizontal road, then the left and right edges of the
/// vertical road.
pub fn road_edges() -> (r: Vec<Segment>)
    ensures
        r@ == seq![
            Segment { x1: 0, y1: (CENTER_Y - ROAD_WIDTH / 2) as i32, x2: WINDOW_WIDTH, y2: (CENTER_Y - ROAD_WIDTH / 2) as i32 },
            Segment { x1: 0, y1: (CENTER_Y + ROAD_WIDTH / 2) as i32, x2: WINDOW_WIDTH, y2: (CENTER_Y + ROAD_WIDTH / 2) as i32 },
            Segment { x1: (CENTER_X - ROAD_WIDTH / 2) as i32, y1: 0, x2: (CENTER_X - ROAD_WIDTH / 2) as i32, y2: WINDOW_HEIGHT },
            Segment { x1: (CENTER_X + ROAD_WIDTH / 2) as i32, y1: 0, x2: (CENTER_X + ROAD_WIDTH / 2) as i32, y2: WINDOW_HEIGHT },
        ],
{
    let half = ROAD_WIDTH / 2;
    let mut r: Vec<Segment> = Vec::new();
    r.push(Segment { x1: 0, y1: CENTER_Y - half, x2: WINDOW_WIDTH, y2: CENTER_Y - half });
    r.push(Segment { x1: 0, y1: CENTER_Y + half, x2: WINDOW_WIDTH, y2: CENTER_Y + half });
    r.push(Segment { x1: CENTER_X - half, y1: 0, x2: CENTER_X - half, y2: WINDOW_HEIGHT });
    r.push(Segment { x1: CENTER_X + half, y1: 0, x2: CENTER_X + half, y2: WINDOW_HEIGHT });
    assert(r@ =~= seq![
        Segment { x1: 0, y1: (CENTER_Y - ROAD_WIDTH / 2) as i32, x2: WINDOW_WIDTH, y2: (CENTER_Y - ROAD_WIDTH / 2) as i32 },
        Segment { x1: 0, y1: (CENTER_Y + ROAD_WIDTH / 2) as i32, x2: WINDOW_WIDTH, y2: (CENTER_Y + ROAD_WIDTH / 2) as i32 },
        Segment { x1: (CENTER_X - ROAD_WIDTH / 2) as i32, y1: 0, x2: (CENTER_X - ROAD_WIDTH / 2) as i32, y2: WINDOW_HEIGHT },
        Segment { x1: (CENTER_X + ROAD_WIDTH / 2) as i32, y1: 0, x2: (CENTER_X + ROAD_WIDTH / 2) as i32, y2: WINDOW_HEIGHT },
    ]);
    r
}

/// A traffic-light square with top-left corner `(x, y)`.
pub open spec fn light_at(x: int, y: int) -> ScreenRect {
    ScreenRect { x: x as i32, y: y as i32, width: LIGHT_SIZE as u32, height: LIGHT_SIZE as u32 }
}

/// The four traffic lights, one just outside each corner of the crossing:
/// top-left, top-right, bottom-left, bottom-right.
pub fn traffic_lights() -> (r: Vec<ScreenRect>)
    ensures
        r@ == seq![
            light_at(CENTER_X - ROAD_WIDTH / 2 - LIGHT_SIZE, CENTER_Y - ROAD_WIDTH / 2 - LIGHT_SIZE),
            light_at(CENTER_X + ROAD_WIDTH / 2, CENTER_Y - ROAD_WIDTH / 2 - LIGHT_SIZE),
            light_at(CENTER_X - ROAD_WIDTH / 2 - LIGHT_SIZE, CENTER_Y + ROAD_WIDTH / 2),
            light_at(CENTER_X + ROAD_WIDTH / 2, CENTER_Y + ROAD_WIDTH / 2),
        ],
{
    let half = ROAD_WIDTH / 2;
    let size = LIGHT_SIZE as u32;
    let left = CENTER_X - half - LIGHT_SIZE;
    let right = CENTER_X + half;
    let top = CENTER_Y - half - LIGHT_SIZE;
    let bottom = CENTER_Y + half;
    let mut r: Vec<ScreenRect> = Vec::new();
    r.push(ScreenRect { x: left, y: top, width: size, height: size });
    r.push(ScreenRect { x: right, y: top, width: size, height: size });
    r.push(ScreenRect { x: left, y: bottom, width: size, height: size });
    r.push(ScreenRect { x: right, y: bottom, width: size, height: size });
    assert(r@ =~= seq![
        light_at(left as int, top as int),
        light_at(right as int, top as int),
        light_at(left as int, bottom as int),
        light_at(right as int, bottom as int),
    ]);
    r
}

} // verus!
