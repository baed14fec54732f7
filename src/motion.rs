//! Laws of vehicle motion over many ticks.

use crate::geometry::{OFFSCREEN_MARGIN, VEHICLE_SPEED, WINDOW_HEIGHT, WINDOW_WIDTH};
use crate::heading::{ApproachDirection, Route};
use crate::vehicle::{spawned_model, turn_line, turn_target, VehicleModel};
use vstd::prelude::*;

verus! {

/// The state of a vehicle after `n` ticks.
pub open spec fn after_ticks(m: VehicleModel, n: nat) -> VehicleModel
    decreases n,
{
    if n == 0 {
        m
    } else {
        after_ticks(m, (n - 1) as nat).advanced()
    }
}

/// How far a vehicle still is from its turn line, measured along its
/// initial heading; it turns once this is zero or less.
pub open spec fn gap_to_turn(m: VehicleModel) -> int {
    let line = turn_line(m.initial_heading, m.route);
    match m.initial_heading {
        ApproachDirection::North => m.y - line,
        ApproachDirection::South => line - m.y,
        ApproachDirection::East => line - m.x,
        ApproachDirection::West => m.x - line,
    }
}

/// The tick after which a freshly spawned turning vehicle turns: the first
/// tick that starts at or past its turn line.
pub open spec fn turn_tick(d: ApproachDirection, route: Route) -> nat {
    ((gap_to_turn(spawned_model(d, route)) + 1) / 2) as nat
}

/// In one tick exactly one coordinate changes, by exactly the vehicle speed,
/// in the direction of the heading the vehicle moves with; that heading is
/// the current one unless the turn is taken on this tick, and a straight
/// route never turns.
pub proof fn lemma_axis_motion(m: VehicleModel)
    ensures
        m.advanced().heading == m.next_heading(),
        !m.turns_now() ==> m.advanced().heading == m.heading,
        m.route == Route::Straight ==> m.advanced().heading == m.heading,
        m.next_heading() == ApproachDirection::North ==> m.advanced().x == m.x && m.advanced().y
            == m.y - VEHICLE_SPEED,
        m.next_heading() == ApproachDirection::South ==> m.advanced().x == m.x && m.advanced().y
            == m.y + VEHICLE_SPEED,
        m.next_heading() == ApproachDirection::East ==> m.advanced().y == m.y && m.advanced().x
            == m.x + VEHICLE_SPEED,
        m.next_heading() == ApproachDirection::West ==> m.advanced().y == m.y && m.advanced().x
            == m.x - VEHICLE_SPEED,
{
}

proof fn lemma_consistent_step(m: VehicleModel)
    requires
        m.heading_consistent(),
    ensures
        m.advanced().heading_consistent(),
        m.advanced().initial_heading == m.initial_heading,
        m.advanced().route == m.route,
        !m.unturned() ==> m.advanced().heading == m.heading,
{
}

/// A vehicle's heading is always its initial one or the one its route turns
/// to; a straight vehicle keeps its heading for ever, and once a vehicle has
/// turned it never changes heading again.
pub proof fn lemma_heading_never_reverts(m: VehicleModel, i: nat, j: nat)
    requires
        m.heading_consistent(),
        i <= j,
    ensures
        after_ticks(m, j).heading_consistent(),
        after_ticks(m, j).initial_heading == m.initial_heading,
        after_ticks(m, j).route == m.route,
        m.route == Route::Straight ==> after_ticks(m, j).heading == m.heading,
        !after_ticks(m, i).unturned() ==> after_ticks(m, j).heading == after_ticks(m, i).heading,
    decreases j,
{
    if j > 0 {
        lemma_heading_never_reverts(m, 0, (j - 1) as nat);
        lemma_consistent_step(after_ticks(m, (j - 1) as nat));
        if i < j {
            lemma_heading_never_reverts(m, 0, i);
            lemma_heading_never_reverts(m, i, (j - 1) as nat);
        }
    }
}

/// Before its turn line a turning vehicle keeps its heading and closes in on
/// the line by one speed step a tick, without drifting sideways.
proof fn lemma_approach(m: VehicleModel, i: nat)
    requires
        m.unturned(),
        m.route != Route::Straight,
        i == 0 || gap_to_turn(m) > 2 * (i - 1),
    ensures
        after_ticks(m, i).unturned(),
        after_ticks(m, i).initial_heading == m.initial_heading,
        after_ticks(m, i).route == m.route,
        gap_to_turn(after_ticks(m, i)) == gap_to_turn(m) - VEHICLE_SPEED * i,
        m.heading.is_vertical() ==> after_ticks(m, i).x == m.x,
        !m.heading.is_vertical() ==> after_ticks(m, i).y == m.y,
    decreases i,
{
    if i > 0 {
        lemma_approach(m, (i - 1) as nat);
    }
}

/// A vehicle spawned on a turning route stays on screen with its initial
/// heading up to its turn tick, has the turned heading one tick later, and
/// keeps that heading from then on: its heading changes exactly once.
pub proof fn lemma_turns_exactly_once(d: ApproachDirection, route: Route, j: nat)
    requires
        route != Route::Straight,
    ensures
        forall|i: nat|
            i <= turn_tick(d, route) ==> (#[trigger] after_ticks(spawned_model(d, route), i)).heading
                == d && !after_ticks(spawned_model(d, route), i).off_screen(),
        after_ticks(spawned_model(d, route), turn_tick(d, route) + 1).heading == turn_target(
            d,
            route,
        ),
        turn_target(d, route) != d,
        j > turn_tick(d, route) ==> after_ticks(spawned_model(d, route), j).heading == turn_target(
            d,
            route,
        ),
{
    let m = spawned_model(d, route);
    let k = turn_tick(d, route);
    assert forall|i: nat| i <= k implies (#[trigger] after_ticks(m, i)).heading == d
        && !after_ticks(m, i).off_screen() by {
        lemma_approach(m, i);
    }
    lemma_approach(m, k);
    lemma_heading_never_reverts(m, 0, k);
    if j > k {
        lemma_heading_never_reverts(m, k + 1, j);
    }
}

/// The state after `j` ticks of travel without a turn.
pub open spec fn travelled(m: VehicleModel, j: int) -> VehicleModel {
    VehicleModel { x: m.x + j * m.heading.dx(), y: m.y + j * m.heading.dy(), ..m }
}

/// The state of a freshly spawned turning vehicle at its turn tick: still
/// on its approach lane, at or just past its turn line.
pub open spec fn turn_point(d: ApproachDirection, route: Route) -> VehicleModel {
    let m = spawned_model(d, route);
    let g = gap_to_turn(m) - VEHICLE_SPEED * turn_tick(d, route);
    let line = turn_line(d, route);
    match d {
        ApproachDirection::North => VehicleModel { y: line + g, ..m },
        ApproachDirection::South => VehicleModel { y: line - g, ..m },
        ApproachDirection::East => VehicleModel { x: line - g, ..m },
        ApproachDirection::West => VehicleModel { x: line + g, ..m },
    }
}

/// Ticks of travel with its current heading after which a vehicle in state
/// `p` first lies beyond the screen margin.
pub open spec fn steps_to_leave(p: VehicleModel) -> int {
    match p.heading {
        ApproachDirection::North => (p.y + OFFSCREEN_MARGIN) / (VEHICLE_SPEED as int) + 1,
        ApproachDirection::South => (WINDOW_HEIGHT + OFFSCREEN_MARGIN - p.y) / (VEHICLE_SPEED as int)
            + 1,
        ApproachDirection::East => (WINDOW_WIDTH + OFFSCREEN_MARGIN - p.x) / (VEHICLE_SPEED as int)
            + 1,
        ApproachDirection::West => (p.x + OFFSCREEN_MARGIN) / (VEHICLE_SPEED as int) + 1,
    }
}

/// The tick at which a freshly spawned turning vehicle is first off screen.
pub open spec fn exit_tick(d: ApproachDirection, route: Route) -> nat {
    (turn_tick(d, route) + 1 + steps_to_leave(turn_point(d, route).advanced())) as nat
}

proof fn lemma_ticks_compose(m: VehicleModel, a: nat, b: nat)
    ensures
        after_ticks(m, a + b) == after_ticks(after_ticks(m, a), b),
    decreases b,
{
    if b > 0 {
        lemma_ticks_compose(m, a, (b - 1) as nat);
        assert(a + b - 1 == a + (b - 1));
    }
}

/// Once turned, a vehicle travels straight on along its new heading.
proof fn lemma_depart(p: VehicleModel, j: nat)
    requires
        !p.unturned(),
    ensures
        after_ticks(p, j) == travelled(p, j as int),
    decreases j,
{
    if j > 0 {
        let i = (j - 1) as nat;
        lemma_depart(p, i);
        let q = travelled(p, i as int);
        assert(after_ticks(p, j) == q.advanced());
        assert(!q.turns_now());
        let dx = p.heading.dx();
        let dy = p.heading.dy();
        assert(i * dx + dx == j * dx) by (nonlinear_arith)
            requires
                j == i + 1,
        ;
        assert(i * dy + dy == j * dy) by (nonlinear_arith)
            requires
                j == i + 1,
        ;
        assert(q.advanced() == travelled(p, j as int));
    } else {
        assert(0 * p.heading.dx() == 0);
        assert(0 * p.heading.dy() == 0);
        assert(travelled(p, 0) == p);
    }
}

/// Travelling straight on from an on-screen state, a vehicle stays on
/// screen for fewer than `steps_to_leave` ticks and is off screen after
/// exactly that many.
proof fn lemma_travel_leaves(p: VehicleModel, j: int)
    requires
        !p.off_screen(),
        0 <= j,
    ensures
        j < steps_to_leave(p) ==> !travelled(p, j).off_screen(),
        travelled(p, steps_to_leave(p)).off_screen(),
{
    let n = steps_to_leave(p);
    let dx = p.heading.dx();
    let dy = p.heading.dy();
    // Each displacement is a whole number of speed steps: a signed two, or none.
    assert(j * dx == 2 * j * (dx / 2) && n * dx == 2 * n * (dx / 2)) by (nonlinear_arith)
        requires
            dx == 2 || dx == -2 || dx == 0,
    ;
    assert(j * dy == 2 * j * (dy / 2) && n * dy == 2 * n * (dy / 2)) by (nonlinear_arith)
        requires
            dy == 2 || dy == -2 || dy == 0,
    ;
}

/// A vehicle spawned on a turning route stays on screen until its exit
/// tick and is off screen at it: its lifetime ends, and with it the turned
/// heading it kept since its one turn.
pub proof fn lemma_turning_vehicle_leaves(d: ApproachDirection, route: Route)
    requires
        route != Route::Straight,
    ensures
        exit_tick(d, route) > turn_tick(d, route) + 1,
        after_ticks(spawned_model(d, route), exit_tick(d, route)).off_screen(),
        after_ticks(spawned_model(d, route), exit_tick(d, route)).heading == turn_target(d, route),
        forall|i: nat|
            i < exit_tick(d, route) ==> !(#[trigger] after_ticks(spawned_model(d, route), i)).off_screen(),
{
    let m = spawned_model(d, route);
    let k = turn_tick(d, route);
    lemma_approach(m, k);
    lemma_turns_exactly_once(d, route, k + 1);
    assert(after_ticks(m, k) == turn_point(d, route));
    let p = turn_point(d, route).advanced();
    assert(after_ticks(m, k + 1) == p);
    let n = steps_to_leave(p);
    assert forall|j: nat| j <= n implies #[trigger] after_ticks(m, k + 1 + j) == travelled(p, j as int) by {
        lemma_ticks_compose(m, k + 1, j);
        lemma_depart(p, j);
    }
    assert(!p.off_screen());
    lemma_travel_leaves(p, n);
    lemma_ticks_compose(m, k + 1, n as nat);
    lemma_depart(p, n as nat);
    assert(exit_tick(d, route) == k + 1 + n as nat);
    lemma_heading_never_reverts(m, k + 1, exit_tick(d, route));
    assert forall|i: nat| i < exit_tick(d, route) implies !(#[trigger] after_ticks(m, i)).off_screen() by {
        if i > k {
            let j = (i - k - 1) as nat;
            assert(after_ticks(m, k + 1 + j) == travelled(p, j as int));
            lemma_travel_leaves(p, j as int);
        }
    }
}

} // verus!
