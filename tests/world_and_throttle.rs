use traffic_sim::geometry::SPAWN_COOLDOWN_TICKS;
use traffic_sim::heading::{ApproachDirection, Route};
use traffic_sim::random::{random_route, route_from_index};
use traffic_sim::throttle::SpawnThrottle;
use traffic_sim::vehicle::Vehicle;
use traffic_sim::world::TrafficSimulation;

#[test]
fn throttle_accepts_then_refuses_same_direction() {
    let mut t = SpawnThrottle::new();
    assert!(t.try_spawn(ApproachDirection::North));
    assert_eq!(t.remaining_ticks(ApproachDirection::North), SPAWN_COOLDOWN_TICKS);
    assert!(!t.try_spawn(ApproachDirection::North));
    assert_eq!(t.remaining_ticks(ApproachDirection::North), SPAWN_COOLDOWN_TICKS);
}

#[test]
fn throttle_directions_are_independent() {
    let mut t = SpawnThrottle::new();
    assert!(t.try_spawn(ApproachDirection::North));
    assert!(t.try_spawn(ApproachDirection::South));
    assert!(t.try_spawn(ApproachDirection::East));
    assert!(t.try_spawn(ApproachDirection::West));
    assert!(!t.try_spawn(ApproachDirection::East));
}

#[test]
fn throttle_tick_counts_down_and_saturates() {
    let mut t = SpawnThrottle::new();
    assert!(t.try_spawn(ApproachDirection::West));
    t.tick();
    assert_eq!(t.remaining_ticks(ApproachDirection::West), SPAWN_COOLDOWN_TICKS - 1);
    assert_eq!(t.remaining_ticks(ApproachDirection::North), 0);
    for _ in 0..200 {
        t.tick();
    }
    assert_eq!(t.remaining_ticks(ApproachDirection::West), 0);
    assert!(t.is_ready(ApproachDirection::West));
}

#[test]
fn throttle_recovers_after_cooldown_ticks() {
    let mut t = SpawnThrottle::new();
    assert!(t.try_spawn(ApproachDirection::South));
    for _ in 0..SPAWN_COOLDOWN_TICKS - 1 {
        t.tick();
        assert!(!t.try_spawn(ApproachDirection::South));
    }
    t.tick();
    assert!(t.try_spawn(ApproachDirection::South));
}

#[test]
fn world_spawns_with_cooldown_per_direction() {
    let mut w = TrafficSimulation::new();
    assert!(w.spawn_vehicle(ApproachDirection::North));
    assert!(w.spawn_vehicle(ApproachDirection::East));
    assert!(!w.spawn_vehicle(ApproachDirection::North));
    assert_eq!(w.vehicles().len(), 2);
    let first = w.vehicles()[0];
    assert_eq!(first, Vehicle::spawn(ApproachDirection::North, first.route));
    let second = w.vehicles()[1];
    assert_eq!(second, Vehicle::spawn(ApproachDirection::East, second.route));
}

#[test]
fn world_spawn_with_route_appends_in_order() {
    let mut w = TrafficSimulation::new();
    assert!(w.spawn_vehicle_with_route(ApproachDirection::West, Route::TurnLeft));
    assert!(w.spawn_vehicle_with_route(ApproachDirection::South, Route::Straight));
    assert!(!w.spawn_vehicle_with_route(ApproachDirection::West, Route::TurnRight));
    assert_eq!(
        w.vehicles().clone(),
        vec![
            Vehicle::spawn(ApproachDirection::West, Route::TurnLeft),
            Vehicle::spawn(ApproachDirection::South, Route::Straight),
        ]
    );
    assert_eq!(w.throttle().remaining_ticks(ApproachDirection::West), SPAWN_COOLDOWN_TICKS);
}

#[test]
fn world_recovers_after_cooldown() {
    let mut w = TrafficSimulation::new();
    assert!(w.spawn_vehicle(ApproachDirection::East));
    for _ in 0..SPAWN_COOLDOWN_TICKS - 1 {
        w.update();
        assert!(!w.spawn_vehicle(ApproachDirection::East));
    }
    w.update();
    assert!(w.spawn_vehicle(ApproachDirection::East));
    assert_eq!(w.vehicles().len(), 2);
}

#[test]
fn world_update_moves_every_vehicle() {
    let mut w = TrafficSimulation::new();
    w.spawn_vehicle_with_route(ApproachDirection::North, Route::Straight);
    w.spawn_vehicle_with_route(ApproachDirection::East, Route::TurnRight);
    w.update();
    let v = w.vehicles();
    assert_eq!((v[0].x, v[0].y), (530, 798));
    assert_eq!((v[1].x, v[1].y), (2, 430));
}

#[test]
fn vehicle_is_pruned_the_tick_it_leaves_the_screen() {
    let mut w = TrafficSimulation::new();
    w.spawn_vehicle_with_route(ApproachDirection::North, Route::Straight);
    // From y = 800 at two units a tick, y reaches -50 after 425 ticks and
    // -52 (beyond the margin) after 426.
    for _ in 0..425 {
        w.update();
    }
    assert_eq!(w.vehicles().len(), 1);
    assert_eq!(w.vehicles()[0].y, -50);
    w.update();
    assert_eq!(w.vehicles().len(), 0);
    for _ in 0..100 {
        w.update();
        assert_eq!(w.vehicles().len(), 0);
    }
}

#[test]
fn pruning_keeps_order_of_the_rest() {
    let mut w = TrafficSimulation::new();
    w.spawn_vehicle_with_route(ApproachDirection::North, Route::Straight);
    for _ in 0..100 {
        w.update();
    }
    w.spawn_vehicle_with_route(ApproachDirection::South, Route::Straight);
    w.spawn_vehicle_with_route(ApproachDirection::West, Route::Straight);
    for _ in 0..325 {
        w.update();
    }
    assert_eq!(w.vehicles().len(), 3);
    w.update();
    let v = w.vehicles();
    assert_eq!(v.len(), 2);
    assert_eq!(v[0].initial_heading, ApproachDirection::South);
    assert_eq!(v[1].initial_heading, ApproachDirection::West);
}

#[test]
fn route_indices_cover_each_route_once() {
    assert_eq!(route_from_index(0), Route::Straight);
    assert_eq!(route_from_index(1), Route::TurnLeft);
    assert_eq!(route_from_index(2), Route::TurnRight);
}

#[test]
fn routes_are_drawn_with_roughly_equal_frequency() {
    let mut counts = [0u32; 3];
    for _ in 0..3000 {
        match random_route() {
            Route::Straight => counts[0] += 1,
            Route::TurnLeft => counts[1] += 1,
            Route::TurnRight => counts[2] += 1,
        }
    }
    for c in counts {
        assert!(c > 800 && c < 1200, "counts {:?}", counts);
    }
}

#[test]
fn throttle_counts_down_from_any_counter() {
    let mut t = SpawnThrottle { north: 100, south: 0, east: 1, west: 0 };
    assert!(!t.try_spawn(ApproachDirection::North));
    t.tick();
    assert_eq!(t.remaining_ticks(ApproachDirection::North), 99);
    assert_eq!(t.remaining_ticks(ApproachDirection::East), 0);
    assert!(t.try_spawn(ApproachDirection::East));
}
