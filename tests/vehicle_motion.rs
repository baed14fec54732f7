use traffic_sim::geometry::{CENTER_Y, HALF_LANE, VEHICLE_SPEED};
use traffic_sim::heading::{ApproachDirection, Route};
use traffic_sim::vehicle::Vehicle;

const DIRECTIONS: [ApproachDirection; 4] = [
    ApproachDirection::North,
    ApproachDirection::South,
    ApproachDirection::East,
    ApproachDirection::West,
];

const ROUTES: [Route; 3] = [Route::Straight, Route::TurnLeft, Route::TurnRight];

#[test]
fn spawn_positions_sit_on_the_right_hand_lane() {
    let n = Vehicle::spawn(ApproachDirection::North, Route::Straight);
    assert_eq!((n.x, n.y), (530, 800));
    let s = Vehicle::spawn(ApproachDirection::South, Route::Straight);
    assert_eq!((s.x, s.y), (470, 0));
    let e = Vehicle::spawn(ApproachDirection::East, Route::Straight);
    assert_eq!((e.x, e.y), (0, 430));
    let w = Vehicle::spawn(ApproachDirection::West, Route::Straight);
    assert_eq!((w.x, w.y), (1000, 370));
    assert_eq!(w.heading, ApproachDirection::West);
    assert_eq!(w.initial_heading, ApproachDirection::West);
}

#[test]
fn random_spawn_keeps_direction_and_position() {
    for d in DIRECTIONS {
        let v = Vehicle::new(d);
        let fixed = Vehicle::spawn(d, v.route);
        assert_eq!(v, fixed);
    }
}

#[test]
fn straight_vehicle_moves_one_step_along_its_heading() {
    let mut n = Vehicle::spawn(ApproachDirection::North, Route::Straight);
    n.update();
    assert_eq!((n.x, n.y), (530, 798));
    let mut s = Vehicle::spawn(ApproachDirection::South, Route::Straight);
    s.update();
    assert_eq!((s.x, s.y), (470, 2));
    let mut e = Vehicle::spawn(ApproachDirection::East, Route::Straight);
    e.update();
    assert_eq!((e.x, e.y), (2, 430));
    let mut w = Vehicle::spawn(ApproachDirection::West, Route::Straight);
    w.update();
    assert_eq!((w.x, w.y), (998, 370));
}

#[test]
fn north_left_turn_happens_at_the_first_tick_at_or_past_the_line() {
    let mut v = Vehicle::spawn(ApproachDirection::North, Route::TurnLeft);
    let line = CENTER_Y + HALF_LANE;
    assert_eq!(line, 415);
    let mut ticks = 0;
    loop {
        let before = v;
        v.update();
        ticks += 1;
        if v.heading != ApproachDirection::North {
            assert_eq!(v.heading, ApproachDirection::East);
            assert!(before.y <= line);
            assert_eq!(before.y, 414);
            assert_eq!((v.x, v.y), (532, 414));
            break;
        }
        assert!(before.y > line);
        assert!(ticks < 1000);
    }
    assert_eq!(ticks, 194);
}

#[test]
fn turn_targets_for_every_approach() {
    let expected = [
        (ApproachDirection::North, Route::TurnLeft, ApproachDirection::East),
        (ApproachDirection::North, Route::TurnRight, ApproachDirection::West),
        (ApproachDirection::South, Route::TurnLeft, ApproachDirection::West),
        (ApproachDirection::South, Route::TurnRight, ApproachDirection::East),
        (ApproachDirection::East, Route::TurnLeft, ApproachDirection::South),
        (ApproachDirection::East, Route::TurnRight, ApproachDirection::North),
        (ApproachDirection::West, Route::TurnLeft, ApproachDirection::North),
        (ApproachDirection::West, Route::TurnRight, ApproachDirection::South),
    ];
    for (d, r, target) in expected {
        let mut v = Vehicle::spawn(d, r);
        while v.heading == d {
            v.update();
            assert!(!v.is_off_screen());
        }
        assert_eq!(v.heading, target);
    }
}

#[test]
fn turn_lines_for_each_approach() {
    let mut v = Vehicle::spawn(ApproachDirection::North, Route::TurnRight);
    v.y = 386;
    v.update();
    assert_eq!(v.heading, ApproachDirection::North);
    v.update();
    assert_eq!(v.heading, ApproachDirection::West);
    assert_eq!((v.x, v.y), (528, 384));

    let mut s = Vehicle::spawn(ApproachDirection::South, Route::TurnLeft);
    s.y = 384;
    s.update();
    assert_eq!(s.heading, ApproachDirection::South);
    s.update();
    assert_eq!(s.heading, ApproachDirection::West);

    let mut e = Vehicle::spawn(ApproachDirection::East, Route::TurnRight);
    e.x = 514;
    e.update();
    assert_eq!(e.heading, ApproachDirection::East);
    e.update();
    assert_eq!(e.heading, ApproachDirection::North);

    let mut w = Vehicle::spawn(ApproachDirection::West, Route::TurnRight);
    w.x = 486;
    w.update();
    assert_eq!(w.heading, ApproachDirection::West);
    w.update();
    assert_eq!(w.heading, ApproachDirection::South);
}

#[test]
fn heading_changes_once_per_turning_lifetime_and_never_for_straight() {
    for d in DIRECTIONS {
        for r in ROUTES {
            let mut v = Vehicle::spawn(d, r);
            let mut changes = 0;
            let mut ticks = 0;
            while !v.is_off_screen() {
                let before = v;
                v.update();
                ticks += 1;
                if v.heading != before.heading {
                    changes += 1;
                } else {
                    let dx = (v.x - before.x).abs();
                    let dy = (v.y - before.y).abs();
                    assert_eq!(dx + dy, VEHICLE_SPEED);
                    assert!(dx == 0 || dy == 0);
                }
                assert_eq!(v.initial_heading, d);
                assert!(ticks < 2000);
            }
            if r == Route::Straight {
                assert_eq!(changes, 0);
                assert_eq!(v.heading, d);
            } else {
                assert_eq!(changes, 1);
                assert_ne!(v.heading, d);
            }
        }
    }
}

#[test]
fn axis_frozen_after_turn() {
    let mut v = Vehicle::spawn(ApproachDirection::East, Route::TurnLeft);
    while v.heading == ApproachDirection::East {
        v.update();
    }
    assert_eq!(v.heading, ApproachDirection::South);
    let x = v.x;
    for _ in 0..50 {
        let y = v.y;
        v.update();
        assert_eq!(v.x, x);
        assert_eq!(v.y, y + VEHICLE_SPEED);
    }
}

#[test]
fn off_screen_margin_bounds() {
    let mut v = Vehicle::spawn(ApproachDirection::North, Route::Straight);
    v.y = -50;
    assert!(!v.is_off_screen());
    v.y = -51;
    assert!(v.is_off_screen());
    v.y = 850;
    assert!(!v.is_off_screen());
    v.y = 851;
    assert!(v.is_off_screen());
    v.y = 400;
    v.x = 1050;
    assert!(!v.is_off_screen());
    v.x = 1051;
    assert!(v.is_off_screen());
    v.x = -51;
    assert!(v.is_off_screen());
}

#[test]
fn turning_vehicles_leave_at_their_exit_tick() {
    let cases = [
        (ApproachDirection::North, Route::TurnLeft, 454),
        (ApproachDirection::East, Route::TurnRight, 499),
        (ApproachDirection::West, Route::TurnLeft, 454),
        (ApproachDirection::South, Route::TurnRight, 499),
    ];
    for (d, r, exit) in cases {
        let mut v = Vehicle::spawn(d, r);
        let mut ticks = 0;
        while !v.is_off_screen() {
            v.update();
            ticks += 1;
        }
        assert_eq!(ticks, exit);
    }
}
