use mousewatcher::walk::dest_coord;
use mousewatcher::walk::pick_destination;
use mousewatcher::walk::Walk;
use mousewatcher::walk::AREA_SIZE;
use mousewatcher::walk::CLICK_BUDGET;
use mousewatcher::walk::CLICK_ROLL_BOUND;

#[test]
fn dest_coord_exact_values() {
    // abs(1000 rem 800) = 200, so the destination is 500 - 400 + 200.
    assert_eq!(dest_coord(1000, 500), 300);
    // A negative draw lands on the same offset as its magnitude.
    assert_eq!(dest_coord(-1000, 500), 300);
    assert_eq!(dest_coord(0, 500), 100);
    assert_eq!(dest_coord(799, 500), 899);
    assert_eq!(dest_coord(800, 500), 100);
    assert_eq!(dest_coord(-1, 500), 101);
    // |i32::MIN| = 2147483648 leaves remainder 448 modulo 800.
    assert_eq!(dest_coord(i32::MIN, 500), 548);
}

#[test]
fn dest_coord_stays_in_region() {
    for r in [i32::MIN, -800, -799, -401, -1, 0, 1, 399, 400, 800, i32::MAX] {
        let d = dest_coord(r, 700);
        assert!(700 - AREA_SIZE <= d && d < 700 + AREA_SIZE);
    }
}

#[test]
fn picked_destination_lies_near_display_center() {
    // Runs the real random draw: whatever comes out must land inside the
    // square region around the display center.
    for _ in 0..50 {
        let (dx, dy) = pick_destination(1000, 2000);
        assert!(500 - AREA_SIZE <= dx && dx < 500 + AREA_SIZE);
        assert!(1000 - AREA_SIZE <= dy && dy < 1000 + AREA_SIZE);
    }
}

#[test]
fn walk_reaches_destination_in_exact_steps() {
    // Scenario: origin (100, 100), destination (103, 97): three steps on each
    // axis, the loop ends when the slower axis arrives.
    let mut walk = Walk::start(100, 100, 103, 97);
    assert!(walk.has_more_steps());

    let s1 = walk.step_with_roll(u32::MAX);
    assert_eq!((s1.x, s1.y, s1.click), (101, 99, false));
    let s2 = walk.step_with_roll(u32::MAX);
    assert_eq!((s2.x, s2.y, s2.click), (102, 98, false));
    let s3 = walk.step_with_roll(u32::MAX);
    assert_eq!((s3.x, s3.y, s3.click), (103, 97, false));

    assert!(!walk.has_more_steps());
    assert_eq!((walk.x, walk.y), (103, 97));
    assert_eq!(walk.clicks_done, 0);
}

#[test]
fn faster_axis_holds_once_arrived() {
    let mut walk = Walk::start(0, 0, 1, 5);
    let mut moves = 0;
    while walk.has_more_steps() {
        let s = walk.step_with_roll(u32::MAX);
        moves += 1;
        if moves >= 1 {
            // X arrives after the first step and then holds.
            assert_eq!(s.x, 1);
        }
        assert!(moves <= 5);
    }
    assert_eq!(moves, 5);
    assert_eq!((walk.x, walk.y), (1, 5));
}

#[test]
fn click_budget_is_never_exceeded() {
    // Every roll asks for a click; only the first three get one.
    let mut walk = Walk::start(0, 0, 10, 0);
    let mut presses = 0;
    while walk.has_more_steps() {
        let s = walk.step_with_roll(0);
        if s.click {
            presses += 1;
        }
        assert!(walk.clicks_done <= CLICK_BUDGET);
    }
    assert_eq!(presses, CLICK_BUDGET);
    assert_eq!(walk.clicks_done, CLICK_BUDGET);
}

#[test]
fn click_roll_threshold_decides() {
    let mut walk = Walk::start(0, 0, 4, 0);
    let s1 = walk.step_with_roll(CLICK_ROLL_BOUND);
    assert!(!s1.click);
    let s2 = walk.step_with_roll(CLICK_ROLL_BOUND - 1);
    assert!(s2.click);
    assert_eq!(walk.clicks_done, 1);
}

#[test]
fn random_walk_run_converges_within_budget() {
    // Runs the walk with real randomness end to end: it terminates within the
    // promised step bound, lands exactly on the destination, and never
    // injects more than the budget of presses.
    let mut walk = Walk::plan(100, 100, 1920, 1080);
    assert_eq!(walk.click_budget, CLICK_BUDGET);
    let bound = (walk.dest_x - walk.x).abs().max((walk.dest_y - walk.y).abs());
    let mut steps = 0;
    let mut presses = 0;
    while walk.has_more_steps() {
        let s = walk.step();
        steps += 1;
        if s.click {
            presses += 1;
        }
        assert!(steps <= bound);
    }
    assert_eq!(steps, bound);
    assert_eq!((walk.x, walk.y), (walk.dest_x, walk.dest_y));
    assert!(presses <= CLICK_BUDGET);
    assert_eq!(presses, walk.clicks_done);
}
