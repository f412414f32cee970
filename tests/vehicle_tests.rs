use smart_road::vehicle::{
    count_inside, Heading, Lane, Step, Vehicle, FROM_EAST, FROM_NORTH, FROM_SOUTH, FROM_WEST,
    MAX_INSIDE_SPEED, MAX_OUTSIDE_SPEED, MIN_SPEED, SCALE, STOPPING_DISTANCE,
};

fn inside_vehicle(x: i32, y: i32, direction: u8, entry: Option<u64>) -> Vehicle {
    let mut v = Vehicle::new(x, y, direction, Lane::Right, 0);
    v.intersection_entry_time = entry;
    v
}

fn dist2(a: &Vehicle, b: &Vehicle) -> i128 {
    let dx = (a.x - b.x) as i128;
    let dy = (a.y - b.y) as i128;
    dx * dx + dy * dy
}

#[test]
fn new_vehicle_takes_heading_of_its_approach() {
    let v = Vehicle::new(420, 600, FROM_SOUTH, Lane::Middle, 77);
    assert_eq!(v.x, 420 * SCALE);
    assert_eq!(v.y, 600 * SCALE);
    assert_eq!(v.heading, Heading::North);
    assert_eq!(v.heading.degrees(), 270);
    assert_eq!(v.spawn_time, 77);
    assert_eq!(v.intersection_entry_time, None);
    assert_eq!(v.close_call_count, 0);
    assert!(!v.is_in_collision);
    assert_eq!(Vehicle::new(300, 0, FROM_NORTH, Lane::Left, 0).heading.degrees(), 90);
    assert_eq!(Vehicle::new(800, 200, FROM_EAST, Lane::Left, 0).heading.degrees(), 180);
    assert_eq!(Vehicle::new(0, 320, FROM_WEST, Lane::Left, 0).heading.degrees(), 0);
}

#[test]
fn lane_colors() {
    assert_eq!(Lane::Right.color(), (255, 255, 0));
    assert_eq!(Lane::Middle.color(), (0, 255, 255));
    assert_eq!(Lane::Left.color(), (200, 150, 200));
}

#[test]
fn intersection_rectangle_is_open() {
    assert!(Vehicle::new(400, 300, FROM_WEST, Lane::Right, 0).is_in_intersection());
    assert!(!Vehicle::new(304, 300, FROM_WEST, Lane::Right, 0).is_in_intersection());
    assert!(!Vehicle::new(502, 300, FROM_WEST, Lane::Right, 0).is_in_intersection());
    assert!(!Vehicle::new(400, 198, FROM_WEST, Lane::Right, 0).is_in_intersection());
    assert!(!Vehicle::new(400, 406, FROM_WEST, Lane::Right, 0).is_in_intersection());
}

#[test]
fn bounds_are_closed() {
    assert!(!Vehicle::new(0, 0, FROM_WEST, Lane::Right, 0).is_finished());
    assert!(!Vehicle::new(800, 800, FROM_WEST, Lane::Right, 0).is_finished());
    assert!(Vehicle::new(-1, 300, FROM_WEST, Lane::Right, 0).is_finished());
    assert!(Vehicle::new(801, 300, FROM_WEST, Lane::Right, 0).is_finished());
    assert!(Vehicle::new(300, -1, FROM_WEST, Lane::Right, 0).is_finished());
    let mut v = Vehicle::new(300, 800, FROM_WEST, Lane::Right, 0);
    v.y += 1;
    assert!(v.is_finished());
}

#[test]
fn lone_vehicle_moves_by_its_base_speed() {
    let mut v = Vehicle::new(0, 360, FROM_WEST, Lane::Right, 0);
    let r = v.step(&[], 10, 5000);
    assert_eq!(r, Step::Moved);
    assert_eq!((v.x, v.y), (5000, 360 * SCALE));
    assert_eq!(v.velocity, 5000);
}

#[test]
fn approach_buffer_slows_to_thirty_percent() {
    let mut v = Vehicle::new(260, 360, FROM_WEST, Lane::Right, 0);
    assert_eq!(v.velocity_from_base(5000), 1500);
    let r = v.step(&[], 10, 5000);
    assert_eq!(r, Step::Moved);
    assert_eq!(v.x, 261_500);
    let far = Vehicle::new(100, 360, FROM_WEST, Lane::Right, 0);
    assert_eq!(far.velocity_from_base(5000), 5000);
}

#[test]
fn yield_to_earlier_entrant_from_north() {
    // 48 units above the top edge of the intersection, inside the buffer.
    let a = Vehicle::new(300, 150, FROM_NORTH, Lane::Right, 0);
    let b = inside_vehicle(400, 300, FROM_WEST, Some(100));
    let others = [b];
    assert!(!a.check_intersection_priority(&others, 200));
    let mut moved = a;
    let r = moved.step(&others, 200, 5000);
    assert_eq!(r, Step::HeldForPriority);
    assert_eq!((moved.x, moved.y), (a.x, a.y));
}

#[test]
fn yield_to_earlier_entrant_from_south() {
    let a = Vehicle::new(460, 454, FROM_SOUTH, Lane::Right, 0);
    let b = inside_vehicle(400, 300, FROM_WEST, Some(100));
    let mut moved = a;
    assert_eq!(moved.step(&[b], 200, 5000), Step::HeldForPriority);
    assert_eq!((moved.x, moved.y), (a.x, a.y));
}

#[test]
fn yield_to_entrant_without_entry_time() {
    let a = Vehicle::new(300, 150, FROM_NORTH, Lane::Right, 0);
    let b = inside_vehicle(400, 300, FROM_WEST, None);
    assert!(!a.check_intersection_priority(&[b], 200));
}

#[test]
fn no_yield_to_entrant_of_the_same_instant() {
    let a = Vehicle::new(300, 150, FROM_NORTH, Lane::Right, 0);
    let b = inside_vehicle(400, 300, FROM_WEST, Some(200));
    assert!(a.check_intersection_priority(&[b], 200));
}

#[test]
fn no_yield_outside_the_buffer() {
    let a = Vehicle::new(300, 100, FROM_NORTH, Lane::Right, 0);
    let b = inside_vehicle(400, 300, FROM_WEST, Some(1));
    assert!(a.check_intersection_priority(&[b], 200));
}

#[test]
fn congestion_holds_vehicle_at_its_stop_line() {
    let now = 500;
    let insiders = [
        inside_vehicle(400, 250, FROM_NORTH, Some(now)),
        inside_vehicle(450, 250, FROM_NORTH, Some(now)),
        inside_vehicle(400, 350, FROM_SOUTH, Some(now)),
        inside_vehicle(450, 350, FROM_SOUTH, Some(now)),
    ];
    assert_eq!(count_inside(&insiders), 4);
    let a = Vehicle::new(260, 320, FROM_WEST, Lane::Middle, 0);
    assert!(a.check_intersection_priority(&insiders, now));
    let mut held = a;
    let r = held.step(&insiders, now, 5000);
    assert_eq!(r, Step::HeldForCongestion);
    assert_eq!((held.x, held.y), (a.x, a.y));
    assert!(!held.is_in_collision);
}

#[test]
fn two_inside_do_not_throttle() {
    let now = 500;
    let insiders = [
        inside_vehicle(400, 250, FROM_NORTH, Some(now)),
        inside_vehicle(450, 350, FROM_SOUTH, Some(now)),
    ];
    let mut a = Vehicle::new(260, 320, FROM_WEST, Lane::Middle, 0);
    assert_eq!(a.step(&insiders, now, 5000), Step::Moved);
    assert_eq!(a.x, 261_500);
}

#[test]
fn close_call_counted_once_per_episode() {
    let mut a = Vehicle::new(100, 360, FROM_WEST, Lane::Right, 0);
    let b = Vehicle::new(125, 360, FROM_WEST, Lane::Right, 0);
    assert_eq!(a.step(&[b], 10, 5000), Step::HeldForCollision);
    assert_eq!(a.close_call_count, 1);
    assert!(a.is_in_collision);
    assert_eq!(a.x, 100 * SCALE);
    assert_eq!(a.step(&[b], 20, 5000), Step::HeldForCollision);
    assert_eq!(a.close_call_count, 1);
    let far = Vehicle::new(700, 360, FROM_WEST, Lane::Right, 0);
    assert_eq!(a.step(&[far], 30, 5000), Step::Moved);
    assert!(!a.is_in_collision);
    assert_eq!(a.step(&[Vehicle::new(130, 360, FROM_WEST, Lane::Right, 0)], 40, 5000), Step::HeldForCollision);
    assert_eq!(a.close_call_count, 2);
}

#[test]
fn vehicle_ahead_uses_safety_distance() {
    // 32 units ahead after the move: within the safety distance only.
    let mut a = Vehicle::new(100, 360, FROM_WEST, Lane::Right, 0);
    let ahead = Vehicle::new(137, 360, FROM_WEST, Lane::Right, 0);
    assert_eq!(a.step(&[ahead], 10, 5000), Step::HeldForCollision);
    // The same separation behind does not hold it.
    let mut c = Vehicle::new(100, 360, FROM_WEST, Lane::Right, 0);
    let behind = Vehicle::new(73, 360, FROM_WEST, Lane::Right, 0);
    assert_eq!(c.step(&[behind], 10, 5000), Step::Moved);
}

#[test]
fn turn_snaps_heading_near_waypoint() {
    let mut v = Vehicle::new(420, 280, FROM_SOUTH, Lane::Middle, 0);
    assert_eq!(v.step(&[], 10, 5000), Step::Moved);
    assert_eq!(v.heading, Heading::West);
    assert_eq!((v.x, v.y), (415_000, 280_000));
    let mut straight = Vehicle::new(420, 280, FROM_SOUTH, Lane::Right, 0);
    straight.step(&[], 10, 5000);
    assert_eq!(straight.heading, Heading::North);
}

#[test]
fn entry_time_set_on_entry_kept_inside_cleared_on_exit() {
    let mut v = Vehicle::new(303, 360, FROM_WEST, Lane::Right, 0);
    v.step(&[], 100, 5000);
    assert!(v.is_in_intersection());
    assert_eq!(v.intersection_entry_time, Some(100));
    v.step(&[], 116, 5000);
    assert_eq!(v.intersection_entry_time, Some(100));
    let mut w = Vehicle::new(501, 360, FROM_WEST, Lane::Right, 0);
    w.intersection_entry_time = Some(50);
    w.step(&[], 116, 5000);
    assert!(!w.is_in_intersection());
    assert_eq!(w.intersection_entry_time, None);
}

#[test]
fn random_speed_stays_in_range() {
    for _ in 0..50 {
        let mut v = Vehicle::new(0, 360, FROM_WEST, Lane::Right, 0);
        v.update(&[], 10);
        assert!(v.x >= MIN_SPEED as i64 && v.x <= MAX_OUTSIDE_SPEED as i64);
        let inside = Vehicle::new(400, 360, FROM_WEST, Lane::Right, 0);
        let s = inside.get_velocity(&[]);
        assert!(s >= MIN_SPEED && s <= MAX_INSIDE_SPEED);
        let slowed = Vehicle::new(260, 360, FROM_WEST, Lane::Right, 0).get_velocity(&[]);
        assert!(slowed >= MIN_SPEED * 3 / 10 && slowed <= MAX_OUTSIDE_SPEED * 3 / 10);
    }
}

#[test]
fn crossing_paths_keep_stopping_distance() {
    // Eastbound and southbound vehicles heading for the same point, stepped in turn.
    let mut vs = vec![
        Vehicle::new(100, 100, FROM_WEST, Lane::Right, 0),
        Vehicle::new(160, 40, FROM_NORTH, Lane::Right, 0),
    ];
    for t in 0..40u64 {
        let before = vs.clone();
        for i in 0..vs.len() {
            let others: Vec<Vehicle> =
                vs.iter().enumerate().filter(|(j, _)| *j != i).map(|(_, v)| *v).collect();
            let mut v = vs[i];
            v.step(&others, t, 6000);
            vs[i] = v;
        }
        let moved0 = (vs[0].x, vs[0].y) != (before[0].x, before[0].y);
        let moved1 = (vs[1].x, vs[1].y) != (before[1].x, before[1].y);
        if moved0 || moved1 {
            assert!(dist2(&vs[0], &vs[1]) >= (STOPPING_DISTANCE as i128) * (STOPPING_DISTANCE as i128));
        }
    }
}

#[test]
fn random_speeds_vary_between_draws() {
    let v = Vehicle::new(0, 360, FROM_WEST, Lane::Right, 0);
    let draws: Vec<u64> = (0..200).map(|_| v.get_velocity(&[])).collect();
    assert!(draws.iter().any(|d| *d != draws[0]));
    assert!(draws.iter().any(|d| *d > MIN_SPEED));
}

#[test]
fn congestion_lets_a_vehicle_reach_its_stop_line() {
    let now = 500;
    let insiders = [
        inside_vehicle(400, 250, FROM_NORTH, Some(now)),
        inside_vehicle(450, 250, FROM_NORTH, Some(now)),
        inside_vehicle(400, 350, FROM_SOUTH, Some(now)),
    ];
    let mut a = Vehicle::new(0, 320, FROM_WEST, Lane::Middle, 0);
    a.x = 258_500;
    // Slowed to 1500 in the buffer: lands exactly on the stop coordinate.
    assert_eq!(a.step(&insiders, now, 5000), Step::Moved);
    assert_eq!(a.x, 260 * SCALE);
    assert_eq!(a.step(&insiders, now, 5000), Step::HeldForCongestion);
    assert_eq!(a.x, 260 * SCALE);
}

#[test]
fn turned_vehicle_in_buffer_yields_and_slows() {
    let mut a = Vehicle::new(300, 400, FROM_WEST, Lane::Left, 0);
    a.heading = Heading::South;
    let b = inside_vehicle(400, 300, FROM_NORTH, Some(100));
    let mut held = a;
    assert_eq!(held.step(&[b], 200, 5000), Step::HeldForPriority);
    assert_eq!((held.x, held.y), (a.x, a.y));
    assert_eq!(held.velocity, 1500);
    let mut alone = a;
    assert_eq!(alone.step(&[], 200, 5000), Step::Moved);
    assert_eq!((alone.x, alone.y), (300 * SCALE, 401_500));
}

#[test]
fn held_vehicle_records_its_drawn_speed() {
    let a = Vehicle::new(300, 150, FROM_NORTH, Lane::Right, 0);
    let b = inside_vehicle(400, 300, FROM_WEST, Some(100));
    let mut held = a;
    assert_eq!(held.step(&[b], 200, 6000), Step::HeldForPriority);
    assert_eq!(held.velocity, 1800);
}

#[test]
fn buffer_is_measured_from_the_approach_edge() {
    let b = inside_vehicle(400, 300, FROM_WEST, Some(100));
    // About 65 units from the top edge's nearer end: outside the buffer.
    let far = Vehicle::new(260, 150, FROM_NORTH, Lane::Right, 0);
    assert!(far.check_intersection_priority(&[b], 200));
    assert_eq!(far.velocity_from_base(5000), 5000);
    // About 40 units from that end: inside the buffer.
    let near = Vehicle::new(290, 160, FROM_NORTH, Lane::Right, 0);
    assert!(!near.check_intersection_priority(&[b], 200));
    assert_eq!(near.velocity_from_base(5000), 1500);
    // Exactly 50 units from the edge counts, 51 does not.
    assert_eq!(Vehicle::new(400, 148, FROM_NORTH, Lane::Right, 0).velocity_from_base(5000), 1500);
    assert_eq!(Vehicle::new(400, 147, FROM_NORTH, Lane::Right, 0).velocity_from_base(5000), 5000);
}
