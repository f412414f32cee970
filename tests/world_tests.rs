use smart_road::vehicle::{Lane, FROM_EAST, FROM_NORTH, FROM_SOUTH, FROM_WEST, SCALE};
use smart_road::world::{format_seconds, SpawnOutcome, World, MAX_VEHICLES, SPAWN_COOLDOWN_MS};

#[test]
fn new_world_is_empty() {
    let w = World::new(0);
    assert!(w.vehicles().is_empty());
    assert_eq!(w.get_vehicles_passed(), 0);
    assert_eq!(w.get_total_close_call_count(), 0);
    assert_eq!(w.max_vehicles_time(), "0.00");
    assert_eq!(w.min_vehicles_time(), "0.00");
    assert_eq!(w.get_max_velocity(), 0);
    assert_eq!(w.get_min_velocity(), 0);
}

#[test]
fn first_spawn_waits_for_cooldown() {
    let mut w = World::new(1000);
    assert_eq!(w.spawn_dir(FROM_SOUTH, 1000 + SPAWN_COOLDOWN_MS - 1), SpawnOutcome::RejectedCooldown);
    assert_eq!(w.spawn_dir(FROM_SOUTH, 1000 + SPAWN_COOLDOWN_MS), SpawnOutcome::Spawned);
    assert_eq!(w.vehicles().len(), 1);
}

#[test]
fn spawn_points_and_lanes() {
    let mut w = World::new(0);
    let mut t = 0;
    let dirs = [FROM_NORTH, FROM_EAST, FROM_SOUTH, FROM_WEST];
    for d in dirs {
        t += SPAWN_COOLDOWN_MS;
        assert_eq!(w.spawn_dir(d, t), SpawnOutcome::Spawned);
    }
    let vs = w.vehicles();
    assert_eq!((vs[0].x, vs[0].y, vs[0].lane), (300 * SCALE, 0, Lane::Middle));
    assert_eq!((vs[1].x, vs[1].y, vs[1].lane), (800 * SCALE, 240 * SCALE, Lane::Right));
    assert_eq!((vs[2].x, vs[2].y, vs[2].lane), (500 * SCALE, 600 * SCALE, Lane::Left));
    assert_eq!((vs[3].x, vs[3].y, vs[3].lane), (0, 320 * SCALE, Lane::Middle));
    assert_eq!(vs[3].spawn_time, 4 * SPAWN_COOLDOWN_MS);
}

#[test]
fn cooldown_allows_one_of_two_spawns_100ms_apart() {
    let mut w = World::new(0);
    assert_eq!(w.spawn_dir(FROM_WEST, 1000), SpawnOutcome::Spawned);
    assert_eq!(w.spawn_dir(FROM_EAST, 1100), SpawnOutcome::RejectedCooldown);
    assert_eq!(w.vehicles().len(), 1);
}

#[test]
fn capacity_of_twelve_rejects_thirteenth() {
    let mut w = World::new(0);
    let mut t = 0;
    for i in 0..12u8 {
        t += SPAWN_COOLDOWN_MS;
        assert_eq!(w.spawn_dir(i / 3, t), SpawnOutcome::Spawned);
    }
    assert_eq!(w.vehicles().len(), MAX_VEHICLES);
    t += SPAWN_COOLDOWN_MS;
    assert_eq!(w.spawn_dir(FROM_WEST, t), SpawnOutcome::RejectedCapacity);
    assert_eq!(w.vehicles().len(), 12);
}

#[test]
fn occupied_spawn_point_rejects() {
    let mut w = World::new(0);
    let mut t = 0;
    for d in [FROM_SOUTH, FROM_NORTH, FROM_NORTH] {
        t += SPAWN_COOLDOWN_MS;
        assert_eq!(w.spawn_dir(d, t), SpawnOutcome::Spawned);
    }
    t += SPAWN_COOLDOWN_MS;
    assert_eq!(w.spawn_dir(FROM_SOUTH, t), SpawnOutcome::RejectedOccupied);
    assert_eq!(w.vehicles().len(), 3);
    // A rejected spawn does not restart the cooldown.
    assert_eq!(w.spawn_dir(FROM_EAST, t + 1), SpawnOutcome::Spawned);
}

#[test]
fn auto_spawn_uses_the_same_gates() {
    let mut w = World::new(0);
    assert_eq!(w.auto_spawn(10), SpawnOutcome::RejectedCooldown);
    assert_eq!(w.auto_spawn(SPAWN_COOLDOWN_MS), SpawnOutcome::Spawned);
    assert!(w.vehicles()[0].direction < 4);
    assert_eq!(w.auto_spawn(SPAWN_COOLDOWN_MS + 100), SpawnOutcome::RejectedCooldown);
}

#[test]
fn tick_moves_and_samples_velocity() {
    let mut w = World::new(0);
    assert_eq!(w.spawn_dir(FROM_WEST, 650), SpawnOutcome::Spawned);
    w.tick(700, &[5400]);
    assert_eq!(w.vehicles()[0].x, 5400);
    assert_eq!(w.get_max_velocity(), 5);
    assert_eq!(w.get_min_velocity(), 5);
    w.update(720);
    let x = w.vehicles()[0].x;
    assert!(x >= 5400 + 3100 && x <= 5400 + 7900);
}

#[test]
fn velocity_rounds_to_nearest_unit() {
    let mut w = World::new(0);
    assert_eq!(w.spawn_dir(FROM_SOUTH, 650), SpawnOutcome::Spawned);
    assert_eq!(w.spawn_dir(FROM_WEST, 1300), SpawnOutcome::Spawned);
    w.tick(1400, &[7500, 3499]);
    assert_eq!(w.get_max_velocity(), 8);
    assert_eq!(w.get_min_velocity(), 3);
}

#[test]
fn vehicles_removed_on_the_tick_they_leave() {
    let mut w = World::new(0);
    assert_eq!(w.spawn_dir(FROM_NORTH, 650), SpawnOutcome::Spawned);
    assert_eq!(w.spawn_dir(FROM_WEST, 1300), SpawnOutcome::Spawned);
    let mut now = 1300;
    let mut ticks = 0;
    while !w.vehicles().is_empty() && ticks < 1000 {
        now += 16;
        ticks += 1;
        let before = w.vehicles().len();
        let passed = w.get_vehicles_passed();
        let speeds = vec![7900; before];
        w.tick(now, &speeds);
        for v in w.vehicles() {
            assert!(!v.is_finished());
        }
        assert_eq!(w.get_vehicles_passed() - passed, (before - w.vehicles().len()) as u32);
    }
    assert!(w.vehicles().is_empty());
    assert_eq!(w.get_vehicles_passed(), 2);
    assert_ne!(w.min_vehicles_time(), "0.00");
    assert!(w.max_vehicles_time().len() >= 4);
}

#[test]
fn crossing_time_renders_two_decimals() {
    assert_eq!(format_seconds(1250), "1.25");
    assert_eq!(format_seconds(0), "0.00");
    assert_eq!(format_seconds(12_345), "12.34");
    assert_eq!(format_seconds(61_009), "61.00");
    assert_eq!(format_seconds(999), "0.99");
}

#[test]
fn auto_spawn_draws_varied_directions() {
    let mut seen = [false; 4];
    for _ in 0..200 {
        let mut w = World::new(0);
        assert_eq!(w.auto_spawn(SPAWN_COOLDOWN_MS), SpawnOutcome::Spawned);
        seen[w.vehicles()[0].direction as usize] = true;
    }
    assert!(seen.iter().filter(|s| **s).count() >= 2);
}

#[test]
fn speed_statistics_stay_in_range_after_update() {
    let mut w = World::new(0);
    let mut t = 0;
    for d in [FROM_NORTH, FROM_EAST, FROM_SOUTH, FROM_WEST] {
        t += SPAWN_COOLDOWN_MS;
        assert_eq!(w.spawn_dir(d, t), SpawnOutcome::Spawned);
    }
    for _ in 0..30 {
        t += 16;
        w.update(t);
        assert!(w.get_min_velocity() >= 1);
        assert!(w.get_max_velocity() <= 8);
        for v in w.vehicles() {
            assert!(v.velocity >= 930 && v.velocity <= 7900);
        }
    }
}
