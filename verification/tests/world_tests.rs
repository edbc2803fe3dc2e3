//! Tests of initialization seeding and the scheduled station-rotation tick.

use space_server::tables::{ScheduleAt, StationRotationUpdate};
use space_server::units::{
    next_target_angle, Pose, STATIONS_ROTATION_SPEED, STATION_ROTATION_INTERVAL_MS,
    TAU_MICRORADIANS, UNIT,
};
use space_server::world::World;

#[test]
fn init_seeds_the_fighter_catalog_row() {
    let mut w = World::new();
    let ring: Vec<(i64, i64)> = Vec::new();
    w.init(0, &ring);
    assert_eq!(w.ship_types.len(), 1);
    let t = &w.ship_types[0];
    assert_eq!(t.id, 1);
    assert_eq!(t.name, "Fighter");
    assert_eq!(t.camera_offset_x, 0);
    assert_eq!(t.camera_offset_y, 10 * UNIT);
    assert_eq!(t.camera_offset_z, 40 * UNIT);
    assert_eq!(t.mass, UNIT);
    assert_eq!(t.linear_damping, UNIT);
    assert_eq!(t.angular_damping, UNIT);
    assert_eq!(t.thrust, 10_000 * UNIT);
    assert_eq!(t.vertical_thrust, 1_000 * UNIT);
    assert_eq!(t.lateral_thrust, 1_000 * UNIT);
    assert_eq!(t.pitch_torque, 1_500 * UNIT);
    assert_eq!(t.yaw_torque, 1_500 * UNIT);
    assert_eq!(t.roll_torque, 2_000 * UNIT);
}

#[test]
fn init_seeds_station_alpha_at_the_origin() {
    let mut w = World::new();
    let ring: Vec<(i64, i64)> = Vec::new();
    w.init(123_456, &ring);
    assert_eq!(w.stations.len(), 1);
    let st = &w.stations[0];
    assert_eq!(st.id, 1);
    assert_eq!(st.name, "Station Alpha");
    assert_eq!((st.x, st.y, st.z), (0, 0, 0));
    assert_eq!(st.rotation_speed, STATIONS_ROTATION_SPEED);
    assert_eq!(st.target_angle, 0);
    assert_eq!(st.reach_angle_at, 123_456u128);
}

#[test]
fn init_seeds_one_asteroid_per_ring_position() {
    let mut w = World::new();
    let ring: Vec<(i64, i64)> = (0..7)
        .map(|i| ((i as i64) * UNIT, -(i as i64) * UNIT))
        .collect();
    w.init(0, &ring);
    assert_eq!(w.asteroids.len(), 7);
    for (i, a) in w.asteroids.iter().enumerate() {
        assert_eq!(a.id, (i as u64) + 1);
        assert_eq!(
            a.pose,
            Pose {
                x: (i as i64) * UNIT,
                y: 0,
                z: -(i as i64) * UNIT,
                rot_x: 0,
                rot_y: 0,
                rot_z: 0,
                rot_w: UNIT,
            }
        );
        // The five asteroid models cycle.
        assert_eq!(a.asteroid_type, (i % 5) as u8);
        assert_eq!(a.scale, 10 * UNIT);
    }
}

#[test]
fn init_with_empty_ring_seeds_no_asteroids() {
    let mut w = World::new();
    let ring: Vec<(i64, i64)> = Vec::new();
    w.init(0, &ring);
    assert_eq!(w.asteroids.len(), 0);
    assert_eq!(w.next_asteroid_id, 1);
}

#[test]
fn init_arms_the_recurring_rotation_schedule() {
    let mut w = World::new();
    let ring: Vec<(i64, i64)> = Vec::new();
    w.init(0, &ring);
    assert_eq!(w.rotation_schedules.len(), 1);
    assert_eq!(w.rotation_schedules[0].scheduled_id, 1);
    assert_eq!(
        w.rotation_schedules[0].scheduled_at,
        ScheduleAt::Interval(STATION_ROTATION_INTERVAL_MS)
    );
}

#[test]
fn rotation_tick_advances_the_keyframe() {
    // A five-second tick at 0.01 rad/s from angle zero: the target becomes
    // 0.05 rad (50 000 microradians) and the keyframe arrives one interval
    // after "now".
    let mut w = World::new();
    let ring: Vec<(i64, i64)> = Vec::new();
    w.init(1_000, &ring);
    let update = StationRotationUpdate {
        scheduled_id: 1,
        scheduled_at: ScheduleAt::Interval(5_000),
    };
    w.world_update_stations_rotation(&update, 2_000);
    assert_eq!(w.stations[0].target_angle, 50_000);
    assert_eq!(w.stations[0].reach_angle_at, 2_000u128 + 5_000u128);
    // Static fields stay.
    assert_eq!(w.stations[0].name, "Station Alpha");
    assert_eq!(w.stations[0].rotation_speed, 10_000);

    // A second tick advances by the same amount again.
    w.world_update_stations_rotation(&update, 7_000);
    assert_eq!(w.stations[0].target_angle, 100_000);
    assert_eq!(w.stations[0].reach_angle_at, 12_000u128);
}

#[test]
fn rotation_tick_wraps_the_angle_at_a_full_turn() {
    let mut w = World::new();
    let ring: Vec<(i64, i64)> = Vec::new();
    w.init(0, &ring);
    // Push the station close to a full turn, then tick across it.
    w.stations[0].target_angle = TAU_MICRORADIANS - 10_000;
    let update = StationRotationUpdate {
        scheduled_id: 1,
        scheduled_at: ScheduleAt::Interval(5_000),
    };
    w.world_update_stations_rotation(&update, 0);
    // (TAU - 10000 + 50000) mod TAU == 40000.
    assert_eq!(w.stations[0].target_angle, 40_000);
    assert!(w.stations[0].target_angle < TAU_MICRORADIANS);
}

#[test]
fn next_target_angle_matches_the_formula_exactly() {
    assert_eq!(next_target_angle(0, 10_000, 5_000), 50_000);
    // Sub-millisecond truncation: 999 ms at 1 microradian per second.
    assert_eq!(next_target_angle(0, 1, 999), 0);
    assert_eq!(next_target_angle(0, 1, 1_000), 1);
    // Wrapping.
    assert_eq!(next_target_angle(TAU_MICRORADIANS - 1, 1, 1_000), 0);
    // A huge product still wraps correctly into range.
    let r = next_target_angle(123, u64::MAX, u64::MAX);
    assert!(r < TAU_MICRORADIANS);
}

#[test]
fn rotation_tick_updates_every_station() {
    let mut w = World::new();
    let ring: Vec<(i64, i64)> = Vec::new();
    w.init(0, &ring);
    // A second, faster station added by hand.
    let mut extra = w.stations[0].clone();
    extra.id = 2;
    extra.rotation_speed = 20_000;
    w.stations.push(extra);
    w.next_station_id = 3;
    let update = StationRotationUpdate {
        scheduled_id: 1,
        scheduled_at: ScheduleAt::Interval(5_000),
    };
    w.world_update_stations_rotation(&update, 100);
    assert_eq!(w.stations[0].target_angle, 50_000);
    assert_eq!(w.stations[1].target_angle, 100_000);
    assert_eq!(w.stations[0].reach_angle_at, 5_100u128);
    assert_eq!(w.stations[1].reach_angle_at, 5_100u128);
}
