//! End-to-end tests of the reducer layer: the player lifecycle, its error
//! cases, and the cascades on disconnect.

use space_server::tables::{ReducerError, ScheduleAt, StationRotationUpdate};
use space_server::units::{Pose, DEFAULT_SHIP_TYPE_ID, UNIT};
use space_server::world::World;

fn fresh_world() -> World {
    let mut w = World::new();
    let ring: Vec<(i64, i64)> = vec![(1_500 * UNIT, 0), (0, 1_500 * UNIT)];
    w.init(1_000, &ring);
    w
}

fn pose(x: i64, y: i64, z: i64) -> (i64, i64, i64, i64, i64, i64, i64) {
    (x, y, z, 0, 0, 0, UNIT)
}

#[test]
fn connect_creates_player_at_origin() {
    let mut w = fresh_world();
    assert_eq!(w.on_connected(7), Ok(()));
    assert_eq!(w.players.len(), 1);
    assert_eq!(w.players[0].id, 7);
    assert_eq!(
        w.players[0].pose,
        Pose { x: 0, y: 0, z: 0, rot_x: 0, rot_y: 0, rot_z: 0, rot_w: UNIT }
    );
    // No location and no pilot row yet.
    assert_eq!(w.player_locations.len(), 0);
    assert_eq!(w.ship_pilots.len(), 0);
}

#[test]
fn double_connect_is_a_constraint_violation() {
    let mut w = fresh_world();
    assert_eq!(w.on_connected(7), Ok(()));
    assert_eq!(w.on_connected(7), Err(ReducerError::ConstraintViolation));
    assert_eq!(w.players.len(), 1);
}

#[test]
fn ready_materializes_location_from_stored_pose() {
    let mut w = fresh_world();
    w.on_connected(7).unwrap();
    assert_eq!(w.player_ready(7), Ok(()));
    assert_eq!(w.player_locations.len(), 1);
    assert_eq!(w.player_locations[0].player_id, 7);
    assert_eq!(w.player_locations[0].pose, w.players[0].pose);
}

#[test]
fn ready_without_player_is_not_found() {
    let mut w = fresh_world();
    assert_eq!(w.player_ready(7), Err(ReducerError::NotFound));
    assert_eq!(w.player_locations.len(), 0);
}

#[test]
fn double_ready_is_a_constraint_violation() {
    let mut w = fresh_world();
    w.on_connected(7).unwrap();
    w.player_ready(7).unwrap();
    assert_eq!(w.player_ready(7), Err(ReducerError::ConstraintViolation));
    assert_eq!(w.player_locations.len(), 1);
}

#[test]
fn spawn_ship_creates_ship_and_location_without_pilot() {
    let mut w = fresh_world();
    w.on_connected(7).unwrap();
    w.player_ready(7).unwrap();
    let (x, y, z, rx, ry, rz, rw) = pose(10 * UNIT, 0, 0);
    assert_eq!(w.player_spawn_ship(7, x, y, z, rx, ry, rz, rw), Ok(()));
    assert_eq!(w.ships.len(), 1);
    assert_eq!(w.ships[0].id, 1);
    assert_eq!(w.ships[0].ship_type_id, DEFAULT_SHIP_TYPE_ID);
    assert_eq!(w.ships[0].owner_id, 7);
    assert_eq!(w.ship_locations.len(), 1);
    assert_eq!(w.ship_locations[0].ship_id, 1);
    assert_eq!(
        w.ship_locations[0].pose,
        Pose { x: 10 * UNIT, y: 0, z: 0, rot_x: 0, rot_y: 0, rot_z: 0, rot_w: UNIT }
    );
    assert_eq!(w.ship_pilots.len(), 0);
    // The caller is still on foot.
    assert_eq!(w.player_locations.len(), 1);
    // Auto-increment advanced.
    assert_eq!(w.next_ship_id, 2);
}

#[test]
fn enter_ship_creates_pilot_row_and_deletes_location() {
    let mut w = fresh_world();
    w.on_connected(7).unwrap();
    w.player_ready(7).unwrap();
    let (x, y, z, rx, ry, rz, rw) = pose(10 * UNIT, 0, 0);
    w.player_spawn_ship(7, x, y, z, rx, ry, rz, rw).unwrap();
    assert_eq!(w.player_enter_ship(7, 1), Ok(()));
    assert_eq!(w.ship_pilots.len(), 1);
    assert_eq!(w.ship_pilots[0].ship_id, 1);
    assert_eq!(w.ship_pilots[0].player_id, 7);
    assert_eq!(w.player_locations.len(), 0);
}

#[test]
fn enter_nonexistent_ship_is_not_found_and_changes_nothing() {
    let mut w = fresh_world();
    w.on_connected(7).unwrap();
    w.player_ready(7).unwrap();
    assert_eq!(w.player_enter_ship(7, 42), Err(ReducerError::NotFound));
    assert_eq!(w.ship_pilots.len(), 0);
    assert_eq!(w.player_locations.len(), 1);
}

#[test]
fn enter_ship_piloted_by_somebody_else_is_a_constraint_violation() {
    let mut w = fresh_world();
    w.on_connected(7).unwrap();
    w.player_ready(7).unwrap();
    let (x, y, z, rx, ry, rz, rw) = pose(10 * UNIT, 0, 0);
    w.player_spawn_ship(7, x, y, z, rx, ry, rz, rw).unwrap();
    w.player_enter_ship(7, 1).unwrap();

    w.on_connected(8).unwrap();
    w.player_ready(8).unwrap();
    assert_eq!(w.player_enter_ship(8, 1), Err(ReducerError::ConstraintViolation));
    // The first pilot keeps the ship; the second caller stays on foot.
    assert_eq!(w.ship_pilots.len(), 1);
    assert_eq!(w.ship_pilots[0].player_id, 7);
    assert_eq!(w.player_locations.len(), 1);
    assert_eq!(w.player_locations[0].player_id, 8);
}

#[test]
fn enter_ship_while_piloting_fails_and_keeps_the_old_ship() {
    let mut w = fresh_world();
    w.on_connected(7).unwrap();
    w.player_ready(7).unwrap();
    let (x, y, z, rx, ry, rz, rw) = pose(10 * UNIT, 0, 0);
    w.player_spawn_ship(7, x, y, z, rx, ry, rz, rw).unwrap();
    w.player_spawn_ship(7, -x, y, z, rx, ry, rz, rw).unwrap();
    w.player_enter_ship(7, 1).unwrap();
    // Piloting means no on-foot location, so deleting it aborts the whole
    // transaction: the first pilot row survives untouched.
    assert_eq!(w.player_enter_ship(7, 2), Err(ReducerError::NotFound));
    assert_eq!(w.ship_pilots.len(), 1);
    assert_eq!(w.ship_pilots[0].ship_id, 1);
}

#[test]
fn leave_ship_round_trip_lands_ten_units_above_the_ship() {
    let mut w = fresh_world();
    w.on_connected(7).unwrap();
    w.player_ready(7).unwrap();
    let (x, y, z, rx, ry, rz, rw) = pose(10 * UNIT, 3 * UNIT, -2 * UNIT);
    w.player_spawn_ship(7, x, y, z, rx, ry, rz, rw).unwrap();
    w.player_enter_ship(7, 1).unwrap();
    assert_eq!(w.player_leave_ship(7), Ok(()));
    assert_eq!(w.ship_pilots.len(), 0);
    assert_eq!(w.player_locations.len(), 1);
    assert_eq!(w.player_locations[0].player_id, 7);
    assert_eq!(
        w.player_locations[0].pose,
        Pose {
            x: 10 * UNIT,
            y: 3 * UNIT + 10 * UNIT,
            z: -2 * UNIT,
            rot_x: 0,
            rot_y: 0,
            rot_z: 0,
            rot_w: UNIT,
        }
    );
    // The ship and its location are untouched by the round trip.
    assert_eq!(w.ships.len(), 1);
    assert_eq!(w.ship_locations[0].pose.y, 3 * UNIT);
}

#[test]
fn leave_ship_while_not_piloting_is_not_piloting() {
    let mut w = fresh_world();
    w.on_connected(7).unwrap();
    w.player_ready(7).unwrap();
    assert_eq!(w.player_leave_ship(7), Err(ReducerError::NotPiloting));
    assert_eq!(w.player_locations.len(), 1);
}

#[test]
fn leave_ship_exit_height_saturates_at_the_coordinate_limit() {
    let mut w = fresh_world();
    w.on_connected(7).unwrap();
    w.player_ready(7).unwrap();
    w.player_spawn_ship(7, 0, i64::MAX - UNIT, 0, 0, 0, 0, UNIT).unwrap();
    w.player_enter_ship(7, 1).unwrap();
    w.player_leave_ship(7).unwrap();
    assert_eq!(w.player_locations[0].pose.y, i64::MAX);
}

#[test]
fn move_ship_replaces_the_piloted_ships_location() {
    let mut w = fresh_world();
    w.on_connected(7).unwrap();
    w.player_ready(7).unwrap();
    let (x, y, z, rx, ry, rz, rw) = pose(10 * UNIT, 0, 0);
    w.player_spawn_ship(7, x, y, z, rx, ry, rz, rw).unwrap();
    w.player_enter_ship(7, 1).unwrap();
    assert_eq!(w.player_move_ship(7, UNIT, 2 * UNIT, 3 * UNIT, 0, UNIT, 0, 0), Ok(()));
    assert_eq!(w.ship_locations.len(), 1);
    assert_eq!(w.ship_locations[0].ship_id, 1);
    assert_eq!(
        w.ship_locations[0].pose,
        Pose { x: UNIT, y: 2 * UNIT, z: 3 * UNIT, rot_x: 0, rot_y: UNIT, rot_z: 0, rot_w: 0 }
    );
}

#[test]
fn move_ship_while_not_piloting_is_not_piloting_and_changes_nothing() {
    let mut w = fresh_world();
    w.on_connected(7).unwrap();
    w.player_ready(7).unwrap();
    let (x, y, z, rx, ry, rz, rw) = pose(10 * UNIT, 0, 0);
    w.player_spawn_ship(7, x, y, z, rx, ry, rz, rw).unwrap();
    let ships_before = w.ships.clone();
    let locs_before = w.ship_locations.clone();
    assert_eq!(
        w.player_move_ship(7, UNIT, UNIT, UNIT, 0, 0, 0, UNIT),
        Err(ReducerError::NotPiloting)
    );
    assert_eq!(w.ships, ships_before);
    assert_eq!(w.ship_locations, locs_before);
    assert_eq!(w.player_locations.len(), 1);
    assert_eq!(w.ship_pilots.len(), 0);
}

#[test]
fn disconnect_cascades_to_owned_ships_locations_and_pilots() {
    let mut w = fresh_world();
    // Player 7 owns two ships and pilots one; player 8 owns one ship.
    w.on_connected(7).unwrap();
    w.player_ready(7).unwrap();
    let (x, y, z, rx, ry, rz, rw) = pose(10 * UNIT, 0, 0);
    w.player_spawn_ship(7, x, y, z, rx, ry, rz, rw).unwrap();
    w.player_spawn_ship(7, -x, y, z, rx, ry, rz, rw).unwrap();
    w.player_enter_ship(7, 1).unwrap();

    w.on_connected(8).unwrap();
    w.player_ready(8).unwrap();
    w.player_spawn_ship(8, x, 5 * UNIT, z, rx, ry, rz, rw).unwrap();

    assert_eq!(w.on_disconnected(7), Ok(()));
    // Player 7, its ships (1 and 2), their locations and its pilot row are
    // gone; player 8's world is intact.
    assert_eq!(w.players.len(), 1);
    assert_eq!(w.players[0].id, 8);
    assert_eq!(w.ships.len(), 1);
    assert_eq!(w.ships[0].id, 3);
    assert_eq!(w.ships[0].owner_id, 8);
    assert_eq!(w.ship_locations.len(), 1);
    assert_eq!(w.ship_locations[0].ship_id, 3);
    assert_eq!(w.ship_pilots.len(), 0);
    assert_eq!(w.player_locations.len(), 1);
    assert_eq!(w.player_locations[0].player_id, 8);
}

#[test]
fn disconnect_of_absent_player_is_not_found_and_changes_nothing() {
    let mut w = fresh_world();
    w.on_connected(8).unwrap();
    assert_eq!(w.on_disconnected(7), Err(ReducerError::NotFound));
    assert_eq!(w.players.len(), 1);
}

#[test]
fn disconnect_deletes_pilot_row_of_a_borrowed_ship_but_not_the_ship() {
    let mut w = fresh_world();
    // Player 7 owns the ship; player 8 pilots it, then 8 disconnects.
    w.on_connected(7).unwrap();
    w.player_ready(7).unwrap();
    let (x, y, z, rx, ry, rz, rw) = pose(10 * UNIT, 0, 0);
    w.player_spawn_ship(7, x, y, z, rx, ry, rz, rw).unwrap();
    w.on_connected(8).unwrap();
    w.player_ready(8).unwrap();
    w.player_enter_ship(8, 1).unwrap();

    assert_eq!(w.on_disconnected(8), Ok(()));
    assert_eq!(w.ships.len(), 1);
    assert_eq!(w.ship_pilots.len(), 0);
    // And the owner disconnecting removes the ship even while another
    // player pilots it.
    let mut w2 = fresh_world();
    w2.on_connected(7).unwrap();
    w2.player_ready(7).unwrap();
    w2.player_spawn_ship(7, x, y, z, rx, ry, rz, rw).unwrap();
    w2.on_connected(8).unwrap();
    w2.player_ready(8).unwrap();
    w2.player_enter_ship(8, 1).unwrap();
    assert_eq!(w2.on_disconnected(7), Ok(()));
    assert_eq!(w2.ships.len(), 0);
    assert_eq!(w2.ship_pilots.len(), 0);
    assert_eq!(w2.ship_locations.len(), 0);
}

#[test]
fn full_session_scenario() {
    // Connect, ready, spawn, enter, disconnect: each step observable in the
    // tables, and the disconnect removes everything the player brought in.
    let mut w = fresh_world();
    w.on_connected(9).unwrap();
    assert_eq!(w.players.len(), 1);

    w.player_ready(9).unwrap();
    assert_eq!(w.player_locations.len(), 1);
    assert_eq!(w.player_locations[0].pose, w.players[0].pose);

    w.player_spawn_ship(9, 10 * UNIT, 0, 0, 0, 0, 0, UNIT).unwrap();
    assert_eq!(w.ships.len(), 1);
    assert_eq!(w.ships[0].owner_id, 9);
    assert_eq!(w.ship_locations[0].pose.x, 10 * UNIT);
    assert_eq!(w.ship_pilots.len(), 0);

    let ship_id = w.ships[0].id;
    w.player_enter_ship(9, ship_id).unwrap();
    assert_eq!(w.ship_pilots.len(), 1);
    assert_eq!(w.player_locations.len(), 0);

    w.on_disconnected(9).unwrap();
    assert_eq!(w.players.len(), 0);
    assert_eq!(w.ships.len(), 0);
    assert_eq!(w.ship_locations.len(), 0);
    assert_eq!(w.ship_pilots.len(), 0);
    assert_eq!(w.player_locations.len(), 0);
    // The static world survives the player.
    assert_eq!(w.stations.len(), 1);
    assert_eq!(w.asteroids.len(), 2);
}

#[test]
fn a_player_is_never_both_on_foot_and_piloting() {
    // The on-foot-xor-piloting discipline, observed concretely across a
    // whole session.
    let mut w = fresh_world();
    let check = |w: &World| {
        for p in &w.players {
            let on_foot = w.player_locations.iter().any(|l| l.player_id == p.id);
            let piloting = w.ship_pilots.iter().any(|sp| sp.player_id == p.id);
            assert!(!(on_foot && piloting));
        }
    };
    w.on_connected(7).unwrap();
    check(&w);
    w.player_ready(7).unwrap();
    check(&w);
    let (x, y, z, rx, ry, rz, rw) = pose(10 * UNIT, 0, 0);
    w.player_spawn_ship(7, x, y, z, rx, ry, rz, rw).unwrap();
    check(&w);
    w.player_enter_ship(7, 1).unwrap();
    check(&w);
    w.player_move_ship(7, x, y, z, rx, ry, rz, rw).unwrap();
    check(&w);
    w.player_leave_ship(7).unwrap();
    check(&w);
    w.on_disconnected(7).unwrap();
    check(&w);
}

#[test]
fn error_messages_match_the_reported_strings() {
    assert_eq!(ReducerError::NotFound.message(), "row not found");
    assert_eq!(ReducerError::ConstraintViolation.message(), "unique constraint violation");
    assert_eq!(ReducerError::NotPiloting.message(), "Player is not piloting a ship");
}

#[test]
fn schedule_row_constructor_leaves_id_unassigned() {
    let row = StationRotationUpdate::new(ScheduleAt::Interval(5_000));
    assert_eq!(row.scheduled_id, 0);
    assert_eq!(row.scheduled_at, ScheduleAt::Interval(5_000));
}
