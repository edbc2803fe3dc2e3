//! The abstract state of the store and the transition each reducer performs
//! on it.
//!
//! `WorldView` is the mathematical model of the whole table store: one map
//! per table, from primary key to row, plus the auto-increment counters.
//! Every reducer's contract says that on success the store's view equals one
//! of the transition functions below applied to the old view, and that on an
//! error the store is unchanged — the all-or-nothing transaction semantics.

use vstd::prelude::*;

use crate::tables::{
    Asteroid, Player, PlayerLocation, ReducerError, Ship, ShipLocation, ShipPilot, ShipType,
    Station, StationRotationUpdate,
};
use crate::units::{
    Pose, spec_next_target_angle, DEFAULT_SHIP_TYPE_ID, STATIONS_ROTATION_SPEED, TAU_MICRORADIANS,
    UNIT,
};

verus! {

/// The abstract state: each table as a map from primary key to row, and the
/// next id each auto-increment column will hand out.
#[verifier::ext_equal]
pub ghost struct WorldView {
    pub players: Map<u64, Player>,
    pub player_locations: Map<u64, PlayerLocation>,
    pub ship_types: Map<u64, ShipType>,
    pub ships: Map<u64, Ship>,
    pub ship_locations: Map<u64, ShipLocation>,
    pub ship_pilots: Map<u64, ShipPilot>,
    pub stations: Map<u64, Station>,
    pub asteroids: Map<u64, Asteroid>,
    pub rotation_schedules: Map<u64, StationRotationUpdate>,
    pub next_ship_type_id: u64,
    pub next_ship_id: u64,
    pub next_station_id: u64,
    pub next_asteroid_id: u64,
    pub next_schedule_id: u64,
}

/// `m` without the rows whose pilot is `p` (at most one, in a well-formed
/// state).
pub open spec fn pilots_minus_player(m: Map<u64, ShipPilot>, p: u64) -> Map<u64, ShipPilot> {
    Map::new(|s: u64| m.contains_key(s) && m[s].player_id != p, |s: u64| m[s])
}

/// The keys of the ships in `ships` whose owner is `p`.
pub open spec fn owned_ship_ids(ships: Map<u64, Ship>, p: u64) -> Set<u64> {
    Set::new(|s: u64| ships.contains_key(s) && ships[s].owner_id == p)
}

impl WorldView {
    /// The state of a freshly installed module: every table empty, every
    /// auto-increment counter about to hand out id 1.
    pub open spec fn initial() -> WorldView {
        WorldView {
            players: Map::empty(),
            player_locations: Map::empty(),
            ship_types: Map::empty(),
            ships: Map::empty(),
            ship_locations: Map::empty(),
            ship_pilots: Map::empty(),
            stations: Map::empty(),
            asteroids: Map::empty(),
            rotation_schedules: Map::empty(),
            next_ship_type_id: 1,
            next_ship_id: 1,
            next_station_id: 1,
            next_asteroid_id: 1,
            next_schedule_id: 1,
        }
    }

    /// Well-formedness of the whole store:
    /// - every row agrees with the key it is filed under;
    /// - referential integrity: locations and pilot rows reference existing
    ///   players and ships, and every ship has exactly one location;
    /// - a player pilots at most one ship (the unique constraint on the
    ///   pilot table's player column);
    /// - ids already handed out lie below the auto-increment counters;
    /// - station target angles lie in `[0, TAU_MICRORADIANS)`.
    pub open spec fn wf(self) -> bool {
        &&& forall|k: u64| #[trigger] self.players.contains_key(k) ==> self.players[k].id == k
        &&& forall|k: u64| #[trigger] self.player_locations.contains_key(k)
            ==> self.player_locations[k].player_id == k && self.players.contains_key(k)
        &&& forall|k: u64| #[trigger] self.ship_types.contains_key(k)
            ==> self.ship_types[k].id == k && k < self.next_ship_type_id
        &&& forall|k: u64| #[trigger] self.ships.contains_key(k)
            ==> self.ships[k].id == k && k < self.next_ship_id
                && self.ship_locations.contains_key(k)
        &&& forall|k: u64| #[trigger] self.ship_locations.contains_key(k)
            ==> self.ship_locations[k].ship_id == k && self.ships.contains_key(k)
        &&& forall|k: u64| #[trigger] self.ship_pilots.contains_key(k)
            ==> self.ship_pilots[k].ship_id == k && self.ships.contains_key(k)
                && self.players.contains_key(self.ship_pilots[k].player_id)
        &&& forall|s1: u64, s2: u64|
            #[trigger] self.ship_pilots.contains_key(s1) && #[trigger] self.ship_pilots.contains_key(s2)
                && self.ship_pilots[s1].player_id == self.ship_pilots[s2].player_id ==> s1 == s2
        &&& forall|k: u64| #[trigger] self.stations.contains_key(k)
            ==> self.stations[k].id == k && k < self.next_station_id
                && self.stations[k].target_angle < TAU_MICRORADIANS
        &&& forall|k: u64| #[trigger] self.asteroids.contains_key(k)
            ==> self.asteroids[k].id == k && k < self.next_asteroid_id
        &&& forall|k: u64| #[trigger] self.rotation_schedules.contains_key(k)
            ==> self.rotation_schedules[k].scheduled_id == k && k < self.next_schedule_id
    }

    /// Does player `p` currently pilot some ship?
    pub open spec fn is_piloting(self, p: u64) -> bool {
        exists|s: u64| #[trigger] self.ship_pilots.contains_key(s) && self.ship_pilots[s].player_id == p
    }

    /// The ship player `p` pilots (meaningful only when `is_piloting(p)`).
    pub open spec fn piloted_ship(self, p: u64) -> u64 {
        choose|s: u64| #[trigger] self.ship_pilots.contains_key(s) && self.ship_pilots[s].player_id == p
    }

    /// The ids of the ships owned by player `p`.
    pub open spec fn owned_ships(self, p: u64) -> Set<u64> {
        owned_ship_ids(self.ships, p)
    }

    /// Every player is either on foot (has a player location) or piloting a
    /// ship (appears in a pilot row), never both.
    pub open spec fn on_foot_xor_piloting(self) -> bool {
        forall|p: u64| #[trigger] self.player_locations.contains_key(p) ==> !self.is_piloting(p)
    }

    // --- client connects ---

    pub open spec fn connect_ok(self, sender: u64) -> bool {
        !self.players.contains_key(sender)
    }

    /// A new player row at the origin with the identity rotation.
    pub open spec fn connect(self, sender: u64) -> WorldView {
        WorldView {
            players: self.players.insert(sender, Player { id: sender, pose: Pose::spec_initial() }),
            ..self
        }
    }

    // --- client disconnects ---

    pub open spec fn disconnect_ok(self, sender: u64) -> bool {
        self.players.contains_key(sender)
    }

    /// The player row goes, and the deletion cascades: the player's on-foot
    /// location, any pilot row it appears in, every ship it owns, and those
    /// ships' locations and pilot rows.
    pub open spec fn disconnect(self, p: u64) -> WorldView {
        WorldView {
            players: self.players.remove(p),
            player_locations: self.player_locations.remove(p),
            ships: self.ships.remove_keys(self.owned_ships(p)),
            ship_locations: self.ship_locations.remove_keys(self.owned_ships(p)),
            ship_pilots: pilots_minus_player(self.ship_pilots, p).remove_keys(self.owned_ships(p)),
            ..self
        }
    }

    // --- player_ready ---

    pub open spec fn ready_ok(self, p: u64) -> bool {
        self.players.contains_key(p) && !self.player_locations.contains_key(p)
    }

    pub open spec fn ready_err(self, p: u64) -> ReducerError {
        if !self.players.contains_key(p) {
            ReducerError::NotFound
        } else {
            ReducerError::ConstraintViolation
        }
    }

    /// Materialize the player's on-foot location from its stored pose.
    pub open spec fn ready(self, p: u64) -> WorldView {
        WorldView {
            player_locations: self.player_locations.insert(
                p,
                PlayerLocation { player_id: p, pose: self.players[p].pose },
            ),
            ..self
        }
    }

    // --- player_spawn_ship ---

    /// A new ship of the default type owned by `p`, with its location at the
    /// client-supplied pose; the caller stays on foot and no pilot row is
    /// created.
    pub open spec fn spawn_ship(self, p: u64, pose: Pose) -> WorldView {
        WorldView {
            ships: self.ships.insert(
                self.next_ship_id,
                Ship { id: self.next_ship_id, ship_type_id: DEFAULT_SHIP_TYPE_ID, owner_id: p },
            ),
            ship_locations: self.ship_locations.insert(
                self.next_ship_id,
                ShipLocation { ship_id: self.next_ship_id, pose },
            ),
            next_ship_id: (self.next_ship_id + 1) as u64,
            ..self
        }
    }

    // --- player_enter_ship ---

    /// The ship must exist, must not be piloted by somebody else, and the
    /// caller must currently be on foot (the location row is deleted, and
    /// deleting a missing row aborts the transaction).
    pub open spec fn enter_ship_ok(self, p: u64, ship_id: u64) -> bool {
        &&& self.ships.contains_key(ship_id)
        &&& (self.ship_pilots.contains_key(ship_id) ==> self.ship_pilots[ship_id].player_id == p)
        &&& self.player_locations.contains_key(p)
    }

    pub open spec fn enter_ship_err(self, p: u64, ship_id: u64) -> ReducerError {
        if !self.ships.contains_key(ship_id) {
            ReducerError::NotFound
        } else if self.ship_pilots.contains_key(ship_id) && self.ship_pilots[ship_id].player_id != p {
            ReducerError::ConstraintViolation
        } else {
            ReducerError::NotFound
        }
    }

    /// Any pilot row the caller already had goes, the caller becomes the
    /// ship's pilot, and the caller's on-foot location goes.
    pub open spec fn enter_ship(self, p: u64, ship_id: u64) -> WorldView {
        WorldView {
            ship_pilots: pilots_minus_player(self.ship_pilots, p).insert(
                ship_id,
                ShipPilot { ship_id, player_id: p },
            ),
            player_locations: self.player_locations.remove(p),
            ..self
        }
    }

    // --- player_leave_ship ---

    /// The caller must be piloting, and must not already have an on-foot
    /// location (creating a duplicate would abort the transaction).
    pub open spec fn leave_ship_ok(self, p: u64) -> bool {
        self.is_piloting(p) && !self.player_locations.contains_key(p)
    }

    pub open spec fn leave_ship_err(self, p: u64) -> ReducerError {
        if !self.is_piloting(p) {
            ReducerError::NotPiloting
        } else {
            ReducerError::ConstraintViolation
        }
    }

    /// The pilot row goes and the caller lands on foot just above the ship:
    /// at the ship's current location lifted by `PLAYER_EXIT_OFFSET_Y`.
    pub open spec fn leave_ship(self, p: u64) -> WorldView {
        let sid = self.piloted_ship(p);
        WorldView {
            ship_pilots: self.ship_pilots.remove(sid),
            player_locations: self.player_locations.insert(
                p,
                PlayerLocation { player_id: p, pose: self.ship_locations[sid].pose.spec_exit() },
            ),
            ..self
        }
    }

    // --- player_move_ship ---

    pub open spec fn move_ship_ok(self, p: u64) -> bool {
        self.is_piloting(p)
    }

    /// Full replace of the piloted ship's location with the client-supplied
    /// pose; the server trusts the client's transform.
    pub open spec fn move_ship(self, p: u64, pose: Pose) -> WorldView {
        let sid = self.piloted_ship(p);
        WorldView {
            ship_locations: self.ship_locations.insert(sid, ShipLocation { ship_id: sid, pose }),
            ..self
        }
    }

    // --- world_update_stations_rotation ---

    /// Every station advances to its next rotation keyframe; nothing else
    /// moves.
    pub open spec fn tick_stations(self, interval_ms: u64, now_ms: u64) -> WorldView {
        WorldView {
            stations: Map::new(
                |k: u64| self.stations.contains_key(k),
                |k: u64| rotated_station(self.stations[k], interval_ms, now_ms),
            ),
            ..self
        }
    }
}

/// One rotation tick applied to one station: the target angle advances by
/// `rotation_speed` microradians per second over the interval, wrapped into
/// `[0, TAU_MICRORADIANS)`, and the keyframe's arrival time becomes
/// `now_ms + interval_ms`. Name, position and speed stay.
pub open spec fn rotated_station(st: Station, interval_ms: u64, now_ms: u64) -> Station {
    Station {
        target_angle: spec_next_target_angle(st.target_angle, st.rotation_speed, interval_ms),
        reach_angle_at: ((now_ms as int) + (interval_ms as int)) as u128,
        ..st
    }
}

/// The asteroid belt seeded at initialization from a ring of (x, z)
/// positions: asteroid `k` (ids start at 1) sits at ring position `k - 1`,
/// level with the plane, unrotated, ten units across, with its kind cycling
/// through the five asteroid models.
pub open spec fn seeded_asteroids(ring: Seq<(i64, i64)>) -> Map<u64, Asteroid> {
    Map::new(
        |k: u64| 1 <= k && k <= ring.len(),
        |k: u64| Asteroid {
            id: k,
            pose: Pose {
                x: ring[k as int - 1].0,
                y: 0,
                z: ring[k as int - 1].1,
                rot_x: 0,
                rot_y: 0,
                rot_z: 0,
                rot_w: UNIT,
            },
            asteroid_type: (((k as int) - 1) % 5) as u8,
            scale: (10 * UNIT) as i64,
        },
    )
}

/// The one catalog row seeded at initialization: the "Fighter" ship type
/// with its camera offsets, mass, damping, thrust and torque coefficients.
pub open spec fn is_fighter_catalog_row(t: ShipType) -> bool {
    &&& t.id == DEFAULT_SHIP_TYPE_ID
    &&& t.name@ == "Fighter"@
    &&& t.camera_offset_x == 0
    &&& t.camera_offset_y == 10 * UNIT
    &&& t.camera_offset_z == 40 * UNIT
    &&& t.mass == UNIT
    &&& t.linear_damping == UNIT
    &&& t.angular_damping == UNIT
    &&& t.thrust == 10_000 * UNIT
    &&& t.vertical_thrust == 1_000 * UNIT
    &&& t.lateral_thrust == 1_000 * UNIT
    &&& t.pitch_torque == 1_500 * UNIT
    &&& t.yaw_torque == 1_500 * UNIT
    &&& t.roll_torque == 2_000 * UNIT
}

/// The one station seeded at initialization: "Station Alpha" at the origin,
/// rotating at the standard speed, with its first keyframe at `now_ms`.
pub open spec fn is_initial_station_row(st: Station, now_ms: u64) -> bool {
    &&& st.id == 1
    &&& st.name@ == "Station Alpha"@
    &&& st.x == 0
    &&& st.y == 0
    &&& st.z == 0
    &&& st.rotation_speed == STATIONS_ROTATION_SPEED
    &&& st.target_angle == 0
    &&& st.reach_angle_at == now_ms as u128
}

/// Removing the one row piloted by `p` (pilot columns are unique) is the
/// same as dropping every row piloted by `p`.
pub proof fn lemma_pilots_remove_row(v: WorldView, p: u64, sid: u64)
    requires
        v.wf(),
        v.ship_pilots.contains_key(sid),
        v.ship_pilots[sid].player_id == p,
    ensures
        v.ship_pilots.remove(sid) =~= pilots_minus_player(v.ship_pilots, p),
{
    let m = v.ship_pilots;
    assert forall|s: u64| m.remove(sid).contains_key(s)
        implies pilots_minus_player(m, p).contains_key(s) by {
        assert(m.contains_key(s) && s != sid);
        assert(m[s].player_id != p);
    }
}

/// When no row is piloted by `p`, dropping `p`'s rows changes nothing.
pub proof fn lemma_pilots_minus_absent(m: Map<u64, ShipPilot>, p: u64)
    requires
        forall|s: u64| #[trigger] m.contains_key(s) ==> m[s].player_id != p,
    ensures
        pilots_minus_player(m, p) =~= m,
{
}

// --- every transition preserves well-formedness ---

pub proof fn lemma_connect_preserves_wf(v: WorldView, sender: u64)
    requires
        v.wf(),
        v.connect_ok(sender),
    ensures
        v.connect(sender).wf(),
{
}

pub proof fn lemma_disconnect_preserves_wf(v: WorldView, p: u64)
    requires
        v.wf(),
    ensures
        v.disconnect(p).wf(),
{
    let w = v.disconnect(p);
    assert forall|k: u64| #[trigger] w.ships.contains_key(k)
        implies w.ships[k].id == k && k < w.next_ship_id && w.ship_locations.contains_key(k) by {
        assert(v.ships.contains_key(k));
    }
    assert forall|k: u64| #[trigger] w.ship_pilots.contains_key(k)
        implies w.ship_pilots[k].ship_id == k && w.ships.contains_key(k)
            && w.players.contains_key(w.ship_pilots[k].player_id) by {
        assert(v.ship_pilots.contains_key(k));
    }
}

pub proof fn lemma_ready_preserves_wf(v: WorldView, p: u64)
    requires
        v.wf(),
        v.ready_ok(p),
    ensures
        v.ready(p).wf(),
{
}

pub proof fn lemma_spawn_preserves_wf(v: WorldView, p: u64, pose: Pose)
    requires
        v.wf(),
        v.next_ship_id < u64::MAX,
    ensures
        v.spawn_ship(p, pose).wf(),
{
    let w = v.spawn_ship(p, pose);
    assert(!v.ships.contains_key(v.next_ship_id));
    assert(!v.ship_locations.contains_key(v.next_ship_id));
}

pub proof fn lemma_enter_preserves_wf(v: WorldView, p: u64, ship_id: u64)
    requires
        v.wf(),
        v.enter_ship_ok(p, ship_id),
    ensures
        v.enter_ship(p, ship_id).wf(),
{
    let w = v.enter_ship(p, ship_id);
    assert(v.players.contains_key(p));
    assert forall|k: u64| #[trigger] w.ship_pilots.contains_key(k)
        implies w.ship_pilots[k].ship_id == k && w.ships.contains_key(k)
            && w.players.contains_key(w.ship_pilots[k].player_id) by {
        if k != ship_id {
            assert(v.ship_pilots.contains_key(k));
        }
    }
    assert forall|s1: u64, s2: u64|
        #[trigger] w.ship_pilots.contains_key(s1) && #[trigger] w.ship_pilots.contains_key(s2)
            && w.ship_pilots[s1].player_id == w.ship_pilots[s2].player_id implies s1 == s2 by {
        if s1 != ship_id && s2 != ship_id {
            assert(v.ship_pilots.contains_key(s1));
            assert(v.ship_pilots.contains_key(s2));
        }
    }
}

pub proof fn lemma_leave_preserves_wf(v: WorldView, p: u64)
    requires
        v.wf(),
        v.leave_ship_ok(p),
    ensures
        v.leave_ship(p).wf(),
{
    let sid = v.piloted_ship(p);
    assert(v.ship_pilots.contains_key(sid) && v.ship_pilots[sid].player_id == p);
    assert(v.players.contains_key(p));
}

pub proof fn lemma_move_preserves_wf(v: WorldView, p: u64, pose: Pose)
    requires
        v.wf(),
        v.move_ship_ok(p),
    ensures
        v.move_ship(p, pose).wf(),
{
    let sid = v.piloted_ship(p);
    assert(v.ship_pilots.contains_key(sid) && v.ship_pilots[sid].player_id == p);
    assert(v.ships.contains_key(sid));
}

} // verus!
