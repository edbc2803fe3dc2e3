//! The table store itself, and the scheduled world-update reducer.

use vstd::prelude::*;
use vstd::string::StringExecFns;

use crate::state::{
    is_fighter_catalog_row, is_initial_station_row, rotated_station, seeded_asteroids, WorldView,
};
use crate::store::{table_push, table_view, unique_keys, Row};
use crate::tables::{
    Asteroid, Player, PlayerLocation, ScheduleAt, Ship, ShipLocation, ShipPilot, ShipType,
    Station, StationRotationUpdate,
};
use crate::units::{
    next_target_angle, Pose, DEFAULT_SHIP_TYPE_ID, STATIONS_ROTATION_SPEED,
    STATION_ROTATION_INTERVAL_MS, UNIT,
};

verus! {

/// The whole table store: one vector of rows per table, with unique primary
/// keys, plus the next id of each auto-increment column. Its abstraction is
/// `WorldView` (see `state`); reducers state their effect on that view.
pub struct World {
    pub players: Vec<Player>,
    pub player_locations: Vec<PlayerLocation>,
    pub ship_types: Vec<ShipType>,
    pub ships: Vec<Ship>,
    pub ship_locations: Vec<ShipLocation>,
    pub ship_pilots: Vec<ShipPilot>,
    pub stations: Vec<Station>,
    pub asteroids: Vec<Asteroid>,
    pub rotation_schedules: Vec<StationRotationUpdate>,
    pub next_ship_type_id: u64,
    pub next_ship_id: u64,
    pub next_station_id: u64,
    pub next_asteroid_id: u64,
    pub next_schedule_id: u64,
}

impl View for World {
    type V = WorldView;

    open spec fn view(&self) -> WorldView {
        WorldView {
            players: table_view(self.players@),
            player_locations: table_view(self.player_locations@),
            ship_types: table_view(self.ship_types@),
            ships: table_view(self.ships@),
            ship_locations: table_view(self.ship_locations@),
            ship_pilots: table_view(self.ship_pilots@),
            stations: table_view(self.stations@),
            asteroids: table_view(self.asteroids@),
            rotation_schedules: table_view(self.rotation_schedules@),
            next_ship_type_id: self.next_ship_type_id,
            next_ship_id: self.next_ship_id,
            next_station_id: self.next_station_id,
            next_asteroid_id: self.next_asteroid_id,
            next_schedule_id: self.next_schedule_id,
        }
    }
}

impl World {
    /// The store's representation invariant: every table's primary keys are
    /// unique, and the abstract state is well-formed. Constructors establish
    /// it and every reducer preserves it.
    pub open spec fn inv(self) -> bool {
        &&& unique_keys(self.players@)
        &&& unique_keys(self.player_locations@)
        &&& unique_keys(self.ship_types@)
        &&& unique_keys(self.ships@)
        &&& unique_keys(self.ship_locations@)
        &&& unique_keys(self.ship_pilots@)
        &&& unique_keys(self.stations@)
        &&& unique_keys(self.asteroids@)
        &&& unique_keys(self.rotation_schedules@)
        &&& self.view().wf()
    }

    /// An empty store, as the platform hands it to `init`.
    pub fn new() -> (w: World)
        ensures
            w.inv(),
            w@ == WorldView::initial(),
    {
        let w = World {
            players: Vec::new(),
            player_locations: Vec::new(),
            ship_types: Vec::new(),
            ships: Vec::new(),
            ship_locations: Vec::new(),
            ship_pilots: Vec::new(),
            stations: Vec::new(),
            asteroids: Vec::new(),
            rotation_schedules: Vec::new(),
            next_ship_type_id: 1,
            next_ship_id: 1,
            next_station_id: 1,
            next_asteroid_id: 1,
            next_schedule_id: 1,
        };
        proof {
            assert(w@ =~~= WorldView::initial());
        }
        w
    }

    /// Module installation: seed the ship type catalog, the one station, the
    /// asteroid belt and the recurring station-rotation schedule into an
    /// empty store. The ring of asteroid (x, z) positions is computed by the
    /// host (it involves trigonometry) and handed in as plain values.
    pub fn init(&mut self, now_ms: u64, asteroid_ring: &Vec<(i64, i64)>)
        requires
            old(self).inv(),
            old(self)@ == WorldView::initial(),
            asteroid_ring@.len() + 1 <= u64::MAX,
        ensures
            final(self).inv(),
            final(self)@.players == Map::<u64, Player>::empty(),
            final(self)@.player_locations == Map::<u64, PlayerLocation>::empty(),
            final(self)@.ships == Map::<u64, Ship>::empty(),
            final(self)@.ship_locations == Map::<u64, ShipLocation>::empty(),
            final(self)@.ship_pilots == Map::<u64, ShipPilot>::empty(),
            final(self)@.ship_types.dom() == set![DEFAULT_SHIP_TYPE_ID],
            is_fighter_catalog_row(final(self)@.ship_types[DEFAULT_SHIP_TYPE_ID]),
            final(self)@.stations.dom() == set![1u64],
            is_initial_station_row(final(self)@.stations[1], now_ms),
            final(self)@.asteroids == seeded_asteroids(asteroid_ring@),
            final(self)@.rotation_schedules.dom() == set![1u64],
            final(self)@.rotation_schedules[1] == (StationRotationUpdate {
                scheduled_id: 1,
                scheduled_at: ScheduleAt::Interval(STATION_ROTATION_INTERVAL_MS),
            }),
            final(self)@.next_ship_id == 1,
            final(self)@.next_ship_type_id == 2,
            final(self)@.next_station_id == 2,
            final(self)@.next_schedule_id == 2,
            final(self)@.next_asteroid_id == asteroid_ring@.len() + 1,
    {
        // The one catalog row: the "Fighter" ship type.
        let type_id = self.next_ship_type_id;
        table_push(&mut self.ship_types, ShipType {
            id: type_id,
            name: String::from_str("Fighter"),
            camera_offset_x: 0,
            camera_offset_y: 10 * UNIT,
            camera_offset_z: 40 * UNIT,
            mass: UNIT,
            linear_damping: UNIT,
            angular_damping: UNIT,
            thrust: 10_000 * UNIT,
            vertical_thrust: 1_000 * UNIT,
            lateral_thrust: 1_000 * UNIT,
            pitch_torque: 1_500 * UNIT,
            yaw_torque: 1_500 * UNIT,
            roll_torque: 2_000 * UNIT,
        });
        self.next_ship_type_id = type_id + 1;

        // The one station, rotating at the standard speed.
        let station_id = self.next_station_id;
        table_push(&mut self.stations, Station {
            id: station_id,
            name: String::from_str("Station Alpha"),
            x: 0,
            y: 0,
            z: 0,
            rotation_speed: STATIONS_ROTATION_SPEED,
            target_angle: 0,
            reach_angle_at: now_ms as u128,
        });
        self.next_station_id = station_id + 1;

        // The asteroid belt, one rock per ring position.
        proof {
            crate::store::lemma_table_view_empty(self.asteroids@);
        }
        seed_asteroids(&mut self.asteroids, asteroid_ring);
        self.next_asteroid_id = (asteroid_ring.len() as u64) + 1;

        // The self-re-arming schedule row that drives station rotation.
        let mut schedule = StationRotationUpdate::new(
            ScheduleAt::Interval(STATION_ROTATION_INTERVAL_MS),
        );
        let schedule_id = self.next_schedule_id;
        schedule.scheduled_id = schedule_id;
        table_push(&mut self.rotation_schedules, schedule);
        self.next_schedule_id = schedule_id + 1;

        proof {
            assert(self@.ship_types.dom() =~= set![DEFAULT_SHIP_TYPE_ID]);
            assert(self@.stations.dom() =~= set![1u64]);
            assert(self@.rotation_schedules.dom() =~= set![1u64]);
            assert(self@.wf());
        }
    }

    /// The scheduled station-rotation reducer: at each firing of the
    /// interval schedule, advance every station's rotation keyframe. The
    /// schedule row must be interval-typed; a one-shot schedule here is a
    /// deployment bug, which this precondition rules out.
    pub fn world_update_stations_rotation(
        &mut self,
        update: &StationRotationUpdate,
        now_ms: u64,
    )
        requires
            old(self).inv(),
            update.scheduled_at is Interval,
        ensures
            final(self).inv(),
            final(self)@ == old(self)@.tick_stations(update.scheduled_at->Interval_0, now_ms),
    {
        let interval_ms = match update.scheduled_at {
            ScheduleAt::Interval(ms) => ms,
            ScheduleAt::Time(_) => vstd::pervasive::unreached(),
        };
        rotate_all_stations(&mut self.stations, interval_ms, now_ms);
        proof {
            assert(self@ =~~= old(self)@.tick_stations(interval_ms, now_ms));
            assert(self@.wf()) by {
                let v = old(self)@;
                let w = self@;
                assert forall|k: u64| #[trigger] w.stations.contains_key(k)
                    implies w.stations[k].id == k && k < w.next_station_id
                        && w.stations[k].target_angle < crate::units::TAU_MICRORADIANS by {
                    assert(v.stations.contains_key(k));
                    assert(w.stations[k] == rotated_station(v.stations[k], interval_ms, now_ms));
                }
            }
        }
    }
}

/// Advance every station in the vector by one rotation tick, in place.
fn rotate_all_stations(stations: &mut Vec<Station>, interval_ms: u64, now_ms: u64)
    requires
        unique_keys(old(stations)@),
    ensures
        unique_keys(final(stations)@),
        table_view(final(stations)@) =~= Map::new(
            |k: u64| table_view(old(stations)@).contains_key(k),
            |k: u64| rotated_station(table_view(old(stations)@)[k], interval_ms, now_ms),
        ),
{
    let n = stations.len();
    let mut i: usize = 0;
    while i < n
        invariant
            n == stations@.len(),
            i <= n,
            forall|j: int| 0 <= j < i ==> stations@[j]
                == rotated_station(old(stations)@[j], interval_ms, now_ms),
            forall|j: int| i <= j < n ==> stations@[j] == old(stations)@[j],
            unique_keys(old(stations)@),
        decreases n - i,
    {
        let ghost pre = stations@;
        let row = stations.remove(i);
        let new_angle = next_target_angle(row.target_angle, row.rotation_speed, interval_ms);
        let reach_at: u128 = (now_ms as u128) + (interval_ms as u128);
        let new_row = Station { target_angle: new_angle, reach_angle_at: reach_at, ..row };
        let ghost nr = new_row;
        stations.insert(i, new_row);
        proof {
            pre.remove_ensures(i as int);
            pre.remove(i as int).insert_ensures(i as int, nr);
            assert(stations@ == pre.remove(i as int).insert(i as int, nr));
            assert(nr == rotated_station(pre[i as int], interval_ms, now_ms));
            assert forall|j: int| 0 <= j < n && j != i implies stations@[j] == pre[j] by {
                if j < i {
                    assert(stations@[j] == pre.remove(i as int)[j]);
                } else {
                    assert(stations@[j] == pre.remove(i as int)[j - 1]);
                    assert(pre.remove(i as int)[j - 1] == pre[j]);
                }
            }
            assert(stations@[i as int] == nr);
        }
        i = i + 1;
    }
    proof {
        lemma_table_view_rotated(old(stations)@, stations@, interval_ms, now_ms);
    }
}

/// Rotating every row pointwise rotates the table's view pointwise.
proof fn lemma_table_view_rotated(s1: Seq<Station>, s2: Seq<Station>, interval_ms: u64, now_ms: u64)
    requires
        s1.len() == s2.len(),
        unique_keys(s1),
        forall|j: int| 0 <= j < s1.len() ==> s2[j] == rotated_station(s1[j], interval_ms, now_ms),
    ensures
        unique_keys(s2),
        table_view(s2) =~= Map::new(
            |k: u64| table_view(s1).contains_key(k),
            |k: u64| rotated_station(table_view(s1)[k], interval_ms, now_ms),
        ),
    decreases s1.len(),
{
    assert(forall|j: int| 0 <= j < s2.len() ==> s2[j].key() == s1[j].key());
    if s1.len() > 0 {
        assert(unique_keys(s1.drop_last()));
        assert(forall|j: int| 0 <= j < s1.drop_last().len()
            ==> s2.drop_last()[j] == rotated_station(s1.drop_last()[j], interval_ms, now_ms));
        lemma_table_view_rotated(s1.drop_last(), s2.drop_last(), interval_ms, now_ms);
        assert(s2.last() == rotated_station(s1.last(), interval_ms, now_ms));
        assert(s2.last().key() == s1.last().key());
    }
}

/// Fill an empty asteroid table from the ring of (x, z) positions.
fn seed_asteroids(asteroids: &mut Vec<Asteroid>, ring: &Vec<(i64, i64)>)
    requires
        old(asteroids)@.len() == 0,
        ring@.len() + 1 <= u64::MAX,
    ensures
        unique_keys(final(asteroids)@),
        table_view(final(asteroids)@) =~= seeded_asteroids(ring@),
{
    let n = ring.len();
    let mut i: usize = 0;
    while i < n
        invariant
            n == ring@.len(),
            i <= n,
            n + 1 <= u64::MAX,
            unique_keys(asteroids@),
            table_view(asteroids@) =~= seeded_asteroids(ring@.take(i as int)),
        decreases n - i,
    {
        let xz = ring[i];
        let id = (i as u64) + 1;
        proof {
            assert(!table_view(asteroids@).contains_key(id));
        }
        table_push(asteroids, Asteroid {
            id,
            pose: Pose { x: xz.0, y: 0, z: xz.1, rot_x: 0, rot_y: 0, rot_z: 0, rot_w: UNIT },
            asteroid_type: (i % 5) as u8,
            scale: 10 * UNIT,
        });
        proof {
            assert(ring@.take(i + 1 as int).drop_last() =~= ring@.take(i as int));
            assert(table_view(asteroids@) =~= seeded_asteroids(ring@.take(i + 1 as int)));
        }
        i = i + 1;
    }
    proof {
        assert(ring@.take(n as int) =~= ring@);
    }
}

} // verus!
