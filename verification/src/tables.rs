//! The rows of the store's relational schema.
//!
//! Connection identities are modelled as plain `u64` values: the store only
//! ever compares them for equality. Timestamps are milliseconds since the
//! Unix epoch.

use vstd::prelude::*;

use crate::store::Row;
use crate::units::Pose;

verus! {

/// One connected player, keyed by its connection identity, together with the
/// last known on-foot pose that `player_ready` materializes.
#[derive(Clone, Copy, PartialEq, Eq, Structural, Debug)]
pub struct Player {
    pub id: u64,
    pub pose: Pose,
}

/// The on-foot location of a player; present exactly while the player is
/// walking around rather than piloting a ship. Keyed by the player's id.
#[derive(Clone, Copy, PartialEq, Eq, Structural, Debug)]
pub struct PlayerLocation {
    pub player_id: u64,
    pub pose: Pose,
}

/// A static catalog entry describing one kind of ship; seeded at
/// initialization and read-only afterwards. Masses, damping factors, thrusts
/// and torques are fixed-point values (see `units::UNIT`).
#[derive(Clone, PartialEq, Debug)]
pub struct ShipType {
    pub id: u64,
    pub name: String,
    pub camera_offset_x: i64,
    pub camera_offset_y: i64,
    pub camera_offset_z: i64,
    pub mass: i64,
    pub linear_damping: i64,
    pub angular_damping: i64,
    pub thrust: i64,
    pub vertical_thrust: i64,
    pub lateral_thrust: i64,
    pub pitch_torque: i64,
    pub yaw_torque: i64,
    pub roll_torque: i64,
}

/// One ship, keyed by an auto-incremented id and owned by the player that
/// spawned it.
#[derive(Clone, Copy, PartialEq, Eq, Structural, Debug)]
pub struct Ship {
    pub id: u64,
    pub ship_type_id: u64,
    pub owner_id: u64,
}

/// Where a ship currently stands; one row per ship, keyed by the ship's id.
#[derive(Clone, Copy, PartialEq, Eq, Structural, Debug)]
pub struct ShipLocation {
    pub ship_id: u64,
    pub pose: Pose,
}

impl ShipLocation {
    pub fn new(
        ship_id: u64,
        x: i64,
        y: i64,
        z: i64,
        rot_x: i64,
        rot_y: i64,
        rot_z: i64,
        rot_w: i64,
    ) -> (r: ShipLocation)
        ensures
            r == (ShipLocation { ship_id, pose: Pose { x, y, z, rot_x, rot_y, rot_z, rot_w } }),
    {
        ShipLocation { ship_id, pose: Pose { x, y, z, rot_x, rot_y, rot_z, rot_w } }
    }
}

/// The association between a ship and the player currently piloting it.
/// Keyed by the ship's id; a player appears as pilot in at most one row.
#[derive(Clone, Copy, PartialEq, Eq, Structural, Debug)]
pub struct ShipPilot {
    pub ship_id: u64,
    pub player_id: u64,
}

/// A space station: a static name and position plus the dynamic rotation
/// keyframe the scheduler advances. `target_angle` is in microradians and
/// always lies in `[0, TAU_MICRORADIANS)`; `reach_angle_at` is the absolute
/// time, in milliseconds, at which that angle will be reached.
#[derive(Clone, PartialEq, Debug)]
pub struct Station {
    pub id: u64,
    pub name: String,
    pub x: i64,
    pub y: i64,
    pub z: i64,
    pub rotation_speed: u64,
    pub target_angle: u64,
    pub reach_angle_at: u128,
}

/// A static decoration rock, seeded once at initialization.
#[derive(Clone, Copy, PartialEq, Eq, Structural, Debug)]
pub struct Asteroid {
    pub id: u64,
    pub pose: Pose,
    pub asteroid_type: u8,
    pub scale: i64,
}

/// When a scheduled reducer fires: repeatedly, every `Interval` milliseconds,
/// or once at an absolute `Time` in milliseconds.
#[derive(Clone, Copy, PartialEq, Eq, Structural, Debug)]
pub enum ScheduleAt {
    Interval(u64),
    Time(u128),
}

/// The scheduler row that makes the station rotation reducer fire; inserted
/// once at initialization with an interval schedule, so it re-arms itself.
#[derive(Clone, Copy, PartialEq, Eq, Structural, Debug)]
pub struct StationRotationUpdate {
    pub scheduled_id: u64,
    pub scheduled_at: ScheduleAt,
}

impl StationRotationUpdate {
    /// A fresh schedule row; the store assigns the real id on insertion.
    pub fn new(scheduled_at: ScheduleAt) -> (r: StationRotationUpdate)
        ensures
            r == (StationRotationUpdate { scheduled_id: 0, scheduled_at }),
    {
        StationRotationUpdate { scheduled_id: 0, scheduled_at }
    }
}

/// Why a reducer refused to run. Every error leaves the store unchanged.
#[derive(Clone, Copy, PartialEq, Eq, Structural, Debug)]
pub enum ReducerError {
    /// A row the reducer's precondition requires is absent.
    NotFound,
    /// An insert collided with a primary or unique key.
    ConstraintViolation,
    /// The calling player has no ship pilot row.
    NotPiloting,
}

impl ReducerError {
    /// The human-readable message reported to the calling client.
    pub fn message(&self) -> (m: &'static str)
        ensures
            *self == ReducerError::NotFound ==> m@ == "row not found"@,
            *self == ReducerError::ConstraintViolation ==> m@ == "unique constraint violation"@,
            *self == ReducerError::NotPiloting ==> m@ == "Player is not piloting a ship"@,
    {
        match self {
            ReducerError::NotFound => "row not found",
            ReducerError::ConstraintViolation => "unique constraint violation",
            ReducerError::NotPiloting => "Player is not piloting a ship",
        }
    }
}

impl Row for Player {
    open spec fn key(self) -> u64 {
        self.id
    }

    fn read_key(&self) -> u64 {
        self.id
    }
}

impl Row for PlayerLocation {
    open spec fn key(self) -> u64 {
        self.player_id
    }

    fn read_key(&self) -> u64 {
        self.player_id
    }
}

impl Row for ShipType {
    open spec fn key(self) -> u64 {
        self.id
    }

    fn read_key(&self) -> u64 {
        self.id
    }
}

impl Row for Ship {
    open spec fn key(self) -> u64 {
        self.id
    }

    fn read_key(&self) -> u64 {
        self.id
    }
}

impl Row for ShipLocation {
    open spec fn key(self) -> u64 {
        self.ship_id
    }

    fn read_key(&self) -> u64 {
        self.ship_id
    }
}

impl Row for ShipPilot {
    open spec fn key(self) -> u64 {
        self.ship_id
    }

    fn read_key(&self) -> u64 {
        self.ship_id
    }
}

impl Row for Station {
    open spec fn key(self) -> u64 {
        self.id
    }

    fn read_key(&self) -> u64 {
        self.id
    }
}

impl Row for Asteroid {
    open spec fn key(self) -> u64 {
        self.id
    }

    fn read_key(&self) -> u64 {
        self.id
    }
}

impl Row for StationRotationUpdate {
    open spec fn key(self) -> u64 {
        self.scheduled_id
    }

    fn read_key(&self) -> u64 {
        self.scheduled_id
    }
}

} // verus!
