//! Fixed-point units for positions, rotations and angles.
//!
//! Every position coordinate and quaternion component in the store is an
//! `i64` counted in millionths of a world unit, and every angle is a `u64`
//! counted in microradians. The hosts of the store convert between these and
//! whatever floating-point representation their renderer or physics engine
//! uses; inside the library all arithmetic is exact.

use vstd::prelude::*;

verus! {

/// One world unit, in fixed-point sub-units (millionths).
pub const UNIT: i64 = 1_000_000;

/// One full turn (2 * pi radians) in microradians, rounded down.
pub const TAU_MICRORADIANS: u64 = 6_283_185;

/// How fast stations rotate, in microradians per second.
pub const STATIONS_ROTATION_SPEED: u64 = 10_000;

/// Cadence of the station rotation tick, in milliseconds.
pub const STATION_ROTATION_INTERVAL_MS: u64 = 5_000;

/// Vertical offset (ten world units) applied to a ship's position when a
/// player climbs out of it, as a placeholder "safe position" heuristic.
pub const PLAYER_EXIT_OFFSET_Y: i64 = 10 * 1_000_000;

/// The ship type newly spawned ships are given.
pub const DEFAULT_SHIP_TYPE_ID: u64 = 1;

/// A position (x, y, z) together with a rotation quaternion
/// (rot_x, rot_y, rot_z, rot_w), all in fixed-point sub-units.
#[derive(Clone, Copy, PartialEq, Eq, Structural, Debug)]
pub struct Pose {
    pub x: i64,
    pub y: i64,
    pub z: i64,
    pub rot_x: i64,
    pub rot_y: i64,
    pub rot_z: i64,
    pub rot_w: i64,
}

/// `a + b`, clamped to the range of `i64`.
pub open spec fn sat_add(a: i64, b: i64) -> i64 {
    if a + b > i64::MAX {
        i64::MAX
    } else if a + b < i64::MIN {
        i64::MIN
    } else {
        (a + b) as i64
    }
}

impl Pose {
    /// The origin with the identity rotation: where new players start.
    pub open spec fn spec_initial() -> Pose {
        Pose { x: 0, y: 0, z: 0, rot_x: 0, rot_y: 0, rot_z: 0, rot_w: UNIT }
    }

    pub fn initial() -> (p: Pose)
        ensures
            p == Pose::spec_initial(),
    {
        Pose { x: 0, y: 0, z: 0, rot_x: 0, rot_y: 0, rot_z: 0, rot_w: UNIT }
    }

    /// This pose lifted `PLAYER_EXIT_OFFSET_Y` along the y axis: where a
    /// player is placed on leaving a ship standing at `self`.
    pub open spec fn spec_exit(self) -> Pose {
        Pose { y: sat_add(self.y, PLAYER_EXIT_OFFSET_Y), ..self }
    }

    pub fn exit_pose(self) -> (r: Pose)
        ensures
            r == self.spec_exit(),
    {
        let y = if self.y <= i64::MAX - PLAYER_EXIT_OFFSET_Y {
            self.y + PLAYER_EXIT_OFFSET_Y
        } else {
            i64::MAX
        };
        Pose { y, ..self }
    }
}

/// The angle a station will have reached one tick after standing at `angle`:
/// `rotation_speed` microradians per second for `interval_ms` milliseconds,
/// wrapped into `[0, TAU_MICRORADIANS)`.
pub open spec fn spec_next_target_angle(angle: u64, speed: u64, interval_ms: u64) -> u64 {
    (((angle as int) + (speed as int) * (interval_ms as int) / 1000) % (TAU_MICRORADIANS as int)) as u64
}

pub fn next_target_angle(angle: u64, speed: u64, interval_ms: u64) -> (r: u64)
    ensures
        r == spec_next_target_angle(angle, speed, interval_ms),
        r < TAU_MICRORADIANS,
{
    proof {
        assert((speed as int) * (interval_ms as int) <= (u64::MAX as int) * (u64::MAX as int))
            by (nonlinear_arith)
            requires
                speed <= u64::MAX,
                interval_ms <= u64::MAX,
        ;
    }
    let delta: u128 = (speed as u128) * (interval_ms as u128) / 1000;
    let total: u128 = (angle as u128) + delta;
    (total % (TAU_MICRORADIANS as u128)) as u64
}

} // verus!
