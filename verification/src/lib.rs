//! Core simulation engine for a top-down "survive and collect" arcade game:
//! a player steers across a toroidal play area, collecting a roaming pickup
//! for score while spawned pursuers chase a predicted player position.
//!
//! All quantities are fixed-point integers: a coordinate, speed or time of
//! `UNIT` stands for one world unit (or second) and fractions are carried in
//! thousandths, so every computation is exact and every contract can speak
//! of its result precisely.

use vstd::prelude::*;

pub mod collide;
pub mod curve;
pub mod entity;
pub mod geom;
pub mod progress;
pub mod rng;
pub mod shake;
pub mod spawn;
pub mod world;
pub mod wrap;

verus! {

/// Fixed-point scale: values carry thousandths of a world unit.
pub const UNIT: i64 = 1000;

/// Half of `UNIT`; one half-turn when a phase is measured in `UNIT`ths of a turn.
pub const HALF_UNIT: i64 = 500;

/// `UNIT / sqrt(2)`, the component of a normalized diagonal direction.
pub const DIAG_UNIT: i64 = 707;

pub const PLAYER_RADIUS: i64 = 16 * UNIT;
pub const PLAYER_START_HEALTH: i32 = 3;
pub const MAX_HEALTH: i32 = 5;
pub const PLAYER_INVINCIBILITY_TIME: i64 = 2 * UNIT;
pub const PLAYER_ACCEL: i64 = 900 * UNIT;
pub const PLAYER_MAX_SPEED: i64 = 300 * UNIT;

pub const HIT_KNOCKBACK: i64 = 700 * UNIT;
pub const HIT_TRAUMA: i64 = 70 * UNIT;

pub const ENEMY_RADIUS: i64 = 14 * UNIT;
pub const ENEMY_PURPLE_COIN_SPAWN: i32 = 16;
/// Acceleration multiplier of the late-game pursuer archetype, in `UNIT`ths.
pub const ENEMY_PURPLE_ACCEL_MULTIPLIER: i64 = 750;

pub const ENEMY_MIN_ACCEL: i64 = 300 * UNIT;
pub const ENEMY_MAX_ACCEL: i64 = 600 * UNIT;
pub const ENEMY_MIN_SPEED: i64 = 200 * UNIT;
pub const ENEMY_MAX_SPEED: i64 = 500 * UNIT;
pub const ENEMY_COIN_PULL: i64 = 15 * UNIT;

pub const SPEED_MAX_DEVIATION: i64 = 50 * UNIT;
pub const ACCEL_MAX_DEVIATION: i64 = 25 * UNIT;

/// Per-score decay ratio of the speed difficulty curve, `e^(-0.15)` in `UNIT`ths.
pub const SPEED_DECAY_RATIO: i64 = 861;
/// Midpoint gain of the speed curve, `e^(0.15 * 20)` in `UNIT`ths.
pub const SPEED_MIDPOINT_GAIN: i64 = 20086;
/// Per-score decay ratio of the acceleration curve, `e^(-0.16)` in `UNIT`ths.
pub const ACCEL_DECAY_RATIO: i64 = 852;
/// Midpoint gain of the acceleration curve, `e^(0.16 * 20)` in `UNIT`ths.
pub const ACCEL_MIDPOINT_GAIN: i64 = 24533;

/// Knockback growth per world unit of overlap, `e^(0.002)` in `UNIT`ths.
pub const KNOCKBACK_GROWTH_RATIO: i64 = 1002;
/// Knockback decay per world unit of separation, `e^(-0.002)` in `UNIT`ths.
pub const KNOCKBACK_DECAY_RATIO: i64 = 998;
/// Ceiling on the knockback amplification factor, in `UNIT`ths.
pub const KNOCKBACK_FACTOR_CAP: i64 = 100_000;

pub const COIN_RADIUS: i64 = 8 * UNIT;

pub const HEALTH_MULTIPLE: i32 = 8;

/// Screen-shake oscillation frequencies, in whole turns per second.
pub const SHAKE_X_FREQUENCY: i64 = 10;
pub const SHAKE_Y_FREQUENCY: i64 = 1;
/// Per-tick blend factor pulling trauma toward zero, in `UNIT`ths.
pub const SHAKE_LERP: i64 = 150;

/// Largest coordinate magnitude the geometric primitives accept.
pub const COORD_LIMIT: i64 = 1_000_000_000;
/// Largest position magnitude a well-formed entity may hold.
pub const POS_LIMIT: i64 = 500_000_000;
/// Speed ceiling of the engine: impulses saturate here instead of overflowing.
pub const VEL_LIMIT: i64 = 1_000_000_000;
/// Largest half extent of the play area.
pub const HALF_EXTENT_LIMIT: i64 = 100_000_000;
/// Largest radius or wrap margin of an entity.
pub const RADIUS_LIMIT: i64 = 1_000_000;
/// Largest frame delta-time accepted, ten seconds.
pub const DT_LIMIT: i64 = 10 * UNIT;
/// Largest per-tick steering step accepted by the move-toward clamp.
pub const DELTA_LIMIT: i64 = 100_000_000;
/// Ceiling on a pursuer profile's speed and acceleration.
pub const PROFILE_LIMIT: i64 = 10_000_000;
/// Trauma saturates here instead of overflowing.
pub const TRAUMA_LIMIT: i64 = 1_000_000_000_000;

} // verus!
