//! Entity records: the spatial state every simulation entity carries, the
//! immutable per-pursuer tuning profile, and their well-formedness.

use vstd::prelude::*;

use crate::geom::{in_box, Vec2};
use crate::progress::CoreError;
use crate::{ENEMY_MIN_ACCEL, ENEMY_MIN_SPEED, POS_LIMIT, PROFILE_LIMIT, RADIUS_LIMIT, UNIT, VEL_LIMIT};

verus! {

/// Role tag of an entity in the per-tick snapshot handed to the shell.
#[derive(Clone, Copy, PartialEq, Eq, Structural, Debug)]
pub enum Role {
    Player,
    Pursuer,
    Pickup,
}

/// Spatial state of one simulation entity: position and velocity in fixed
/// point, the collision radius, and the per-entity wrap margin.
#[derive(Clone, Copy, PartialEq, Eq, Structural, Debug)]
pub struct Body {
    pub position: Vec2,
    pub velocity: Vec2,
    pub radius: i64,
    pub wrap_margin: i64,
}

pub open spec fn body_wf(b: Body) -> bool {
    in_box(b.position, POS_LIMIT as int) && in_box(b.velocity, VEL_LIMIT as int) && 0 <= b.radius
        <= RADIUS_LIMIT && 0 <= b.wrap_margin <= RADIUS_LIMIT
}

/// Immutable per-pursuer tuning, drawn from the difficulty curve at spawn
/// time: top speed, steering acceleration, how far ahead of the player it
/// aims, how strongly the pickup attracts (or repels) it, and whether its
/// tracking is toroidal-aware.
#[derive(Clone, Copy, PartialEq, Eq, Structural, Debug)]
pub struct PursuerProfile {
    pub max_speed: i64,
    pub max_accel: i64,
    pub future_prediction: i64,
    pub coin_pull: i64,
    pub wraps: bool,
}

pub open spec fn profile_wf(p: PursuerProfile) -> bool {
    0 < p.max_speed <= PROFILE_LIMIT && 0 < p.max_accel <= PROFILE_LIMIT && 0
        <= p.future_prediction <= UNIT && -UNIT <= p.coin_pull <= UNIT
}

impl Default for PursuerProfile {
    /// The mildest pursuer: minimum speed and acceleration, pure pursuit
    /// with no lead, no pickup pull, straight-line tracking.
    fn default() -> (p: Self)
        ensures
            p.max_speed == ENEMY_MIN_SPEED,
            p.max_accel == ENEMY_MIN_ACCEL,
            p.future_prediction == 0,
            p.coin_pull == 0,
            !p.wraps,
            profile_wf(p),
    {
        PursuerProfile {
            max_speed: ENEMY_MIN_SPEED,
            max_accel: ENEMY_MIN_ACCEL,
            future_prediction: 0,
            coin_pull: 0,
            wraps: false,
        }
    }
}

impl PursuerProfile {
    /// Fail-fast spawn-parameter validation: a zero or negative speed or
    /// acceleration, or an out-of-range prediction or pull, is rejected
    /// here rather than let loose as a corrupt pursuer.
    pub fn new(
        max_speed: i64,
        max_accel: i64,
        future_prediction: i64,
        coin_pull: i64,
        wraps: bool,
    ) -> (r: Result<PursuerProfile, CoreError>)
        ensures
            r is Ok <==> (0 < max_speed <= PROFILE_LIMIT && 0 < max_accel <= PROFILE_LIMIT && 0
                <= future_prediction <= UNIT && -UNIT <= coin_pull <= UNIT),
            r is Ok ==> r->Ok_0 == (PursuerProfile {
                max_speed,
                max_accel,
                future_prediction,
                coin_pull,
                wraps,
            }) && profile_wf(r->Ok_0),
            r is Err ==> r->Err_0 == CoreError::InvalidParameter,
    {
        if 0 < max_speed && max_speed <= PROFILE_LIMIT && 0 < max_accel && max_accel
            <= PROFILE_LIMIT && 0 <= future_prediction && future_prediction <= UNIT && -UNIT
            <= coin_pull && coin_pull <= UNIT {
            Ok(PursuerProfile { max_speed, max_accel, future_prediction, coin_pull, wraps })
        } else {
            Err(CoreError::InvalidParameter)
        }
    }
}

/// A live pursuer: its spatial state plus its immutable profile.
#[derive(Clone, Copy, PartialEq, Eq, Structural, Debug)]
pub struct Pursuer {
    pub body: Body,
    pub profile: PursuerProfile,
}

pub open spec fn pursuer_wf(p: Pursuer) -> bool {
    body_wf(p.body) && profile_wf(p.profile)
}

} // verus!
