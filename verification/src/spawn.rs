//! Spawner: random pickup relocation, pursuer spawn positions on the play
//! area's rim, and per-pursuer profiles drawn from the difficulty curve with
//! uniform deviation.

use vstd::prelude::*;

use crate::curve::{
    base_accel_spec, base_speed_spec, enemy_base_accel, enemy_base_speed, logistic,
};
use crate::entity::{pursuer_wf, Body, Pursuer, PursuerProfile};
use crate::geom::{abs_val, in_box, scale_unit, Vec2};
use crate::rng::rng_range;
use crate::{
    ACCEL_MAX_DEVIATION, ENEMY_MAX_ACCEL, ENEMY_PURPLE_ACCEL_MULTIPLIER, ENEMY_PURPLE_COIN_SPAWN,
    ENEMY_RADIUS, HALF_EXTENT_LIMIT, PLAYER_RADIUS, SPEED_DECAY_RATIO, SPEED_MAX_DEVIATION,
    SPEED_MIDPOINT_GAIN, UNIT,
};

verus! {

/// Which rim of the play area a pursuer enters from.
#[derive(Clone, Copy, PartialEq, Eq, Structural, Debug)]
pub enum SpawnSide {
    Top,
    Bottom,
    Left,
    Right,
}

/// The uniform draw over the four sides, decoded from an index in `[0, 4)`.
pub fn spawn_side_from_index(index: i64) -> (side: SpawnSide)
    requires
        0 <= index < 4,
    ensures
        index == 0 ==> side == SpawnSide::Top,
        index == 1 ==> side == SpawnSide::Bottom,
        index == 2 ==> side == SpawnSide::Left,
        index == 3 ==> side == SpawnSide::Right,
{
    if index == 0 {
        SpawnSide::Top
    } else if index == 1 {
        SpawnSide::Bottom
    } else if index == 2 {
        SpawnSide::Left
    } else {
        SpawnSide::Right
    }
}

/// A freshly relocated pickup lands uniformly inside the play bounds.
pub fn get_coin_spawn_position(
    generator: &mut rand::rngs::StdRng,
    width: i64,
    height: i64,
) -> (pos: Vec2)
    requires
        2 <= width <= 2 * HALF_EXTENT_LIMIT,
        2 <= height <= 2 * HALF_EXTENT_LIMIT,
    ensures
        -(width / 2) <= pos.x < width / 2,
        -(height / 2) <= pos.y < height / 2,
        in_box(pos, HALF_EXTENT_LIMIT as int),
{
    let x = rng_range(generator, -(width / 2), width / 2);
    let y = rng_range(generator, -(height / 2), height / 2);
    Vec2 { x, y }
}

/// A spawn position lies on one of the four rims of the play area, one
/// player radius beyond the edge, uniformly placed along it.
pub open spec fn on_spawn_boundary(pos: Vec2, width: int, height: int) -> bool {
    let horizontal = width / 2 + PLAYER_RADIUS;
    let vertical = height / 2 + PLAYER_RADIUS;
    ||| (pos.y == vertical && -horizontal <= pos.x < horizontal)
    ||| (pos.y == -vertical && -horizontal <= pos.x < horizontal)
    ||| (pos.x == -horizontal && -vertical <= pos.y < vertical)
    ||| (pos.x == horizontal && -vertical <= pos.y < vertical)
}

pub fn get_enemy_spawn_position(
    generator: &mut rand::rngs::StdRng,
    width: i64,
    height: i64,
    side: SpawnSide,
) -> (pos: Vec2)
    requires
        2 <= width <= 2 * HALF_EXTENT_LIMIT,
        2 <= height <= 2 * HALF_EXTENT_LIMIT,
    ensures
        on_spawn_boundary(pos, width as int, height as int),
        in_box(pos, HALF_EXTENT_LIMIT as int + PLAYER_RADIUS),
{
    let vertical = height / 2 + PLAYER_RADIUS;
    let horizontal = width / 2 + PLAYER_RADIUS;
    match side {
        SpawnSide::Top => Vec2 { x: rng_range(generator, -horizontal, horizontal), y: vertical },
        SpawnSide::Bottom => Vec2 {
            x: rng_range(generator, -horizontal, horizontal),
            y: -vertical,
        },
        SpawnSide::Left => Vec2 { x: -horizontal, y: rng_range(generator, -vertical, vertical) },
        SpawnSide::Right => Vec2 { x: horizontal, y: rng_range(generator, -vertical, vertical) },
    }
}

/// The late-game archetype spawns once the score crosses its threshold, on
/// even scores only.
pub open spec fn purple_spec(score: int) -> bool {
    score >= ENEMY_PURPLE_COIN_SPAWN && score % 2 == 0
}

/// Draw one new pursuer for the current score: speed and acceleration come
/// from the logistic difficulty curve perturbed by a uniform deviation, the
/// archetype decides acceleration multiplier, wrap margin, pickup pull and
/// toroidal tracking, and the spawn point lies on a uniformly chosen rim.
pub fn spawn_enemy(
    generator: &mut rand::rngs::StdRng,
    score: i32,
    width: i64,
    height: i64,
) -> (p: Pursuer)
    requires
        0 <= score,
        2 <= width <= 2 * HALF_EXTENT_LIMIT,
        2 <= height <= 2 * HALF_EXTENT_LIMIT,
    ensures
        pursuer_wf(p),
        p.profile.wraps == purple_spec(score as int),
        p.body.radius == ENEMY_RADIUS,
        p.body.wrap_margin == if purple_spec(score as int) {
            ENEMY_RADIUS as int
        } else {
            8 * ENEMY_RADIUS
        },
        p.body.velocity.x == 0 && p.body.velocity.y == 0,
        on_spawn_boundary(p.body.position, width as int, height as int),
        abs_val(p.profile.max_speed - base_speed_spec(score as nat)) <= SPEED_MAX_DEVIATION,
        !purple_spec(score as int) ==> abs_val(
            p.profile.max_accel - base_accel_spec(score as nat),
        ) <= ACCEL_MAX_DEVIATION,
        purple_spec(score as int) ==> p.profile.max_accel <= ENEMY_MAX_ACCEL + ACCEL_MAX_DEVIATION,
{
    let side_index = rng_range(generator, 0, 4);
    let side = spawn_side_from_index(side_index);

    let base_speed = enemy_base_speed(score as i64);
    let speed_deviation = rng_range(generator, -SPEED_MAX_DEVIATION, SPEED_MAX_DEVIATION);
    let speed = base_speed + speed_deviation;

    let base_accel = enemy_base_accel(score as i64);
    let accel_deviation = rng_range(generator, -ACCEL_MAX_DEVIATION, ACCEL_MAX_DEVIATION);
    let accel_raw = base_accel + accel_deviation;

    let purple = score >= ENEMY_PURPLE_COIN_SPAWN && score % 2 == 0;

    let accel = if purple {
        proof {
            assert(abs_val(accel_raw as int) * abs_val(ENEMY_PURPLE_ACCEL_MULTIPLIER as int)
                <= 1_000_000 * 1000) by (nonlinear_arith)
                requires
                    0 <= abs_val(accel_raw as int) <= 1_000_000,
                    abs_val(ENEMY_PURPLE_ACCEL_MULTIPLIER as int) == 750,
            ;
            assert(275_000 * 750 <= (accel_raw as int) * 750) by (nonlinear_arith)
                requires
                    275_000 <= accel_raw,
            ;
            vstd::arithmetic::div_mod::lemma_div_is_ordered(
                (275_000 * 750) as int,
                (accel_raw as int) * 750,
                UNIT as int,
            );
        }
        scale_unit(accel_raw, ENEMY_PURPLE_ACCEL_MULTIPLIER)
    } else {
        accel_raw
    };

    let future_prediction = rng_range(generator, 0, UNIT);

    let coin_pull = if purple {
        rng_range(generator, -200, 200)
    } else {
        let f = logistic(SPEED_MIDPOINT_GAIN, SPEED_DECAY_RATIO, score as i64);
        proof {
            assert(abs_val(f as int) * abs_val(800) <= 1000 * 800) by (nonlinear_arith)
                requires
                    0 <= abs_val(f as int) <= 1000,
            ;
        }
        let pull_scale = scale_unit(f, 800) + 200;
        rng_range(generator, -pull_scale, pull_scale)
    };

    let position = get_enemy_spawn_position(generator, width, height, side);
    let wrap_margin = if purple {
        ENEMY_RADIUS
    } else {
        8 * ENEMY_RADIUS
    };

    Pursuer {
        body: Body {
            position,
            velocity: Vec2 { x: 0, y: 0 },
            radius: ENEMY_RADIUS,
            wrap_margin,
        },
        profile: PursuerProfile {
            max_speed: speed,
            max_accel: accel,
            future_prediction,
            coin_pull,
            wraps: purple,
        },
    }
}

} // verus!
