//! The simulation world and its fixed-order tick pipeline: player steering,
//! pursuer AI, wraparound, collision detection, the progression state
//! machine with knockback, and screen shake, in that order every frame.

use vstd::prelude::*;

use crate::collide::{collides, collides_spec};
use crate::curve::{knockback_factor, knockback_factor_spec};
use crate::entity::{body_wf, pursuer_wf, Body, Pursuer, Role};
use crate::geom::{
    abs_val, clamp_add, clamp_vel_spec, dist2, dist_squared, in_box, isqrt, isqrt_spec,
    move_toward, move_toward_x, move_toward_y, scale_unit, scale_unit_spec, scaled_dir,
    scaled_dir_x, scaled_dir_y, vec2_of, Vec2,
};
use crate::progress::{
    health_grant_spec, info_wf, is_player_hit, timer_wf, AppState, CoreError, GameEvent, GameInfo,
    InvincibilityTimer,
};
use crate::rng::rng_from_seed;
use crate::shake::{shake_wf, ScreenShake};
use crate::spawn::{get_coin_spawn_position, spawn_enemy};
use crate::wrap::{wrap_coord_spec, wraparound, wraparound_tracking_position, wrap_track_x, wrap_track_y};
use crate::{
    COIN_RADIUS, DT_LIMIT, ENEMY_COIN_PULL, ENEMY_RADIUS, HALF_EXTENT_LIMIT, HIT_KNOCKBACK,
    HIT_TRAUMA, PLAYER_ACCEL, PLAYER_MAX_SPEED, PLAYER_RADIUS, POS_LIMIT, UNIT, VEL_LIMIT,
};

verus! {

/// Play-area bounds as the shell reports them; entities wrap at half these
/// extents plus their own margin.
#[derive(Clone, Copy, PartialEq, Eq, Structural, Debug)]
pub struct Bounds {
    pub width: i64,
    pub height: i64,
}

pub open spec fn bounds_wf(b: Bounds) -> bool {
    2 <= b.width <= 2 * HALF_EXTENT_LIMIT && 2 <= b.height <= 2 * HALF_EXTENT_LIMIT
}

/// What the shell delivers each frame: the normalized 8-way input direction
/// (components in `UNIT`ths) and the frame delta-time.
#[derive(Clone, Copy, PartialEq, Eq, Structural, Debug)]
pub struct FrameInput {
    pub direction: Vec2,
    pub dt: i64,
}

pub open spec fn input_wf(input: FrameInput) -> bool {
    in_box(input.direction, UNIT as int) && 0 <= input.dt <= DT_LIMIT
}

/// How far beyond `POS_LIMIT` an unwrapped position may drift in one tick.
pub open spec fn prewrap_limit() -> int {
    POS_LIMIT as int + 20_000_000_000
}

/// The normalized 8-way direction for the pressed movement keys: axis
/// moves have magnitude `UNIT`, diagonals `DIAG_UNIT` per component, and
/// opposite keys cancel.
pub open spec fn direction_spec(up: bool, down: bool, left: bool, right: bool) -> Vec2 {
    let x: int = (if right { 1int } else { 0int }) - (if left { 1int } else { 0int });
    let y: int = (if up { 1int } else { 0int }) - (if down { 1int } else { 0int });
    if x != 0 && y != 0 {
        vec2_of(crate::DIAG_UNIT * x, crate::DIAG_UNIT * y)
    } else {
        vec2_of(UNIT * x, UNIT * y)
    }
}

/// Turn the shell's four pressed-key flags into the normalized 8-way input
/// direction the pipeline steers by.
pub fn get_direction(up: bool, down: bool, left: bool, right: bool) -> (r: Vec2)
    ensures
        r == direction_spec(up, down, left, right),
        in_box(r, UNIT as int),
{
    let x: i64 = (if right { 1i64 } else { 0i64 }) - (if left { 1i64 } else { 0i64 });
    let y: i64 = (if up { 1i64 } else { 0i64 }) - (if down { 1i64 } else { 0i64 });
    if x != 0 && y != 0 {
        Vec2 { x: crate::DIAG_UNIT * x, y: crate::DIAG_UNIT * y }
    } else {
        Vec2 { x: UNIT * x, y: UNIT * y }
    }
}

/// The player's steering target: the input direction scaled to max speed.
pub open spec fn player_target_spec(direction: Vec2) -> Vec2 {
    vec2_of(
        scale_unit_spec(direction.x as int, PLAYER_MAX_SPEED as int),
        scale_unit_spec(direction.y as int, PLAYER_MAX_SPEED as int),
    )
}

/// The player's velocity after one tick of acceleration-limited steering.
pub open spec fn player_vel_spec(v: Vec2, direction: Vec2, dt: int) -> Vec2 {
    let target = player_target_spec(direction);
    let md = scale_unit_spec(PLAYER_ACCEL as int, dt);
    vec2_of(move_toward_x(v, target, md), move_toward_y(v, target, md))
}

/// Position integration: `position + velocity * dt`.
pub open spec fn integrate_spec(pos: Vec2, vel: Vec2, dt: int) -> Vec2 {
    vec2_of(
        pos.x + scale_unit_spec(vel.x as int, dt),
        pos.y + scale_unit_spec(vel.y as int, dt),
    )
}

/// Advance the player: steer the velocity toward the input direction at max
/// speed, clamped by `PLAYER_ACCEL * dt`, then integrate the position.
/// Deceleration on idle input falls out: the target is then the zero vector.
pub fn move_player(body: &mut Body, direction: Vec2, dt: i64)
    requires
        body_wf(*old(body)),
        in_box(old(body).velocity, PLAYER_MAX_SPEED as int),
        in_box(direction, UNIT as int),
        0 <= dt <= DT_LIMIT,
    ensures
        final(body).radius == old(body).radius,
        final(body).wrap_margin == old(body).wrap_margin,
        final(body).velocity == player_vel_spec(old(body).velocity, direction, dt as int),
        final(body).position == integrate_spec(
            old(body).position,
            final(body).velocity,
            dt as int,
        ),
        in_box(final(body).velocity, PLAYER_MAX_SPEED as int),
        in_box(final(body).position, POS_LIMIT as int + 10_000_000),
{
    proof {
        assert(abs_val(direction.x as int) * abs_val(PLAYER_MAX_SPEED as int) <= 1000 * 300_000)
            by (nonlinear_arith)
            requires
                0 <= abs_val(direction.x as int) <= 1000,
                abs_val(PLAYER_MAX_SPEED as int) == 300_000,
        ;
        assert(abs_val(direction.y as int) * abs_val(PLAYER_MAX_SPEED as int) <= 1000 * 300_000)
            by (nonlinear_arith)
            requires
                0 <= abs_val(direction.y as int) <= 1000,
                abs_val(PLAYER_MAX_SPEED as int) == 300_000,
        ;
        assert(abs_val(PLAYER_ACCEL as int) * abs_val(dt as int) <= 900_000 * 10_000)
            by (nonlinear_arith)
            requires
                0 <= abs_val(dt as int) <= 10_000,
                abs_val(PLAYER_ACCEL as int) == 900_000,
        ;
    }
    let target = Vec2 {
        x: scale_unit(direction.x, PLAYER_MAX_SPEED),
        y: scale_unit(direction.y, PLAYER_MAX_SPEED),
    };
    let md = scale_unit(PLAYER_ACCEL, dt);
    body.velocity = move_toward(body.velocity, target, md);
    proof {
        assert(abs_val(body.velocity.x as int) * abs_val(dt as int) <= 300_000 * 10_000)
            by (nonlinear_arith)
            requires
                0 <= abs_val(body.velocity.x as int) <= 300_000,
                0 <= abs_val(dt as int) <= 10_000,
        ;
        assert(abs_val(body.velocity.y as int) * abs_val(dt as int) <= 300_000 * 10_000)
            by (nonlinear_arith)
            requires
                0 <= abs_val(body.velocity.y as int) <= 300_000,
                0 <= abs_val(dt as int) <= 10_000,
        ;
    }
    let sx = scale_unit(body.velocity.x, dt);
    let sy = scale_unit(body.velocity.y, dt);
    body.position = Vec2 { x: body.position.x + sx, y: body.position.y + sy };
}

/// The point a pursuer aims at: the player's position led by the player's
/// velocity scaled with the profile's prediction fraction.
pub open spec fn track_target_spec(player_pos: Vec2, player_vel: Vec2, prediction: int) -> Vec2 {
    vec2_of(
        player_pos.x + scale_unit_spec(player_vel.x as int, prediction),
        player_pos.y + scale_unit_spec(player_vel.y as int, prediction),
    )
}

/// The tracking point after the optional toroidal-nearest correction.
pub open spec fn enemy_track_point_spec(
    pu: Pursuer,
    player_pos: Vec2,
    player_vel: Vec2,
    width: int,
    height: int,
) -> Vec2 {
    let t = track_target_spec(player_pos, player_vel, pu.profile.future_prediction as int);
    if pu.profile.wraps {
        vec2_of(wrap_track_x(pu.body.position, t, width), wrap_track_y(pu.body.position, t, height))
    } else {
        t
    }
}

/// The pursuer's velocity after steering toward the tracking point.
pub open spec fn enemy_steered_vel_spec(
    pu: Pursuer,
    player_pos: Vec2,
    player_vel: Vec2,
    width: int,
    height: int,
    dt: int,
) -> Vec2 {
    let tp = enemy_track_point_spec(pu, player_pos, player_vel, width, height);
    let target = vec2_of(
        scaled_dir_x(pu.body.position, tp, pu.profile.max_speed as int),
        scaled_dir_y(pu.body.position, tp, pu.profile.max_speed as int),
    );
    let md = scale_unit_spec(pu.profile.max_accel as int, dt);
    vec2_of(
        move_toward_x(pu.body.velocity, target, md),
        move_toward_y(pu.body.velocity, target, md),
    )
}

/// The pursuer's velocity after the additive (unclamped by its own
/// acceleration cap, but saturating at the engine ceiling) pickup pull.
pub open spec fn enemy_vel_spec(
    pu: Pursuer,
    player_pos: Vec2,
    player_vel: Vec2,
    coin_pos: Vec2,
    width: int,
    height: int,
    dt: int,
) -> Vec2 {
    let v1 = enemy_steered_vel_spec(pu, player_pos, player_vel, width, height, dt);
    let pull_mag = scale_unit_spec(pu.profile.coin_pull as int, ENEMY_COIN_PULL as int);
    let px = scaled_dir_x(pu.body.position, coin_pos, pull_mag);
    let py = scaled_dir_y(pu.body.position, coin_pos, pull_mag);
    vec2_of(clamp_vel_spec(v1.x + px), clamp_vel_spec(v1.y + py))
}

/// One tick of pursuer AI, reading only the start-of-tick snapshots of the
/// player and the pickup: predictive tracking (toroidal-aware when the
/// profile wraps), acceleration-limited steering, the pickup-attraction
/// impulse, then integration.
pub fn move_enemy(
    pu: &mut Pursuer,
    player_pos: Vec2,
    player_vel: Vec2,
    coin_pos: Vec2,
    width: i64,
    height: i64,
    dt: i64,
)
    requires
        pursuer_wf(*old(pu)),
        in_box(player_pos, POS_LIMIT as int + 10_000_000),
        in_box(player_vel, PLAYER_MAX_SPEED as int),
        in_box(coin_pos, POS_LIMIT as int),
        2 <= width <= 2 * HALF_EXTENT_LIMIT,
        2 <= height <= 2 * HALF_EXTENT_LIMIT,
        0 <= dt <= DT_LIMIT,
    ensures
        final(pu).profile == old(pu).profile,
        final(pu).body.radius == old(pu).body.radius,
        final(pu).body.wrap_margin == old(pu).body.wrap_margin,
        final(pu).body.velocity == enemy_vel_spec(
            *old(pu),
            player_pos,
            player_vel,
            coin_pos,
            width as int,
            height as int,
            dt as int,
        ),
        final(pu).body.position == integrate_spec(
            old(pu).body.position,
            final(pu).body.velocity,
            dt as int,
        ),
        in_box(final(pu).body.velocity, VEL_LIMIT as int),
        in_box(final(pu).body.position, prewrap_limit()),
{
    proof {
        let pred = old(pu).profile.future_prediction as int;
        assert(abs_val(player_vel.x as int) * abs_val(pred) <= 300_000 * 1000)
            by (nonlinear_arith)
            requires
                0 <= abs_val(player_vel.x as int) <= 300_000,
                0 <= abs_val(pred) <= 1000,
        ;
        assert(abs_val(player_vel.y as int) * abs_val(pred) <= 300_000 * 1000)
            by (nonlinear_arith)
            requires
                0 <= abs_val(player_vel.y as int) <= 300_000,
                0 <= abs_val(pred) <= 1000,
        ;
    }
    let track = Vec2 {
        x: player_pos.x + scale_unit(player_vel.x, pu.profile.future_prediction),
        y: player_pos.y + scale_unit(player_vel.y, pu.profile.future_prediction),
    };
    let track_point = if pu.profile.wraps {
        wraparound_tracking_position(pu.body.position, track, width, height)
    } else {
        track
    };
    let target = scaled_dir(pu.body.position, track_point, pu.profile.max_speed);
    proof {
        let acc = pu.profile.max_accel as int;
        assert(abs_val(acc) * abs_val(dt as int) <= 10_000_000 * 10_000) by (nonlinear_arith)
            requires
                0 <= abs_val(acc) <= 10_000_000,
                0 <= abs_val(dt as int) <= 10_000,
        ;
    }
    let md = scale_unit(pu.profile.max_accel, dt);
    let v1 = move_toward(pu.body.velocity, target, md);
    proof {
        let pull = pu.profile.coin_pull as int;
        assert(abs_val(pull) * abs_val(ENEMY_COIN_PULL as int) <= 1000 * 15_000)
            by (nonlinear_arith)
            requires
                0 <= abs_val(pull) <= 1000,
                abs_val(ENEMY_COIN_PULL as int) == 15_000,
        ;
    }
    let pull_mag = scale_unit(pu.profile.coin_pull, ENEMY_COIN_PULL);
    let pull = scaled_dir(pu.body.position, coin_pos, pull_mag);
    let vx = clamp_add(v1.x, pull.x);
    let vy = clamp_add(v1.y, pull.y);
    pu.body.velocity = Vec2 { x: vx, y: vy };
    proof {
        assert(abs_val(vx as int) * abs_val(dt as int) <= 1_000_000_000 * 10_000)
            by (nonlinear_arith)
            requires
                0 <= abs_val(vx as int) <= 1_000_000_000,
                0 <= abs_val(dt as int) <= 10_000,
        ;
        assert(abs_val(vy as int) * abs_val(dt as int) <= 1_000_000_000 * 10_000)
            by (nonlinear_arith)
            requires
                0 <= abs_val(vy as int) <= 1_000_000_000,
                0 <= abs_val(dt as int) <= 10_000,
        ;
    }
    let sx = scale_unit(vx, dt);
    let sy = scale_unit(vy, dt);
    pu.body.position = Vec2 { x: pu.body.position.x + sx, y: pu.body.position.y + sy };
}

/// Some pursuer overlaps the player.
pub open spec fn any_pursuer_hit(player: Body, pursuers: Seq<Pursuer>) -> bool {
    exists|i: int|
        0 <= i < pursuers.len() && #[trigger] collides_spec(
            player.position,
            player.radius as int,
            pursuers[i].body.position,
            pursuers[i].body.radius as int,
        )
}

/// Player-versus-pursuer scan. Detection is skipped outright while the
/// player is invincible, and at most one hit is reported per frame however
/// many pursuers overlap.
pub fn enemy_collision(player: &Body, pursuers: &Vec<Pursuer>, invincible: bool) -> (hit: bool)
    requires
        body_wf(*player),
        forall|i: int| 0 <= i < pursuers@.len() ==> pursuer_wf(#[trigger] pursuers@[i]),
    ensures
        hit == (!invincible && any_pursuer_hit(*player, pursuers@)),
{
    if invincible {
        return false;
    }
    let n = pursuers.len();
    let mut i: usize = 0;
    while i < n
        invariant
            !invincible,
            0 <= i <= n,
            n == pursuers@.len(),
            body_wf(*player),
            forall|k: int| 0 <= k < pursuers@.len() ==> pursuer_wf(#[trigger] pursuers@[k]),
            forall|k: int|
                0 <= k < i ==> !collides_spec(
                    player.position,
                    player.radius as int,
                    #[trigger] pursuers@[k].body.position,
                    pursuers@[k].body.radius as int,
                ),
        decreases n - i,
    {
        let pu = &pursuers[i];
        if collides(player.position, player.radius, pu.body.position, pu.body.radius) {
            proof {
                assert(collides_spec(
                    player.position,
                    player.radius as int,
                    pursuers@[i as int].body.position,
                    pursuers@[i as int].body.radius as int,
                ));
            }
            return true;
        }
        i = i + 1;
    }
    false
}

/// Player-versus-pickup test.
pub fn coin_collision(player: &Body, coin: &Body) -> (hit: bool)
    requires
        body_wf(*player),
        body_wf(*coin),
    ensures
        hit == collides_spec(
            player.position,
            player.radius as int,
            coin.position,
            coin.radius as int,
        ),
{
    collides(player.position, player.radius, coin.position, coin.radius)
}

/// The knockback impulse a pursuer at `enemy_pos` receives when the player
/// at `player_pos` is hit: directed away from the player, with magnitude
/// `HIT_KNOCKBACK` scaled by the exponential falloff of the edge-to-edge
/// separation — exactly `HIT_KNOCKBACK` at contact. Coincident positions
/// give no impulse.
pub open spec fn knockback_impulse_x(player_pos: Vec2, enemy_pos: Vec2) -> int {
    let sep = isqrt_spec(dist2(player_pos, enemy_pos)) - (PLAYER_RADIUS + ENEMY_RADIUS);
    scaled_dir_x(
        player_pos,
        enemy_pos,
        scale_unit_spec(HIT_KNOCKBACK as int, knockback_factor_spec(sep)),
    )
}

pub open spec fn knockback_impulse_y(player_pos: Vec2, enemy_pos: Vec2) -> int {
    let sep = isqrt_spec(dist2(player_pos, enemy_pos)) - (PLAYER_RADIUS + ENEMY_RADIUS);
    scaled_dir_y(
        player_pos,
        enemy_pos,
        scale_unit_spec(HIT_KNOCKBACK as int, knockback_factor_spec(sep)),
    )
}

/// `after` is `before` with the knockback impulse for a player at
/// `player_pos` folded into its velocity, all else untouched.
pub open spec fn knocked_back(before: Pursuer, after: Pursuer, player_pos: Vec2) -> bool {
    &&& after.profile == before.profile
    &&& after.body.position == before.body.position
    &&& after.body.radius == before.body.radius
    &&& after.body.wrap_margin == before.body.wrap_margin
    &&& after.body.velocity.x == clamp_vel_spec(
        before.body.velocity.x + knockback_impulse_x(player_pos, before.body.position),
    )
    &&& after.body.velocity.y == clamp_vel_spec(
        before.body.velocity.y + knockback_impulse_y(player_pos, before.body.position),
    )
    &&& pursuer_wf(after)
}

/// Shove every pursuer away from the player, adding the impulse straight
/// into its velocity — an instantaneous response exempt from the profile's
/// acceleration cap, saturating only at the engine's speed ceiling.
pub fn apply_knockback(pursuers: &mut Vec<Pursuer>, player_pos: Vec2)
    requires
        forall|i: int| 0 <= i < old(pursuers)@.len() ==> pursuer_wf(#[trigger] old(pursuers)@[i]),
        in_box(player_pos, POS_LIMIT as int),
    ensures
        final(pursuers)@.len() == old(pursuers)@.len(),
        forall|i: int|
            0 <= i < old(pursuers)@.len() ==> knocked_back(
                old(pursuers)@[i],
                #[trigger] final(pursuers)@[i],
                player_pos,
            ),
{
    let n = pursuers.len();
    let mut i: usize = 0;
    while i < n
        invariant
            0 <= i <= n,
            n == pursuers@.len(),
            pursuers@.len() == old(pursuers)@.len(),
            in_box(player_pos, POS_LIMIT as int),
            forall|k: int| 0 <= k < n ==> pursuer_wf(#[trigger] old(pursuers)@[k]),
            forall|k: int| i <= k < n ==> #[trigger] pursuers@[k] == old(pursuers)@[k],
            forall|k: int|
                0 <= k < i ==> knocked_back(old(pursuers)@[k], #[trigger] pursuers@[k], player_pos),
        decreases n - i,
    {
        let mut pu = pursuers[i];
        let d2 = dist_squared(player_pos, pu.body.position);
        let dist = isqrt(d2);
        let sep = dist - (PLAYER_RADIUS + ENEMY_RADIUS);
        let factor = knockback_factor(sep);
        proof {
            assert(abs_val(HIT_KNOCKBACK as int) * abs_val(factor as int) <= 700_000 * 100_000)
                by (nonlinear_arith)
                requires
                    abs_val(HIT_KNOCKBACK as int) == 700_000,
                    0 <= abs_val(factor as int) <= 100_000,
            ;
        }
        let magnitude = scale_unit(HIT_KNOCKBACK, factor);
        proof {
            assert(abs_val(magnitude as int) <= 100_000_000);
        }
        let impulse = scaled_dir(player_pos, pu.body.position, magnitude);
        pu.body.velocity = Vec2 {
            x: clamp_add(pu.body.velocity.x, impulse.x),
            y: clamp_add(pu.body.velocity.y, impulse.y),
        };
        pursuers[i] = pu;
        i = i + 1;
    }
}

} // verus!

use crate::curve::base_speed_spec;
use crate::spawn::{on_spawn_boundary, purple_spec};
use crate::progress::is_shake_offset;
use crate::{
    HEALTH_MULTIPLE, MAX_HEALTH, PLAYER_INVINCIBILITY_TIME, PLAYER_START_HEALTH,
    SPEED_MAX_DEVIATION, TRAUMA_LIMIT,
};

verus! {

/// The whole simulation: progression, the invincibility timer, screen
/// shake, the entity registry (player, pickup, pursuers), play bounds, the
/// last completed score, and the seeded generator behind every stochastic
/// choice.
pub struct World {
    pub state: AppState,
    pub info: GameInfo,
    pub timer: InvincibilityTimer,
    pub shake: ScreenShake,
    pub player: Body,
    pub coin: Body,
    pub pursuers: Vec<Pursuer>,
    pub bounds: Bounds,
    pub last_score: Option<i32>,
    pub generator: rand::rngs::StdRng,
}

pub open spec fn world_base_wf(w: World) -> bool {
    &&& bounds_wf(w.bounds)
    &&& info_wf(w.info)
    &&& timer_wf(w.timer)
    &&& shake_wf(w.shake)
    &&& body_wf(w.player)
    &&& in_box(w.player.velocity, PLAYER_MAX_SPEED as int)
    &&& body_wf(w.coin)
    &&& forall|i: int| 0 <= i < w.pursuers@.len() ==> pursuer_wf(#[trigger] w.pursuers@[i])
}

/// A playing world always has health left: losing the last point leaves the
/// round immediately.
pub open spec fn world_wf(w: World) -> bool {
    world_base_wf(w) && (w.state is Playing ==> w.info.health >= 1)
}

/// What one collected pickup does to the world: score up by one, the health
/// grant on its multiples, the pickup relocated inside the bounds, and
/// exactly one new pursuer drawn from the difficulty curve; nothing else.
pub open spec fn pickup_applied(before: World, after: World) -> bool {
    &&& after.state == before.state
    &&& after.bounds == before.bounds
    &&& after.player == before.player
    &&& after.shake == before.shake
    &&& after.timer == before.timer
    &&& after.last_score == before.last_score
    &&& after.info.score == before.info.score + 1
    &&& after.info.invincible == before.info.invincible
    &&& after.info.health == if health_grant_spec(before.info.score + 1) {
        if before.info.health + 1 <= MAX_HEALTH {
            (before.info.health + 1) as int
        } else {
            MAX_HEALTH as int
        }
    } else {
        before.info.health as int
    }
    &&& after.coin.radius == before.coin.radius
    &&& after.coin.wrap_margin == before.coin.wrap_margin
    &&& after.coin.velocity == before.coin.velocity
    &&& -(before.bounds.width / 2) <= after.coin.position.x < before.bounds.width / 2
    &&& -(before.bounds.height / 2) <= after.coin.position.y < before.bounds.height / 2
    &&& after.pursuers@.len() == before.pursuers@.len() + 1
    &&& forall|i: int|
        0 <= i < before.pursuers@.len() ==> #[trigger] after.pursuers@[i] == before.pursuers@[i]
    &&& pursuer_wf(after.pursuers@.last())
    &&& after.pursuers@.last().profile.wraps == purple_spec(before.info.score + 1)
    &&& on_spawn_boundary(
        after.pursuers@.last().body.position,
        before.bounds.width as int,
        before.bounds.height as int,
    )
    &&& abs_val(
        after.pursuers@.last().profile.max_speed - base_speed_spec((before.info.score + 1) as nat),
    ) <= SPEED_MAX_DEVIATION
}

/// The events a collected pickup emits: the collection itself, the health
/// grant when owed, and the profile summary of the one pursuer spawned.
pub open spec fn pickup_events(after: World, ev: Seq<GameEvent>) -> bool {
    let grant = health_grant_spec(after.info.score as int);
    &&& ev.len() == if grant {
        3int
    } else {
        2int
    }
    &&& ev[0] == GameEvent::PickupCollected
    &&& (grant ==> ev[1] == GameEvent::HealthGained)
    &&& ev.last() == (GameEvent::PursuerSpawned {
        max_speed: after.pursuers@.last().profile.max_speed,
        max_accel: after.pursuers@.last().profile.max_accel,
        wraps: after.pursuers@.last().profile.wraps,
    })
}

/// What one hit does to the world: one health lost, invincibility raised
/// with a fresh timer, trauma added, and every pursuer knocked back; the
/// terminal transition is checked separately, after the whole tick's events.
pub open spec fn hit_applied(before: World, after: World) -> bool {
    &&& after.state == before.state
    &&& after.bounds == before.bounds
    &&& after.player == before.player
    &&& after.coin == before.coin
    &&& after.last_score == before.last_score
    &&& after.info.score == before.info.score
    &&& after.info.health == before.info.health - 1
    &&& after.info.invincible
    &&& after.timer.remaining == PLAYER_INVINCIBILITY_TIME
    &&& !after.timer.finished
    &&& after.shake.elapsed == before.shake.elapsed
    &&& after.shake.trauma == if before.shake.trauma + HIT_TRAUMA <= TRAUMA_LIMIT {
        before.shake.trauma + HIT_TRAUMA
    } else {
        TRAUMA_LIMIT as int
    }
    &&& after.pursuers@.len() == before.pursuers@.len()
    &&& forall|i: int|
        0 <= i < before.pursuers@.len() ==> knocked_back(
            before.pursuers@[i],
            #[trigger] after.pursuers@[i],
            before.player.position,
        )
}

impl World {
    /// A fresh simulation in the menu state; bounds outside the engine's
    /// limits are rejected outright.
    pub fn new(width: i64, height: i64, seed: u64) -> (r: Result<World, CoreError>)
        ensures
            r is Ok <==> (2 <= width <= 2 * HALF_EXTENT_LIMIT && 2 <= height <= 2
                * HALF_EXTENT_LIMIT),
            r is Err ==> r->Err_0 == CoreError::InvalidParameter,
            r is Ok ==> world_wf(r->Ok_0) && r->Ok_0.state is Menu && r->Ok_0.last_score is None
                && r->Ok_0.bounds.width == width && r->Ok_0.bounds.height == height
                && r->Ok_0.pursuers@.len() == 0 && r->Ok_0.info.score == 0,
    {
        if 2 <= width && width <= 2 * HALF_EXTENT_LIMIT && 2 <= height && height <= 2
            * HALF_EXTENT_LIMIT {
            Ok(
                World {
                    state: AppState::Menu,
                    info: GameInfo::default(),
                    timer: InvincibilityTimer::new(),
                    shake: ScreenShake::default(),
                    player: Body {
                        position: Vec2 { x: 0, y: 0 },
                        velocity: Vec2 { x: 0, y: 0 },
                        radius: PLAYER_RADIUS,
                        wrap_margin: PLAYER_RADIUS,
                    },
                    coin: Body {
                        position: Vec2 { x: 0, y: 0 },
                        velocity: Vec2 { x: 0, y: 0 },
                        radius: COIN_RADIUS,
                        wrap_margin: 0,
                    },
                    pursuers: Vec::new(),
                    bounds: Bounds { width, height },
                    last_score: None,
                    generator: rng_from_seed(seed),
                },
            )
        } else {
            Err(CoreError::InvalidParameter)
        }
    }

    /// The shell reports a resize; entities already in bounds are left
    /// where they are until they next cross an edge.
    pub fn set_bounds(&mut self, width: i64, height: i64) -> (r: Result<(), CoreError>)
        requires
            world_wf(*old(self)),
        ensures
            world_wf(*final(self)),
            r is Ok <==> (2 <= width <= 2 * HALF_EXTENT_LIMIT && 2 <= height <= 2
                * HALF_EXTENT_LIMIT),
            r is Err ==> *final(self) == *old(self) && r->Err_0 == CoreError::InvalidParameter,
            r is Ok ==> final(self).bounds.width == width && final(self).bounds.height == height
                && final(self).state == old(self).state && final(self).info == old(self).info
                && final(self).timer == old(self).timer && final(self).shake == old(self).shake
                && final(self).player == old(self).player && final(self).coin == old(self).coin
                && final(self).pursuers@ == old(self).pursuers@ && final(self).last_score == old(self).last_score,
    {
        if 2 <= width && width <= 2 * HALF_EXTENT_LIMIT && 2 <= height && height <= 2
            * HALF_EXTENT_LIMIT {
            self.bounds = Bounds { width, height };
            Ok(())
        } else {
            Err(CoreError::InvalidParameter)
        }
    }

    /// Enter or leave a round. Entering resets progression, puts the player
    /// at the origin with a fresh pickup and no pursuers; leaving records
    /// the final score and despawns every round-scoped entity. Requesting
    /// the current state changes nothing.
    pub fn request_transition(&mut self, to: AppState) -> (events: Vec<GameEvent>)
        requires
            world_wf(*old(self)),
        ensures
            world_wf(*final(self)),
            final(self).state == to,
            final(self).bounds == old(self).bounds,
            final(self).shake == old(self).shake,
            old(self).state == to ==> *final(self) == *old(self) && events@.len() == 0,
            old(self).state is Menu && to is Playing ==> final(self).info.score == 0 && final(self).info.health == PLAYER_START_HEALTH && !final(self).info.invincible && final(self).pursuers@.len() == 0 && final(self).last_score == old(self).last_score && final(self).player.position == (Vec2 { x: 0, y: 0 }) && final(self).player.velocity == (Vec2 {
                x: 0,
                y: 0,
            }) && final(self).player.radius == PLAYER_RADIUS && final(self).coin.radius
                == COIN_RADIUS && -(old(self).bounds.width / 2) <= final(self).coin.position.x < old(self).bounds.width / 2 && -(old(self).bounds.height / 2) <= final(self).coin.position.y
                < old(self).bounds.height / 2 && events@.len() == 1 && events@[0]
                == (GameEvent::StateChanged { to: AppState::Playing, last_score: old(self).last_score }),
            old(self).state is Playing && to is Menu ==> final(self).last_score == Some(
                old(self).info.score,
            ) && final(self).pursuers@.len() == 0 && final(self).info == old(self).info && events@.len()
                == 1 && events@[0] == (GameEvent::StateChanged {
                to: AppState::Menu,
                last_score: Some(old(self).info.score),
            }),
    {
        let mut events: Vec<GameEvent> = Vec::new();
        if self.state == to {
            return events;
        }
        match to {
            AppState::Playing => {
                self.info = GameInfo::default();
                self.timer = InvincibilityTimer::new();
                self.player = Body {
                    position: Vec2 { x: 0, y: 0 },
                    velocity: Vec2 { x: 0, y: 0 },
                    radius: PLAYER_RADIUS,
                    wrap_margin: PLAYER_RADIUS,
                };
                let pos = get_coin_spawn_position(
                    &mut self.generator,
                    self.bounds.width,
                    self.bounds.height,
                );
                self.coin = Body {
                    position: pos,
                    velocity: Vec2 { x: 0, y: 0 },
                    radius: COIN_RADIUS,
                    wrap_margin: 0,
                };
                self.pursuers.clear();
                self.state = AppState::Playing;
                events.push(GameEvent::StateChanged { to: AppState::Playing, last_score: self.last_score });
            },
            AppState::Menu => {
                self.last_score = Some(self.info.score);
                self.pursuers.clear();
                self.state = AppState::Menu;
                events.push(GameEvent::StateChanged { to: AppState::Menu, last_score: self.last_score });
            },
        }
        events
    }

    /// The pickup was collected: score, possible health grant, relocation,
    /// and the one new pursuer; events for each are appended in order.
    fn apply_pickup(&mut self, events: &mut Vec<GameEvent>)
        requires
            world_base_wf(*old(self)),
            old(self).state is Playing,
            old(self).info.score < i32::MAX,
        ensures
            pickup_applied(*old(self), *final(self)),
            world_base_wf(*final(self)),
            final(self).info.health >= old(self).info.health,
            final(events)@.len() > old(events)@.len(),
            final(events)@.subrange(0, old(events)@.len() as int) == old(events)@,
            pickup_events(*final(self), final(events)@.skip(old(events)@.len() as int)),
            forall|k: int|
                old(events)@.len() <= k < final(events)@.len() ==> !is_player_hit(
                    #[trigger] final(events)@[k],
                ),
    {
        self.info.score = self.info.score + 1;
        events.push(GameEvent::PickupCollected);
        let grant = self.info.score % HEALTH_MULTIPLE == 0 && self.info.score != 1;
        if grant {
            self.info.add_health(1);
            events.push(GameEvent::HealthGained);
        }
        let pos = get_coin_spawn_position(
            &mut self.generator,
            self.bounds.width,
            self.bounds.height,
        );
        self.coin.position = pos;
        let pu = spawn_enemy(
            &mut self.generator,
            self.info.score,
            self.bounds.width,
            self.bounds.height,
        );
        events.push(
            GameEvent::PursuerSpawned {
                max_speed: pu.profile.max_speed,
                max_accel: pu.profile.max_accel,
                wraps: pu.profile.wraps,
            },
        );
        self.pursuers.push(pu);
    }

    /// The player was hit while vulnerable: lose one health, raise
    /// invincibility with a fresh timer, add trauma, and shove every
    /// pursuer. The terminal check is the caller's, after the tick's
    /// remaining events.
    fn apply_hit(&mut self, events: &mut Vec<GameEvent>)
        requires
            world_wf(*old(self)),
            old(self).state is Playing,
            !old(self).info.invincible,
        ensures
            hit_applied(*old(self), *final(self)),
            world_base_wf(*final(self)),
            final(self).info.health >= 0,
            final(events)@ == old(events)@.push(GameEvent::PlayerHit { severity: HIT_TRAUMA }),
    {
        self.info.health = self.info.health - 1;
        self.info.invincible = true;
        self.timer.reset();
        self.shake.add_trauma(HIT_TRAUMA);
        events.push(GameEvent::PlayerHit { severity: HIT_TRAUMA });
        apply_knockback(&mut self.pursuers, self.player.position);
    }

    /// Once the tick's events are processed, a drained health ends the
    /// round: back to the menu, final score recorded, pursuers despawned.
    fn check_terminal(&mut self, events: &mut Vec<GameEvent>)
        requires
            world_base_wf(*old(self)),
            old(self).state is Playing,
            old(self).info.health >= 0,
        ensures
            world_wf(*final(self)),
            old(self).info.health >= 1 ==> *final(self) == *old(self) && final(events)@ == old(
                events,
            )@,
            old(self).info.health <= 0 ==> final(self).state is Menu && final(self).last_score
                == Some(old(self).info.score) && final(self).pursuers@.len() == 0 && final(self).info == old(self).info && final(self).bounds == old(self).bounds && final(self).shake
                == old(self).shake && final(self).coin == old(self).coin && final(self).player
                == old(self).player && final(self).timer == old(self).timer && final(events)@
                == old(events)@.push(
                (GameEvent::StateChanged {
                    to: AppState::Menu,
                    last_score: Some(old(self).info.score),
                }),
            ),
    {
        if self.info.health <= 0 {
            self.last_score = Some(self.info.score);
            self.pursuers.clear();
            self.state = AppState::Menu;
            events.push(GameEvent::StateChanged { to: AppState::Menu, last_score: self.last_score });
        }
    }

    /// Deliver a pickup-collected event from outside the tick pipeline.
    /// Asking while in the menu is a shell programming error, reported, and
    /// the world is untouched.
    pub fn process_pickup_collected(&mut self) -> (r: Result<Vec<GameEvent>, CoreError>)
        requires
            world_wf(*old(self)),
            old(self).state is Playing ==> old(self).info.score < i32::MAX,
        ensures
            world_wf(*final(self)),
            r is Err <==> old(self).state is Menu,
            r is Err ==> *final(self) == *old(self) && r->Err_0 == CoreError::NotInPlay,
            r is Ok ==> pickup_applied(*old(self), *final(self)) && pickup_events(
                *final(self),
                r->Ok_0@,
            ),
    {
        match self.state {
            AppState::Menu => Err(CoreError::NotInPlay),
            AppState::Playing => {
                let mut events: Vec<GameEvent> = Vec::new();
                self.apply_pickup(&mut events);
                proof {
                    assert(events@.skip(0) =~= events@);
                }
                Ok(events)
            },
        }
    }

    /// Deliver a player-hit event from outside the tick pipeline. While
    /// invincible the hit is suppressed entirely — no event, no state
    /// change; in the menu it is a shell programming error, reported.
    pub fn process_player_hit(&mut self) -> (r: Result<Vec<GameEvent>, CoreError>)
        requires
            world_wf(*old(self)),
        ensures
            world_wf(*final(self)),
            r is Err <==> old(self).state is Menu,
            r is Err ==> *final(self) == *old(self) && r->Err_0 == CoreError::NotInPlay,
            old(self).state is Playing && old(self).info.invincible ==> r is Ok && *final(self)
                == *old(self) && r->Ok_0@.len() == 0,
            old(self).state is Playing && !old(self).info.invincible ==> r is Ok && r->Ok_0@.len()
                >= 1 && r->Ok_0@[0] == (GameEvent::PlayerHit { severity: HIT_TRAUMA }) && final(self).info.health == old(self).info.health - 1 && final(self).info.invincible && final(self).info.score == old(self).info.score,
            old(self).state is Playing && !old(self).info.invincible && old(self).info.health > 1
                ==> final(self).state is Playing && r->Ok_0@.len() == 1 && final(self).pursuers@.len() == old(self).pursuers@.len() && (forall|i: int|
                0 <= i < old(self).pursuers@.len() ==> knocked_back(
                    old(self).pursuers@[i],
                    #[trigger] final(self).pursuers@[i],
                    old(self).player.position,
                )) && final(self).last_score == old(self).last_score,
            old(self).state is Playing && !old(self).info.invincible && old(self).info.health <= 1
                ==> final(self).state is Menu && final(self).last_score == Some(
                old(self).info.score,
            ) && final(self).pursuers@.len() == 0 && r->Ok_0@.len() == 2 && r->Ok_0@[1]
                == (GameEvent::StateChanged {
                to: AppState::Menu,
                last_score: Some(old(self).info.score),
            }),
    {
        match self.state {
            AppState::Menu => Err(CoreError::NotInPlay),
            AppState::Playing => {
                if self.info.invincible {
                    Ok(Vec::new())
                } else {
                    let mut events: Vec<GameEvent> = Vec::new();
                    self.apply_hit(&mut events);
                    self.check_terminal(&mut events);
                    Ok(events)
                }
            },
        }
    }
}


/// The player's body right after its steering and integration, before
/// wraparound: the snapshot every pursuer tracks this tick.
pub open spec fn player_after_motion(w: World, input: FrameInput) -> Body {
    Body {
        position: integrate_spec(
            w.player.position,
            player_vel_spec(w.player.velocity, input.direction, input.dt as int),
            input.dt as int,
        ),
        velocity: player_vel_spec(w.player.velocity, input.direction, input.dt as int),
        radius: w.player.radius,
        wrap_margin: w.player.wrap_margin,
    }
}

/// A pursuer's body after its own steering, pull and integration, before
/// wraparound.
pub open spec fn pursuer_after_steering(pu: Pursuer, w: World, input: FrameInput) -> Body {
    let moved = player_after_motion(w, input);
    let v = enemy_vel_spec(
        pu,
        moved.position,
        moved.velocity,
        w.coin.position,
        w.bounds.width as int,
        w.bounds.height as int,
        input.dt as int,
    );
    Body {
        position: integrate_spec(pu.body.position, v, input.dt as int),
        velocity: v,
        radius: pu.body.radius,
        wrap_margin: pu.body.wrap_margin,
    }
}

/// Where one tick of motion leaves a pursuer: steered, integrated and
/// toroidally corrected, its profile untouched.
pub open spec fn pursuer_moved(before: Pursuer, w: World, input: FrameInput) -> Pursuer {
    let b = pursuer_after_steering(before, w, input);
    Pursuer {
        body: Body {
            position: vec2_of(
                wrap_coord_spec(b.position.x as int, w.bounds.width / 2 + b.wrap_margin),
                wrap_coord_spec(b.position.y as int, w.bounds.height / 2 + b.wrap_margin),
            ),
            velocity: b.velocity,
            radius: b.radius,
            wrap_margin: b.wrap_margin,
        },
        profile: before.profile,
    }
}

/// Hit and pickup processing move no entity, so what the detection scan saw
/// still holds of the first pursuers at the end of the tick.
proof fn lemma_detection_survives_the_tick(
    dp: Body,
    dseq: Seq<Pursuer>,
    fp: Body,
    fseq: Seq<Pursuer>,
)
    requires
        fp == dp,
        dseq.len() <= fseq.len(),
        forall|k: int|
            #![trigger fseq[k]]
            0 <= k < dseq.len() ==> fseq[k].body.position == dseq[k].body.position
                && fseq[k].body.radius == dseq[k].body.radius,
    ensures
        any_pursuer_hit(fp, fseq.take(dseq.len() as int)) == any_pursuer_hit(dp, dseq),
{
    let t = fseq.take(dseq.len() as int);
    assert(t.len() == dseq.len());
    assert forall|k: int| 0 <= k < dseq.len() implies #[trigger] t[k] == fseq[k] by {}
    if any_pursuer_hit(dp, dseq) {
        let i = choose|i: int|
            0 <= i < dseq.len() && #[trigger] collides_spec(
                dp.position,
                dp.radius as int,
                dseq[i].body.position,
                dseq[i].body.radius as int,
            );
        assert(collides_spec(
            fp.position,
            fp.radius as int,
            t[i].body.position,
            t[i].body.radius as int,
        ));
        assert(any_pursuer_hit(fp, t));
    }
    if any_pursuer_hit(fp, t) {
        let i = choose|i: int|
            0 <= i < t.len() && #[trigger] collides_spec(
                fp.position,
                fp.radius as int,
                t[i].body.position,
                t[i].body.radius as int,
            );
        assert(collides_spec(
            dp.position,
            dp.radius as int,
            dseq[i].body.position,
            dseq[i].body.radius as int,
        ));
        assert(any_pursuer_hit(dp, dseq));
    }
}

/// A pursuer's state between integration and wraparound: the position may
/// overhang the play area by one tick of travel.
pub open spec fn pursuer_prewrap_wf(p: Pursuer) -> bool {
    &&& crate::entity::profile_wf(p.profile)
    &&& in_box(p.body.velocity, VEL_LIMIT as int)
    &&& in_box(p.body.position, prewrap_limit())
    &&& 0 <= p.body.radius <= crate::RADIUS_LIMIT
    &&& 0 <= p.body.wrap_margin <= crate::RADIUS_LIMIT
}

impl World {
    /// One frame of simulation, in the pipeline's fixed order: player
    /// steering, pursuer AI over start-of-tick snapshots, wraparound,
    /// collision detection, the invincibility timer, hit and pickup
    /// processing, the terminal check, and screen shake. A menu tick only
    /// runs the shake. The returned events carry everything the shell
    /// renders or sonifies; while the player is invincible no hit is ever
    /// emitted, and no tick emits more than one.
    pub fn tick(&mut self, input: FrameInput) -> (events: Vec<GameEvent>)
        requires
            world_wf(*old(self)),
            input_wf(input),
            old(self).state is Playing ==> old(self).info.score < i32::MAX,
        ensures
            world_wf(*final(self)),
            final(self).bounds == old(self).bounds,
            forall|i: int|
                0 <= i < events@.len() && is_player_hit(#[trigger] events@[i]) ==> i == 0 && !old(
                    self,
                ).info.invincible && old(self).state is Playing,
            old(self).state is Menu ==> final(self).state is Menu && final(self).info == old(
                self,
            ).info && final(self).player == old(self).player && final(self).coin == old(self).coin
                && final(self).pursuers@ == old(self).pursuers@ && final(self).last_score == old(
                self,
            ).last_score && final(self).timer == old(self).timer && events@.len() == 1
                && is_shake_offset(events@[0]),
            old(self).state is Playing ==> old(self).info.score <= final(self).info.score <= old(
                self,
            ).info.score + 1,
            old(self).state is Playing && old(self).info.invincible ==> final(self).info.health
                >= old(self).info.health,
            old(self).state is Playing && final(self).state is Playing ==> ((exists|i: int|
                0 <= i < events@.len() && is_player_hit(#[trigger] events@[i])) <==> (!old(
                self,
            ).info.invincible && any_pursuer_hit(
                final(self).player,
                final(self).pursuers@.take(old(self).pursuers@.len() as int),
            ))),
            old(self).state is Playing && final(self).state is Menu ==> events@.len() >= 1
                && is_player_hit(events@[0]),
            old(self).state is Playing && final(self).state is Playing ==> final(self).pursuers@.len()
                - old(self).pursuers@.len() == final(self).info.score - old(self).info.score,
            events@.len() >= 1 && is_shake_offset(events@.last()),
            old(self).state is Playing ==> final(self).player.radius == old(self).player.radius
                && final(self).player.wrap_margin == old(self).player.wrap_margin,
            old(self).state is Playing ==> final(self).player.velocity == player_vel_spec(
                old(self).player.velocity,
                input.direction,
                input.dt as int,
            ),
            old(self).state is Playing ==> final(self).player.position.x == wrap_coord_spec(
                integrate_spec(
                    old(self).player.position,
                    final(self).player.velocity,
                    input.dt as int,
                ).x as int,
                old(self).bounds.width / 2 + old(self).player.wrap_margin,
            ),
            old(self).state is Playing ==> final(self).player.position.y == wrap_coord_spec(
                integrate_spec(
                    old(self).player.position,
                    final(self).player.velocity,
                    input.dt as int,
                ).y as int,
                old(self).bounds.height / 2 + old(self).player.wrap_margin,
            ),
            old(self).state is Playing && final(self).state is Playing && (forall|j: int|
                0 <= j < events@.len() ==> !is_player_hit(#[trigger] events@[j])) ==> forall|i: int|
                0 <= i < old(self).pursuers@.len() ==> #[trigger] final(self).pursuers@[i]
                == pursuer_moved(old(self).pursuers@[i], *old(self), input),
            old(self).state is Playing && final(self).state is Playing && (exists|j: int|
                0 <= j < events@.len() && is_player_hit(#[trigger] events@[j])) ==> forall|i: int|
                0 <= i < old(self).pursuers@.len() ==> knocked_back(
                    pursuer_moved(old(self).pursuers@[i], *old(self), input),
                    #[trigger] final(self).pursuers@[i],
                    final(self).player.position,
                ),
    {
        let mut events: Vec<GameEvent> = Vec::new();
        let playing = self.state == AppState::Playing;
        if playing {
            move_player(&mut self.player, input.direction, input.dt);
            let player_snapshot = self.player;
            let coin_pos = self.coin.position;
            let w = self.bounds.width;
            let h = self.bounds.height;
            let n = self.pursuers.len();
            let mut i: usize = 0;
            let ghost frame0 = *self;
            proof {
                assert(player_snapshot == player_after_motion(*old(self), input));
            }
            while i < n
                invariant
                    0 <= i <= n,
                    n == self.pursuers@.len(),
                    self.player == frame0.player,
                    self.coin == frame0.coin,
                    self.info == frame0.info,
                    self.timer == frame0.timer,
                    self.shake == frame0.shake,
                    self.state == frame0.state,
                    self.bounds == frame0.bounds,
                    self.last_score == frame0.last_score,
                    self.generator == frame0.generator,
                    in_box(player_snapshot.position, POS_LIMIT as int + 10_000_000),
                    in_box(player_snapshot.velocity, PLAYER_MAX_SPEED as int),
                    in_box(coin_pos, POS_LIMIT as int),
                    2 <= w <= 2 * HALF_EXTENT_LIMIT,
                    2 <= h <= 2 * HALF_EXTENT_LIMIT,
                    0 <= input.dt <= DT_LIMIT,
                    player_snapshot == player_after_motion(*old(self), input),
                    coin_pos == old(self).coin.position,
                    w == old(self).bounds.width,
                    h == old(self).bounds.height,
                    forall|k: int| 0 <= k < i ==> pursuer_prewrap_wf(#[trigger] self.pursuers@[k]),
                    forall|k: int|
                        0 <= k < i ==> (#[trigger] self.pursuers@[k]).body == pursuer_after_steering(
                            old(self).pursuers@[k],
                            *old(self),
                            input,
                        ) && self.pursuers@[k].profile == old(self).pursuers@[k].profile,
                    forall|k: int| i <= k < n ==> pursuer_wf(#[trigger] self.pursuers@[k]),
                    forall|k: int|
                        i <= k < n ==> #[trigger] self.pursuers@[k] == old(self).pursuers@[k],
                decreases n - i,
            {
                let mut pu = self.pursuers[i];
                move_enemy(
                    &mut pu,
                    player_snapshot.position,
                    player_snapshot.velocity,
                    coin_pos,
                    w,
                    h,
                    input.dt,
                );
                proof {
                    assert(pu.body == pursuer_after_steering(
                        old(self).pursuers@[i as int],
                        *old(self),
                        input,
                    ));
                }
                self.pursuers[i] = pu;
                i = i + 1;
            }
            let half_w = w / 2;
            let half_h = h / 2;
            self.player.position = wraparound(
                self.player.position,
                half_w,
                half_h,
                self.player.wrap_margin,
            );
            self.coin.position = wraparound(
                self.coin.position,
                half_w,
                half_h,
                self.coin.wrap_margin,
            );
            let mut j: usize = 0;
            let ghost frame1 = *self;
            while j < n
                invariant
                    0 <= j <= n,
                    n == self.pursuers@.len(),
                    self.player == frame1.player,
                    self.coin == frame1.coin,
                    self.info == frame1.info,
                    self.timer == frame1.timer,
                    self.shake == frame1.shake,
                    self.state == frame1.state,
                    self.bounds == frame1.bounds,
                    self.last_score == frame1.last_score,
                    self.generator == frame1.generator,
                    0 <= half_w <= HALF_EXTENT_LIMIT,
                    0 <= half_h <= HALF_EXTENT_LIMIT,
                    half_w == old(self).bounds.width / 2,
                    half_h == old(self).bounds.height / 2,
                    forall|k: int| 0 <= k < j ==> pursuer_wf(#[trigger] self.pursuers@[k]),
                    forall|k: int|
                        0 <= k < j ==> #[trigger] self.pursuers@[k] == pursuer_moved(
                            old(self).pursuers@[k],
                            *old(self),
                            input,
                        ),
                    forall|k: int| j <= k < n ==> pursuer_prewrap_wf(#[trigger] self.pursuers@[k]),
                    forall|k: int|
                        j <= k < n ==> (#[trigger] self.pursuers@[k]).body == pursuer_after_steering(
                            old(self).pursuers@[k],
                            *old(self),
                            input,
                        ) && self.pursuers@[k].profile == old(self).pursuers@[k].profile,
                decreases n - j,
            {
                let mut pu = self.pursuers[j];
                pu.body.position = wraparound(pu.body.position, half_w, half_h, pu.body.wrap_margin);
                proof {
                    assert(pu == pursuer_moved(old(self).pursuers@[j as int], *old(self), input));
                }
                self.pursuers[j] = pu;
                j = j + 1;
            }
            let enemy_hit = enemy_collision(&self.player, &self.pursuers, self.info.invincible);
            let coin_hit = coin_collision(&self.player, &self.coin);
            let ghost detect_pursuers = self.pursuers@;
            let ghost detect_player = self.player;
            let just_finished = self.timer.tick(input.dt);
            if just_finished {
                self.info.invincible = false;
            }
            if enemy_hit {
                self.apply_hit(&mut events);
                proof {
                    assert(events@.len() == 1 && is_player_hit(events@[0]));
                }
            }
            proof {
                assert(forall|k: int|
                    0 <= k < events@.len() && is_player_hit(#[trigger] events@[k]) ==> k == 0
                        && !old(self).info.invincible);
            }
            if coin_hit {
                let ghost len_before = events@.len();
                self.apply_pickup(&mut events);
                proof {
                    assert(forall|k: int|
                        0 <= k < len_before ==> #[trigger] events@[k] == events@.subrange(
                            0,
                            len_before as int,
                        )[k]);
                }
            }
            if enemy_hit {
                self.check_terminal(&mut events);
            }
            proof {
                if self.state is Playing {
                    lemma_detection_survives_the_tick(
                        detect_player,
                        detect_pursuers,
                        self.player,
                        self.pursuers@,
                    );
                    if enemy_hit {
                        assert(is_player_hit(events@[0]));
                    } else {
                        assert(forall|k: int|
                            0 <= k < events@.len() ==> !is_player_hit(#[trigger] events@[k]));
                    }
                }
            }
        }
        let offset = self.shake.tick(input.dt);
        events.push(GameEvent::ShakeOffset { x: offset.x, y: offset.y });
        events
    }

    /// The per-tick entity snapshot for drawing: stable integer handles,
    /// role tags, positions and radii. The player is handle 0, the pickup
    /// handle 1, and each pursuer `2 + index`.
    pub fn entity_snapshot(&self) -> (snap: Vec<(u64, Role, Vec2, i64)>)
        requires
            self.pursuers@.len() <= 1_000_000_000,
        ensures
            snap@.len() == 2 + self.pursuers@.len(),
            snap@[0] == (0u64, Role::Player, self.player.position, self.player.radius),
            snap@[1] == (1u64, Role::Pickup, self.coin.position, self.coin.radius),
            forall|i: int|
                0 <= i < self.pursuers@.len() ==> #[trigger] snap@[2 + i] == (
                    (2 + i) as u64,
                    Role::Pursuer,
                    self.pursuers@[i].body.position,
                    self.pursuers@[i].body.radius,
                ),
    {
        let mut snap: Vec<(u64, Role, Vec2, i64)> = Vec::new();
        snap.push((0u64, Role::Player, self.player.position, self.player.radius));
        snap.push((1u64, Role::Pickup, self.coin.position, self.coin.radius));
        let n = self.pursuers.len();
        let mut i: usize = 0;
        while i < n
            invariant
                0 <= i <= n,
                n == self.pursuers@.len(),
                n <= 1_000_000_000,
                snap@.len() == 2 + i,
                snap@[0] == (0u64, Role::Player, self.player.position, self.player.radius),
                snap@[1] == (1u64, Role::Pickup, self.coin.position, self.coin.radius),
                forall|k: int|
                    0 <= k < i ==> #[trigger] snap@[2 + k] == (
                        (2 + k) as u64,
                        Role::Pursuer,
                        self.pursuers@[k].body.position,
                        self.pursuers@[k].body.radius,
                    ),
            decreases n - i,
        {
            let pu = &self.pursuers[i];
            snap.push(((2 + i) as u64, Role::Pursuer, pu.body.position, pu.body.radius));
            i = i + 1;
        }
        snap
    }

    pub fn score(&self) -> (r: i32)
        ensures
            r == self.info.score,
    {
        self.info.score
    }

    pub fn health(&self) -> (r: i32)
        ensures
            r == self.info.health,
    {
        self.info.health
    }

    pub fn is_invincible(&self) -> (r: bool)
        ensures
            r == self.info.invincible,
    {
        self.info.invincible
    }

    pub fn app_state(&self) -> (r: AppState)
        ensures
            r == self.state,
    {
        self.state
    }

    pub fn last_completed_score(&self) -> (r: Option<i32>)
        ensures
            r == self.last_score,
    {
        self.last_score
    }

    pub fn pursuer_count(&self) -> (r: usize)
        ensures
            r == self.pursuers@.len(),
    {
        self.pursuers.len()
    }
}

} // verus!
