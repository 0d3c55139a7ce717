//! The difficulty curve and the knockback falloff: both are fixed-point
//! exponentials, computed as iterated per-step ratios so that every value is
//! exact and the curve's monotonicity can be proved outright.

use vstd::prelude::*;

use crate::{
    ACCEL_DECAY_RATIO, ACCEL_MIDPOINT_GAIN, ENEMY_MAX_ACCEL, ENEMY_MAX_SPEED, ENEMY_MIN_ACCEL,
    ENEMY_MIN_SPEED, KNOCKBACK_DECAY_RATIO, KNOCKBACK_FACTOR_CAP, KNOCKBACK_GROWTH_RATIO,
    SPEED_DECAY_RATIO, SPEED_MIDPOINT_GAIN, UNIT,
};

verus! {

/// `ratio^n` in fixed point (`UNIT` is one), truncating at each step; the
/// per-score decay of the logistic curve and the with-distance knockback
/// falloff.
pub open spec fn pow_frac_spec(ratio: int, n: nat) -> int
    decreases n,
{
    if n == 0 {
        UNIT as int
    } else {
        pow_frac_spec(ratio, (n - 1) as nat) * ratio / (UNIT as int)
    }
}

pub proof fn lemma_pow_frac_bounds(ratio: int, n: nat)
    requires
        0 <= ratio <= UNIT,
    ensures
        0 <= pow_frac_spec(ratio, n) <= UNIT,
    decreases n,
{
    if n > 0 {
        lemma_pow_frac_bounds(ratio, (n - 1) as nat);
        let p = pow_frac_spec(ratio, (n - 1) as nat);
        assert(0 <= p * ratio <= 1000 * 1000) by (nonlinear_arith)
            requires
                0 <= p <= 1000,
                0 <= ratio <= 1000,
        ;
        vstd::arithmetic::div_mod::lemma_div_pos_is_pos(p * ratio, UNIT as int);
        vstd::arithmetic::div_mod::lemma_div_is_ordered(p * ratio, (1000 * 1000) as int, UNIT as int);
    }
}

/// One step of decay never increases the power.
proof fn lemma_pow_frac_step_antitone(ratio: int, n: nat)
    requires
        0 <= ratio <= UNIT,
    ensures
        pow_frac_spec(ratio, n + 1) <= pow_frac_spec(ratio, n),
{
    lemma_pow_frac_bounds(ratio, n);
    let p = pow_frac_spec(ratio, n);
    assert(p * ratio <= p * 1000) by (nonlinear_arith)
        requires
            0 <= p,
            ratio <= 1000,
    ;
    vstd::arithmetic::div_mod::lemma_div_is_ordered(p * ratio, p * 1000, UNIT as int);
    assert(p * 1000 == 1000 * p) by (nonlinear_arith);
    vstd::arithmetic::div_mod::lemma_div_multiples_vanish(p, 1000 as int);
}

pub proof fn lemma_pow_frac_antitone(ratio: int, m: nat, n: nat)
    requires
        0 <= ratio <= UNIT,
        m <= n,
    ensures
        pow_frac_spec(ratio, n) <= pow_frac_spec(ratio, m),
    decreases n - m,
{
    if m < n {
        lemma_pow_frac_antitone(ratio, m, (n - 1) as nat);
        lemma_pow_frac_step_antitone(ratio, (n - 1) as nat);
    }
}

pub fn pow_frac(ratio: i64, n: i64) -> (r: i64)
    requires
        0 <= ratio <= UNIT,
        0 <= n,
    ensures
        r == pow_frac_spec(ratio as int, n as nat),
        0 <= r <= UNIT,
{
    let mut p: i64 = UNIT;
    let mut i: i64 = 0;
    while i < n
        invariant
            0 <= i <= n,
            0 <= ratio <= UNIT,
            p == pow_frac_spec(ratio as int, i as nat),
            0 <= p <= UNIT,
        decreases n - i,
    {
        proof {
            assert(0 <= p * ratio <= 1000 * 1000) by (nonlinear_arith)
                requires
                    0 <= p <= 1000,
                    0 <= ratio <= 1000,
            ;
            vstd::arithmetic::div_mod::lemma_div_pos_is_pos(p * ratio, UNIT as int);
            vstd::arithmetic::div_mod::lemma_div_is_ordered(p * ratio, (1000 * 1000) as int, UNIT as int);
        }
        p = (p * ratio) / UNIT;
        i = i + 1;
    }
    p
}

/// The logistic difficulty response for a score: `UNIT² / (UNIT + gain·ratio^s/UNIT)`,
/// an S-curve rising smoothly toward a soft ceiling of `UNIT`.
pub open spec fn logistic_spec(gain: int, ratio: int, s: nat) -> int {
    (UNIT as int) * (UNIT as int) / ((UNIT as int) + gain * pow_frac_spec(ratio, s) / (UNIT as int))
}

pub proof fn lemma_logistic_bounds(gain: int, ratio: int, s: nat)
    requires
        0 <= gain <= 30_000,
        0 <= ratio <= UNIT,
    ensures
        0 <= logistic_spec(gain, ratio, s) <= UNIT,
{
    lemma_pow_frac_bounds(ratio, s);
    let p = pow_frac_spec(ratio, s);
    assert(0 <= gain * p <= 30_000 * 1000) by (nonlinear_arith)
        requires
            0 <= gain <= 30_000,
            0 <= p <= 1000,
    ;
    vstd::arithmetic::div_mod::lemma_div_pos_is_pos(gain * p, UNIT as int);
    let q = gain * p / (UNIT as int);
    vstd::arithmetic::div_mod::lemma_div_pos_is_pos((1000 * 1000) as int, 1000 + q);
    vstd::arithmetic::div_mod::lemma_div_is_ordered_by_denominator((1000 * 1000) as int, 1000 as int, 1000 + q);
}

/// A higher score never lowers the logistic response.
proof fn lemma_logistic_monotone(gain: int, ratio: int, s1: nat, s2: nat)
    requires
        0 <= gain <= 30_000,
        0 <= ratio <= UNIT,
        s1 <= s2,
    ensures
        logistic_spec(gain, ratio, s1) <= logistic_spec(gain, ratio, s2),
{
    lemma_pow_frac_antitone(ratio, s1, s2);
    lemma_pow_frac_bounds(ratio, s1);
    lemma_pow_frac_bounds(ratio, s2);
    let p1 = pow_frac_spec(ratio, s1);
    let p2 = pow_frac_spec(ratio, s2);
    assert(gain * p2 <= gain * p1 && 0 <= gain * p2) by (nonlinear_arith)
        requires
            0 <= gain,
            0 <= p2 <= p1,
    ;
    vstd::arithmetic::div_mod::lemma_div_is_ordered(gain * p2, gain * p1, UNIT as int);
    vstd::arithmetic::div_mod::lemma_div_pos_is_pos(gain * p2, UNIT as int);
    let q1 = gain * p1 / (UNIT as int);
    let q2 = gain * p2 / (UNIT as int);
    vstd::arithmetic::div_mod::lemma_div_is_ordered_by_denominator((1000 * 1000) as int, 1000 + q2, 1000 + q1);
}

/// Deviation-free pursuer speed drawn for a score: the logistic response
/// mapped into `[ENEMY_MIN_SPEED, ENEMY_MAX_SPEED]`.
pub open spec fn base_speed_spec(s: nat) -> int {
    logistic_spec(SPEED_MIDPOINT_GAIN as int, SPEED_DECAY_RATIO as int, s) * ((ENEMY_MAX_SPEED
        - ENEMY_MIN_SPEED) as int) / (UNIT as int) + ENEMY_MIN_SPEED
}

/// Deviation-free pursuer acceleration drawn for a score, mapped into
/// `[ENEMY_MIN_ACCEL, ENEMY_MAX_ACCEL]`.
pub open spec fn base_accel_spec(s: nat) -> int {
    logistic_spec(ACCEL_MIDPOINT_GAIN as int, ACCEL_DECAY_RATIO as int, s) * ((ENEMY_MAX_ACCEL
        - ENEMY_MIN_ACCEL) as int) / (UNIT as int) + ENEMY_MIN_ACCEL
}

proof fn lemma_curve_map_bounds(f: int, lo: int, hi: int)
    requires
        0 <= f <= UNIT,
        0 <= lo < hi,
        hi - lo <= 1_000_000,
    ensures
        lo <= f * (hi - lo) / (UNIT as int) + lo <= hi,
{
    let w = hi - lo;
    assert(0 <= f * w <= 1000 * w) by (nonlinear_arith)
        requires
            0 <= f <= 1000,
            0 <= w,
    ;
    vstd::arithmetic::div_mod::lemma_div_pos_is_pos(f * w, UNIT as int);
    vstd::arithmetic::div_mod::lemma_div_is_ordered(f * w, 1000 * w, UNIT as int);
    assert(1000 * w == w * 1000) by (nonlinear_arith);
    vstd::arithmetic::div_mod::lemma_div_multiples_vanish(w, 1000 as int);
}

proof fn lemma_curve_map_monotone(f1: int, f2: int, w: int)
    requires
        0 <= f1 <= f2,
        0 <= w,
    ensures
        f1 * w / (UNIT as int) <= f2 * w / (UNIT as int),
{
    assert(f1 * w <= f2 * w) by (nonlinear_arith)
        requires
            0 <= f1 <= f2,
            0 <= w,
    ;
    vstd::arithmetic::div_mod::lemma_div_is_ordered(f1 * w, f2 * w, UNIT as int);
}

pub proof fn lemma_base_speed_bounds(s: nat)
    ensures
        ENEMY_MIN_SPEED <= base_speed_spec(s) <= ENEMY_MAX_SPEED,
        ENEMY_MIN_ACCEL <= base_accel_spec(s) <= ENEMY_MAX_ACCEL,
{
    lemma_logistic_bounds(SPEED_MIDPOINT_GAIN as int, SPEED_DECAY_RATIO as int, s);
    lemma_logistic_bounds(ACCEL_MIDPOINT_GAIN as int, ACCEL_DECAY_RATIO as int, s);
    lemma_curve_map_bounds(
        logistic_spec(SPEED_MIDPOINT_GAIN as int, SPEED_DECAY_RATIO as int, s),
        ENEMY_MIN_SPEED as int,
        ENEMY_MAX_SPEED as int,
    );
    lemma_curve_map_bounds(
        logistic_spec(ACCEL_MIDPOINT_GAIN as int, ACCEL_DECAY_RATIO as int, s),
        ENEMY_MIN_ACCEL as int,
        ENEMY_MAX_ACCEL as int,
    );
}

/// Law: for a fixed seed the deviation-free difficulty is monotone — a
/// higher score never yields a slower or lazier pursuer profile, up to the
/// curve's saturation.
pub proof fn lemma_difficulty_monotonic(s1: nat, s2: nat)
    requires
        s1 <= s2,
    ensures
        base_speed_spec(s1) <= base_speed_spec(s2),
        base_accel_spec(s1) <= base_accel_spec(s2),
{
    lemma_logistic_monotone(SPEED_MIDPOINT_GAIN as int, SPEED_DECAY_RATIO as int, s1, s2);
    lemma_logistic_monotone(ACCEL_MIDPOINT_GAIN as int, ACCEL_DECAY_RATIO as int, s1, s2);
    lemma_logistic_bounds(SPEED_MIDPOINT_GAIN as int, SPEED_DECAY_RATIO as int, s1);
    lemma_logistic_bounds(SPEED_MIDPOINT_GAIN as int, SPEED_DECAY_RATIO as int, s2);
    lemma_logistic_bounds(ACCEL_MIDPOINT_GAIN as int, ACCEL_DECAY_RATIO as int, s1);
    lemma_logistic_bounds(ACCEL_MIDPOINT_GAIN as int, ACCEL_DECAY_RATIO as int, s2);
    lemma_curve_map_monotone(
        logistic_spec(SPEED_MIDPOINT_GAIN as int, SPEED_DECAY_RATIO as int, s1),
        logistic_spec(SPEED_MIDPOINT_GAIN as int, SPEED_DECAY_RATIO as int, s2),
        (ENEMY_MAX_SPEED - ENEMY_MIN_SPEED) as int,
    );
    lemma_curve_map_monotone(
        logistic_spec(ACCEL_MIDPOINT_GAIN as int, ACCEL_DECAY_RATIO as int, s1),
        logistic_spec(ACCEL_MIDPOINT_GAIN as int, ACCEL_DECAY_RATIO as int, s2),
        (ENEMY_MAX_ACCEL - ENEMY_MIN_ACCEL) as int,
    );
}

pub(crate) fn logistic(gain: i64, ratio: i64, score: i64) -> (r: i64)
    requires
        0 <= gain <= 30_000,
        0 <= ratio <= UNIT,
        0 <= score,
    ensures
        r == logistic_spec(gain as int, ratio as int, score as nat),
        0 <= r <= UNIT,
{
    let p = pow_frac(ratio, score);
    proof {
        assert(0 <= gain * p <= 30_000 * 1000) by (nonlinear_arith)
            requires
                0 <= gain <= 30_000,
                0 <= p <= 1000,
        ;
        lemma_logistic_bounds(gain as int, ratio as int, score as nat);
    }
    let q = (gain * p) / UNIT;
    (UNIT * UNIT) / (UNIT + q)
}

pub fn enemy_base_speed(score: i64) -> (r: i64)
    requires
        0 <= score,
    ensures
        r == base_speed_spec(score as nat),
        ENEMY_MIN_SPEED <= r <= ENEMY_MAX_SPEED,
{
    let f = logistic(SPEED_MIDPOINT_GAIN, SPEED_DECAY_RATIO, score);
    proof {
        assert(0 <= f * 300_000 <= 1000 * 300_000) by (nonlinear_arith)
            requires
                0 <= f <= 1000,
        ;
        lemma_base_speed_bounds(score as nat);
    }
    (f * (ENEMY_MAX_SPEED - ENEMY_MIN_SPEED)) / UNIT + ENEMY_MIN_SPEED
}

pub fn enemy_base_accel(score: i64) -> (r: i64)
    requires
        0 <= score,
    ensures
        r == base_accel_spec(score as nat),
        ENEMY_MIN_ACCEL <= r <= ENEMY_MAX_ACCEL,
{
    let f = logistic(ACCEL_MIDPOINT_GAIN, ACCEL_DECAY_RATIO, score);
    proof {
        assert(0 <= f * 300_000 <= 1000 * 300_000) by (nonlinear_arith)
            requires
                0 <= f <= 1000,
        ;
        lemma_base_speed_bounds(score as nat);
    }
    (f * (ENEMY_MAX_ACCEL - ENEMY_MIN_ACCEL)) / UNIT + ENEMY_MIN_ACCEL
}

/// Capped fixed-point amplification `ratio^n` for a ratio above `UNIT`,
/// saturating at `KNOCKBACK_FACTOR_CAP` so the shove on deeply overlapping
/// pursuers stays bounded.
pub open spec fn pow_amp_spec(ratio: int, n: nat) -> int
    decreases n,
{
    if n == 0 {
        UNIT as int
    } else {
        let p = pow_amp_spec(ratio, (n - 1) as nat) * ratio / (UNIT as int);
        if p > KNOCKBACK_FACTOR_CAP {
            KNOCKBACK_FACTOR_CAP as int
        } else {
            p
        }
    }
}

pub proof fn lemma_pow_amp_bounds(ratio: int, n: nat)
    requires
        UNIT <= ratio <= 2 * UNIT,
    ensures
        UNIT <= pow_amp_spec(ratio, n) <= KNOCKBACK_FACTOR_CAP,
    decreases n,
{
    if n > 0 {
        lemma_pow_amp_bounds(ratio, (n - 1) as nat);
        let p = pow_amp_spec(ratio, (n - 1) as nat);
        assert(1000 * 1000 <= p * ratio <= 100_000 * 2000) by (nonlinear_arith)
            requires
                1000 <= p <= 100_000,
                1000 <= ratio <= 2000,
        ;
        vstd::arithmetic::div_mod::lemma_div_is_ordered((1000 * 1000) as int, p * ratio, UNIT as int);
    }
}

pub fn pow_amp(ratio: i64, n: i64) -> (r: i64)
    requires
        UNIT <= ratio <= 2 * UNIT,
        0 <= n,
    ensures
        r == pow_amp_spec(ratio as int, n as nat),
        UNIT <= r <= KNOCKBACK_FACTOR_CAP,
{
    let mut p: i64 = UNIT;
    let mut i: i64 = 0;
    proof {
        lemma_pow_amp_bounds(ratio as int, 0);
    }
    while i < n
        invariant
            0 <= i <= n,
            UNIT <= ratio <= 2 * UNIT,
            p == pow_amp_spec(ratio as int, i as nat),
            UNIT <= p <= KNOCKBACK_FACTOR_CAP,
        decreases n - i,
    {
        proof {
            assert(1000 * 1000 <= p * ratio <= 100_000 * 2000) by (nonlinear_arith)
                requires
                    1000 <= p <= 100_000,
                    1000 <= ratio <= 2000,
            ;
            vstd::arithmetic::div_mod::lemma_div_is_ordered((1000 * 1000) as int, p * ratio, UNIT as int);
            vstd::arithmetic::div_mod::lemma_div_is_ordered(p * ratio, (100_000 * 2000) as int, UNIT as int);
        }
        let q = (p * ratio) / UNIT;
        p = if q > KNOCKBACK_FACTOR_CAP {
            KNOCKBACK_FACTOR_CAP
        } else {
            q
        };
        i = i + 1;
    }
    p
}

/// One step of amplification never decreases the capped power.
proof fn lemma_pow_amp_step_monotone(ratio: int, n: nat)
    requires
        UNIT <= ratio <= 2 * UNIT,
    ensures
        pow_amp_spec(ratio, n) <= pow_amp_spec(ratio, n + 1),
{
    lemma_pow_amp_bounds(ratio, n);
    let p = pow_amp_spec(ratio, n);
    assert(p * 1000 <= p * ratio) by (nonlinear_arith)
        requires
            0 <= p,
            1000 <= ratio,
    ;
    vstd::arithmetic::div_mod::lemma_div_is_ordered(p * 1000, p * ratio, UNIT as int);
    assert(p * 1000 == 1000 * p) by (nonlinear_arith);
    vstd::arithmetic::div_mod::lemma_div_multiples_vanish(p, 1000 as int);
}

pub proof fn lemma_pow_amp_monotone(ratio: int, m: nat, n: nat)
    requires
        UNIT <= ratio <= 2 * UNIT,
        m <= n,
    ensures
        pow_amp_spec(ratio, m) <= pow_amp_spec(ratio, n),
    decreases n - m,
{
    if m < n {
        lemma_pow_amp_monotone(ratio, m, (n - 1) as nat);
        lemma_pow_amp_step_monotone(ratio, (n - 1) as nat);
    }
}

/// The knockback falloff factor for a separation `sep` between the player's
/// and a pursuer's circle edges: exactly `UNIT` at contact, amplified
/// (capped) with overlap depth, decaying with distance.
pub open spec fn knockback_factor_spec(sep: int) -> int {
    if sep < 0 {
        pow_amp_spec(KNOCKBACK_GROWTH_RATIO as int, ((-sep) / (UNIT as int)) as nat)
    } else {
        pow_frac_spec(KNOCKBACK_DECAY_RATIO as int, (sep / (UNIT as int)) as nat)
    }
}

/// The negative decay rate means farther pursuers receive a smaller shove:
/// the falloff factor never grows with the separation.
pub proof fn lemma_knockback_attenuates(sep1: int, sep2: int)
    requires
        sep1 <= sep2,
    ensures
        knockback_factor_spec(sep2) <= knockback_factor_spec(sep1),
{
    if sep2 < 0 {
        let n1 = (-sep1) / (UNIT as int);
        let n2 = (-sep2) / (UNIT as int);
        vstd::arithmetic::div_mod::lemma_div_is_ordered(-sep2, -sep1, UNIT as int);
        vstd::arithmetic::div_mod::lemma_div_pos_is_pos(-sep2, UNIT as int);
        lemma_pow_amp_monotone(KNOCKBACK_GROWTH_RATIO as int, n2 as nat, n1 as nat);
    } else if sep1 >= 0 {
        let n1 = sep1 / (UNIT as int);
        let n2 = sep2 / (UNIT as int);
        vstd::arithmetic::div_mod::lemma_div_is_ordered(sep1, sep2, UNIT as int);
        vstd::arithmetic::div_mod::lemma_div_pos_is_pos(sep1, UNIT as int);
        lemma_pow_frac_antitone(KNOCKBACK_DECAY_RATIO as int, n1 as nat, n2 as nat);
    } else {
        vstd::arithmetic::div_mod::lemma_div_pos_is_pos(-sep1, UNIT as int);
        vstd::arithmetic::div_mod::lemma_div_pos_is_pos(sep2, UNIT as int);
        lemma_pow_amp_bounds(KNOCKBACK_GROWTH_RATIO as int, ((-sep1) / (UNIT as int)) as nat);
        lemma_pow_frac_bounds(KNOCKBACK_DECAY_RATIO as int, (sep2 / (UNIT as int)) as nat);
    }
}

pub fn knockback_factor(sep: i64) -> (r: i64)
    requires
        -4_000_000_000 <= sep <= 4_000_000_000,
    ensures
        r == knockback_factor_spec(sep as int),
        0 <= r <= KNOCKBACK_FACTOR_CAP,
{
    if sep < 0 {
        let n = (-sep) / UNIT;
        proof {
            vstd::arithmetic::div_mod::lemma_div_pos_is_pos(-(sep as int), UNIT as int);
        }
        pow_amp(KNOCKBACK_GROWTH_RATIO, n)
    } else {
        let n = sep / UNIT;
        proof {
            vstd::arithmetic::div_mod::lemma_div_pos_is_pos(sep as int, UNIT as int);
            lemma_pow_frac_bounds(KNOCKBACK_DECAY_RATIO as int, n as nat);
        }
        pow_frac(KNOCKBACK_DECAY_RATIO, n)
    }
}

} // verus!
