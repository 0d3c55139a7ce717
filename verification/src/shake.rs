//! Screen shake: a trauma scalar accumulated from damage events decays each
//! tick through a one-pole low-pass blend, and drives a damped oscillating
//! camera offset with independent X and Y frequencies.

use vstd::prelude::*;

use crate::geom::{abs_val, scale_unit, scale_unit_spec, Vec2};
use crate::{DT_LIMIT, HALF_UNIT, SHAKE_LERP, SHAKE_X_FREQUENCY, SHAKE_Y_FREQUENCY, TRAUMA_LIMIT, UNIT};

verus! {

/// Scale that maps the quarter-wave parabola back into `UNIT`ths:
/// `HALF_UNIT * HALF_UNIT / UNIT`.
pub const SIN_DIV: i64 = 250;

/// Parabolic approximation of `sin(2π · phase/UNIT)` in `UNIT`ths, for a
/// phase in `[0, UNIT)`: the classic `4x(1-x)` arc over each half turn,
/// negated over the second half.
pub open spec fn sin_milli_spec(phase: int) -> int {
    if phase < HALF_UNIT {
        4 * phase * (HALF_UNIT - phase) / (SIN_DIV as int)
    } else {
        -(4 * (phase - HALF_UNIT) * (UNIT - phase) / (SIN_DIV as int))
    }
}

/// The oscillation stays within the unit amplitude.
pub proof fn lemma_sin_milli_bounds(phase: int)
    requires
        0 <= phase < UNIT,
    ensures
        -UNIT <= sin_milli_spec(phase) <= UNIT,
{
    if phase < HALF_UNIT {
        let a = phase;
        assert(0 <= 4 * a * (500 - a) <= 250 * 1000) by (nonlinear_arith)
            requires
                0 <= a < 500,
        ;
        vstd::arithmetic::div_mod::lemma_div_pos_is_pos(4 * a * (500 - a), SIN_DIV as int);
        vstd::arithmetic::div_mod::lemma_div_is_ordered(
            4 * a * (500 - a),
            (250 * 1000) as int,
            SIN_DIV as int,
        );
    } else {
        let a = phase - HALF_UNIT;
        assert(0 <= 4 * a * (500 - a) <= 250 * 1000) by (nonlinear_arith)
            requires
                0 <= a < 500,
        ;
        assert(4 * (phase - HALF_UNIT) * (UNIT - phase) == 4 * a * (500 - a));
        vstd::arithmetic::div_mod::lemma_div_pos_is_pos(4 * a * (500 - a), SIN_DIV as int);
        vstd::arithmetic::div_mod::lemma_div_is_ordered(
            4 * a * (500 - a),
            (250 * 1000) as int,
            SIN_DIV as int,
        );
    }
}

pub fn sin_milli(phase: i64) -> (r: i64)
    requires
        0 <= phase < UNIT,
    ensures
        r == sin_milli_spec(phase as int),
        -UNIT <= r <= UNIT,
{
    proof {
        lemma_sin_milli_bounds(phase as int);
    }
    if phase < HALF_UNIT {
        proof {
            assert(0 <= 4 * phase * (HALF_UNIT - phase) <= 250 * 1000) by (nonlinear_arith)
                requires
                    0 <= phase < 500,
                    HALF_UNIT == 500,
            ;
        }
        4 * phase * (HALF_UNIT - phase) / SIN_DIV
    } else {
        proof {
            assert(0 <= 4 * (phase - HALF_UNIT) * (UNIT - phase) <= 250 * 1000)
                by (nonlinear_arith)
                requires
                    500 <= phase < 1000,
                    HALF_UNIT == 500,
                    UNIT == 1000,
            ;
        }
        -(4 * (phase - HALF_UNIT) * (UNIT - phase) / SIN_DIV)
    }
}

/// Decaying screen-shake state: `trauma` falls toward zero each tick and
/// `elapsed` carries the oscillation phase, kept modulo one second (every
/// whole-turn frequency repeats within it) and reset whenever the shake dies.
pub struct ScreenShake {
    pub trauma: i64,
    pub elapsed: i64,
}

pub open spec fn shake_wf(s: ScreenShake) -> bool {
    0 <= s.trauma <= TRAUMA_LIMIT && 0 <= s.elapsed < UNIT
}

impl Default for ScreenShake {
    fn default() -> (s: Self)
        ensures
            s.trauma == 0,
            s.elapsed == 0,
    {
        ScreenShake { trauma: 0, elapsed: 0 }
    }
}

impl ScreenShake {
    /// Damage events accumulate trauma additively, saturating at the
    /// engine's ceiling instead of overflowing.
    pub fn add_trauma(&mut self, t: i64)
        requires
            shake_wf(*old(self)),
            0 <= t <= TRAUMA_LIMIT,
        ensures
            final(self).elapsed == old(self).elapsed,
            final(self).trauma == if old(self).trauma + t <= TRAUMA_LIMIT {
                old(self).trauma + t
            } else {
                TRAUMA_LIMIT as int
            },
            shake_wf(*final(self)),
    {
        let s = self.trauma + t;
        self.trauma = if s <= TRAUMA_LIMIT {
            s
        } else {
            TRAUMA_LIMIT
        };
    }

    /// One tick of shake: with no trauma left the phase clock resets and the
    /// offset is zero; otherwise trauma decays by the one-pole blend, the
    /// phase advances by `dt`, and the offset oscillates with an amplitude
    /// bounded by the decayed trauma.
    pub fn tick(&mut self, dt: i64) -> (offset: Vec2)
        requires
            shake_wf(*old(self)),
            0 <= dt <= DT_LIMIT,
        ensures
            shake_wf(*final(self)),
            old(self).trauma == 0 ==> final(self).trauma == 0 && final(self).elapsed == 0
                && offset.x == 0 && offset.y == 0,
            old(self).trauma > 0 ==> final(self).trauma == old(self).trauma * ((UNIT
                - SHAKE_LERP) as int) / (UNIT as int),
            old(self).trauma > 0 ==> final(self).trauma < old(self).trauma,
            old(self).trauma > 0 ==> final(self).elapsed == (old(self).elapsed + dt) % (
            UNIT as int),
            old(self).trauma > 0 ==> offset.x == scale_unit_spec(
                final(self).trauma as int,
                sin_milli_spec((SHAKE_X_FREQUENCY * final(self).elapsed) % (UNIT as int)),
            ),
            old(self).trauma > 0 ==> offset.y == scale_unit_spec(
                final(self).trauma as int,
                sin_milli_spec((SHAKE_Y_FREQUENCY * final(self).elapsed) % (UNIT as int)),
            ),
            abs_val(offset.x as int) <= final(self).trauma,
            abs_val(offset.y as int) <= final(self).trauma,
    {
        if self.trauma <= 0 {
            self.elapsed = 0;
            return Vec2 { x: 0, y: 0 };
        }
        let t0 = self.trauma;
        proof {
            assert(0 <= t0 * (UNIT - SHAKE_LERP) <= 1_000_000_000_000 * 850) by (nonlinear_arith)
                requires
                    0 < t0 <= 1_000_000_000_000,
                    UNIT - SHAKE_LERP == 850,
            ;
            vstd::arithmetic::div_mod::lemma_div_pos_is_pos(t0 * 850, UNIT as int);
            vstd::arithmetic::div_mod::lemma_multiply_divide_lt(t0 * 850, t0 as int, UNIT as int);
            assert(t0 * 850 < (t0 as int) * 1000) by (nonlinear_arith)
                requires
                    t0 >= 1,
            ;
        }
        self.trauma = (self.trauma * (UNIT - SHAKE_LERP)) / UNIT;
        proof {
            vstd::arithmetic::div_mod::lemma_mod_bound((old(self).elapsed + dt) as int, UNIT as int);
        }
        self.elapsed = (self.elapsed + dt) % UNIT;
        let phase_x = (SHAKE_X_FREQUENCY * self.elapsed) % UNIT;
        let phase_y = (SHAKE_Y_FREQUENCY * self.elapsed) % UNIT;
        proof {
            vstd::arithmetic::div_mod::lemma_mod_bound(
                (SHAKE_X_FREQUENCY * self.elapsed) as int,
                UNIT as int,
            );
            vstd::arithmetic::div_mod::lemma_mod_bound(
                (SHAKE_Y_FREQUENCY * self.elapsed) as int,
                UNIT as int,
            );
        }
        let sx = sin_milli(phase_x);
        let sy = sin_milli(phase_y);
        proof {
            lemma_offset_in_amplitude(self.trauma as int, sx as int);
            lemma_offset_in_amplitude(self.trauma as int, sy as int);
        }
        let ox = scale_unit(self.trauma, sx);
        let oy = scale_unit(self.trauma, sy);
        Vec2 { x: ox, y: oy }
    }
}

/// Scaling a unit-amplitude oscillation by the trauma keeps the offset
/// within the trauma.
proof fn lemma_offset_in_amplitude(trauma: int, s: int)
    requires
        0 <= trauma <= TRAUMA_LIMIT,
        -UNIT <= s <= UNIT,
    ensures
        abs_val(trauma) * abs_val(s) <= i64::MAX,
        forall|r: int| abs_val(r) * (UNIT as int) <= abs_val(trauma) * abs_val(s) ==> abs_val(r)
            <= trauma,
{
    assert(abs_val(trauma) * abs_val(s) <= 1_000_000_000_000 * 1000) by (nonlinear_arith)
        requires
            0 <= abs_val(trauma) <= 1_000_000_000_000,
            0 <= abs_val(s) <= 1000,
    ;
    assert forall|r: int|
        abs_val(r) * (UNIT as int) <= abs_val(trauma) * abs_val(s) implies abs_val(r)
        <= trauma by {
        assert(abs_val(trauma) * abs_val(s) <= trauma * 1000) by (nonlinear_arith)
            requires
                abs_val(trauma) == trauma,
                0 <= trauma,
                0 <= abs_val(s) <= 1000,
        ;
        assert(abs_val(r) * 1000 <= trauma * 1000 ==> abs_val(r) <= trauma) by (nonlinear_arith);
    }
}

} // verus!
