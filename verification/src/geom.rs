//! 2D fixed-point vector primitives: squared distance, truncating
//! multiply-divide, integer square roots, direction scaling and the
//! acceleration-limited move-toward clamp that all steering builds on.

use vstd::prelude::*;

use crate::{COORD_LIMIT, DELTA_LIMIT, UNIT, VEL_LIMIT};

verus! {

#[derive(Clone, Copy, PartialEq, Eq, Structural, Debug)]
pub struct Vec2 {
    pub x: i64,
    pub y: i64,
}

pub open spec fn abs_val(a: int) -> int {
    if a < 0 {
        -a
    } else {
        a
    }
}

/// Squared Euclidean distance between two points.
pub open spec fn dist2(a: Vec2, b: Vec2) -> int {
    (a.x - b.x) * (a.x - b.x) + (a.y - b.y) * (a.y - b.y)
}

/// Both coordinates of `v` lie in `[-m, m]`.
pub open spec fn in_box(v: Vec2, m: int) -> bool {
    -m <= v.x <= m && -m <= v.y <= m
}

/// The vector with the given integer coordinates; meaningful when both fit
/// the coordinate type, as every engine value does.
pub open spec fn vec2_of(a: int, b: int) -> Vec2 {
    Vec2 { x: a as i64, y: b as i64 }
}

/// `c` lies (inclusively) between `a` and `b`.
pub open spec fn between(a: int, b: int, c: int) -> bool {
    if a <= b {
        a <= c <= b
    } else {
        b <= c <= a
    }
}

/// `a * b / d`, truncated toward zero as the engine's fixed-point ops are.
pub open spec fn mul_div_trunc_spec(a: int, b: int, d: int) -> int {
    if a * b < 0 {
        -((-(a * b)) / d)
    } else {
        (a * b) / d
    }
}

/// `a * b / UNIT`: fixed-point multiplication.
pub open spec fn scale_unit_spec(a: int, b: int) -> int {
    mul_div_trunc_spec(a, b, UNIT as int)
}

pub fn abs_i64(a: i64) -> (r: i64)
    requires
        i64::MIN < a,
    ensures
        r == abs_val(a as int),
{
    if a < 0 {
        -a
    } else {
        a
    }
}

proof fn lemma_abs_mul(a: int, b: int)
    ensures
        abs_val(a * b) == abs_val(a) * abs_val(b),
{
    if a >= 0 && b >= 0 {
        assert(a * b >= 0) by (nonlinear_arith)
            requires
                a >= 0,
                b >= 0,
        ;
    } else if a < 0 && b >= 0 {
        assert(a * b <= 0 && (-a) * b == -(a * b)) by (nonlinear_arith)
            requires
                a < 0,
                b >= 0,
        ;
    } else if a >= 0 && b < 0 {
        assert(a * b <= 0 && a * (-b) == -(a * b)) by (nonlinear_arith)
            requires
                a >= 0,
                b < 0,
        ;
    } else {
        assert(a * b >= 0 && (-a) * (-b) == a * b) by (nonlinear_arith)
            requires
                a < 0,
                b < 0,
        ;
    }
}

/// Truncating `a * b / d`, the workhorse of all fixed-point scaling.
pub fn mul_div_trunc(a: i64, b: i64, d: i64) -> (r: i64)
    requires
        i64::MIN < a,
        i64::MIN < b,
        1 <= d,
        abs_val(a as int) * abs_val(b as int) <= i64::MAX,
    ensures
        r == mul_div_trunc_spec(a as int, b as int, d as int),
        abs_val(r as int) * d <= abs_val(a as int) * abs_val(b as int),
        abs_val(r as int) <= abs_val(a as int) * abs_val(b as int) / (d as int),
        (a as int) * (b as int) >= 0 ==> r >= 0,
        (a as int) * (b as int) <= 0 ==> r <= 0,
{
    let na = abs_i64(a);
    let nb = abs_i64(b);
    proof {
        lemma_abs_mul(a as int, b as int);
    }
    let p = na * nb;
    let m = p / d;
    proof {
        vstd::arithmetic::div_mod::lemma_fundamental_div_mod(p as int, d as int);
        vstd::arithmetic::div_mod::lemma_mod_bound(p as int, d as int);
        vstd::arithmetic::div_mod::lemma_div_pos_is_pos(p as int, d as int);
        assert((m as int) * (d as int) == (d as int) * (m as int)) by (nonlinear_arith);
        assert((a as int) * (b as int) > 0 ==> ((a < 0) <==> (b < 0))) by (nonlinear_arith);
        assert((a as int) * (b as int) < 0 ==> !((a < 0) <==> (b < 0))) by (nonlinear_arith);
    }
    if (a < 0) != (b < 0) {
        -m
    } else {
        m
    }
}

/// Fixed-point multiplication `a * b / UNIT`, truncated toward zero.
pub fn scale_unit(a: i64, b: i64) -> (r: i64)
    requires
        i64::MIN < a,
        i64::MIN < b,
        abs_val(a as int) * abs_val(b as int) <= i64::MAX,
    ensures
        r == scale_unit_spec(a as int, b as int),
        abs_val(r as int) * (UNIT as int) <= abs_val(a as int) * abs_val(b as int),
        (a as int) * (b as int) >= 0 ==> r >= 0,
        (a as int) * (b as int) <= 0 ==> r <= 0,
{
    mul_div_trunc(a, b, UNIT)
}

pub fn dist_squared(a: Vec2, b: Vec2) -> (r: i64)
    requires
        in_box(a, COORD_LIMIT as int),
        in_box(b, COORD_LIMIT as int),
    ensures
        r == dist2(a, b),
        r >= 0,
{
    let dx = a.x - b.x;
    let dy = a.y - b.y;
    proof {
        assert(dx * dx <= 4_000_000_000_000_000_000 && dx * dx >= 0) by (nonlinear_arith)
            requires
                -2_000_000_000 <= dx <= 2_000_000_000,
        ;
        assert(dy * dy <= 4_000_000_000_000_000_000 && dy * dy >= 0) by (nonlinear_arith)
            requires
                -2_000_000_000 <= dy <= 2_000_000_000,
        ;
    }
    dx * dx + dy * dy
}

/// Floor of the square root, defined by counting up.
pub open spec fn isqrt_spec(n: int) -> int
    decreases n,
{
    if n <= 0 {
        0
    } else {
        let p = isqrt_spec(n - 1);
        if (p + 1) * (p + 1) <= n {
            p + 1
        } else {
            p
        }
    }
}

pub proof fn lemma_isqrt_spec_bounds(n: int)
    requires
        0 <= n,
    ensures
        0 <= isqrt_spec(n),
        isqrt_spec(n) * isqrt_spec(n) <= n,
        n < (isqrt_spec(n) + 1) * (isqrt_spec(n) + 1),
    decreases n,
{
    if n == 0 {
    } else {
        lemma_isqrt_spec_bounds(n - 1);
        let p = isqrt_spec(n - 1);
        if (p + 1) * (p + 1) <= n {
            assert((p + 1 + 1) * (p + 1 + 1) > n) by (nonlinear_arith)
                requires
                    0 <= p,
                    n - 1 < (p + 1) * (p + 1),
            ;
        }
    }
}

pub proof fn lemma_isqrt_unique(n: int, r: int)
    requires
        0 <= n,
        0 <= r,
        r * r <= n,
        n < (r + 1) * (r + 1),
    ensures
        r == isqrt_spec(n),
{
    lemma_isqrt_spec_bounds(n);
    let s = isqrt_spec(n);
    assert(r < s ==> (r + 1) * (r + 1) <= s * s) by (nonlinear_arith)
        requires
            0 <= r,
            0 <= s,
    ;
    assert(s < r ==> (s + 1) * (s + 1) <= r * r) by (nonlinear_arith)
        requires
            0 <= r,
            0 <= s,
    ;
}

/// Ceiling of the square root.
pub open spec fn csqrt_spec(n: int) -> int {
    if isqrt_spec(n) * isqrt_spec(n) == n {
        isqrt_spec(n)
    } else {
        isqrt_spec(n) + 1
    }
}

pub proof fn lemma_csqrt_spec_bounds(n: int)
    requires
        0 <= n,
    ensures
        0 <= csqrt_spec(n),
        n <= csqrt_spec(n) * csqrt_spec(n),
        1 <= n ==> 1 <= csqrt_spec(n),
        csqrt_spec(n) <= isqrt_spec(n) + 1,
{
    lemma_isqrt_spec_bounds(n);
    let p = isqrt_spec(n);
    assert(p == 0 ==> p * p == 0) by (nonlinear_arith);
    if p * p != n {
        assert(n <= (p + 1) * (p + 1)) by (nonlinear_arith)
            requires
                n < (p + 1) * (p + 1),
        ;
    }
}

pub fn isqrt(n: i64) -> (r: i64)
    requires
        0 <= n,
    ensures
        r == isqrt_spec(n as int),
        0 <= r <= 3_037_000_499,
        r * r <= n,
        n < (r + 1) * (r + 1),
{
    let mut lo: i64 = 0;
    let mut hi: i64 = 3_037_000_500;
    proof {
        assert((n as int) < 3_037_000_500 * 3_037_000_500) by (nonlinear_arith)
            requires
                n <= 0x7fff_ffff_ffff_ffff,
        ;
    }
    while lo + 1 < hi
        invariant
            0 <= lo < hi <= 3_037_000_500,
            lo * lo <= n,
            (n as int) < hi * hi,
        decreases hi - lo,
    {
        let mid = lo + (hi - lo) / 2;
        proof {
            assert(lo < mid < hi);
            assert(mid * mid <= 3_037_000_499 * 3_037_000_499 && mid * mid >= 0) by (nonlinear_arith)
                requires
                    0 <= mid <= 3_037_000_499,
            ;
            assert(3_037_000_499 * 3_037_000_499 <= 0x7fff_ffff_ffff_ffff) by (nonlinear_arith);
        }
        if mid * mid <= n {
            lo = mid;
        } else {
            hi = mid;
        }
    }
    proof {
        lemma_isqrt_unique(n as int, lo as int);
    }
    lo
}

pub fn csqrt(n: i64) -> (r: i64)
    requires
        0 <= n,
    ensures
        r == csqrt_spec(n as int),
        0 <= r <= 3_037_000_500,
        n <= r * r,
        1 <= n ==> 1 <= r,
{
    let q = isqrt(n);
    proof {
        lemma_csqrt_spec_bounds(n as int);
    }
    if q * q == n {
        q
    } else {
        q + 1
    }
}

/// The vector of magnitude (at most) `mag` pointing from `from` toward `to`;
/// zero when the two points coincide, so degenerate geometry steers nowhere
/// instead of failing. `scaled_dir_x` and `scaled_dir_y` are its coordinates.
pub open spec fn scaled_dir_x(from: Vec2, to: Vec2, mag: int) -> int {
    let d2 = dist2(from, to);
    if d2 == 0 {
        0
    } else {
        mul_div_trunc_spec(to.x - from.x, mag, csqrt_spec(d2))
    }
}

pub open spec fn scaled_dir_y(from: Vec2, to: Vec2, mag: int) -> int {
    let d2 = dist2(from, to);
    if d2 == 0 {
        0
    } else {
        mul_div_trunc_spec(to.y - from.y, mag, csqrt_spec(d2))
    }
}

pub proof fn lemma_sq_neg(u: int)
    ensures
        u * u == (-u) * (-u),
{
    assert(u * u == (-u) * (-u)) by (nonlinear_arith);
}

/// A coordinate delta never exceeds the ceiling-root of the squared distance.
proof fn lemma_delta_le_root(dx: int, dy: int, l: int)
    requires
        dx * dx + dy * dy <= l * l,
        0 <= l,
    ensures
        abs_val(dx) <= l,
        abs_val(dy) <= l,
{
    assert(abs_val(dx) > l ==> dx * dx > l * l) by (nonlinear_arith)
        requires
            0 <= l,
    ;
    assert(abs_val(dy) > l ==> dy * dy > l * l) by (nonlinear_arith)
        requires
            0 <= l,
    ;
    assert(dx * dx >= 0 && dy * dy >= 0) by (nonlinear_arith);
}

pub fn scaled_dir(from: Vec2, to: Vec2, mag: i64) -> (r: Vec2)
    requires
        in_box(from, COORD_LIMIT as int),
        in_box(to, COORD_LIMIT as int),
        -DELTA_LIMIT <= mag <= DELTA_LIMIT,
    ensures
        r.x == scaled_dir_x(from, to, mag as int),
        r.y == scaled_dir_y(from, to, mag as int),
        in_box(r, abs_val(mag as int)),
{
    let d2 = dist_squared(from, to);
    if d2 == 0 {
        return Vec2 { x: 0, y: 0 };
    }
    let l = csqrt(d2);
    let dx = to.x - from.x;
    let dy = to.y - from.y;
    proof {
        lemma_sq_neg(from.x as int - to.x as int);
        lemma_sq_neg(from.y as int - to.y as int);
        lemma_delta_le_root(dx as int, dy as int, l as int);
        assert(abs_val(dx as int) * abs_val(mag as int) <= 3_037_000_500 * 100_000_000)
            by (nonlinear_arith)
            requires
                abs_val(dx as int) <= 3_037_000_500,
                abs_val(mag as int) <= 100_000_000,
                0 <= abs_val(dx as int),
                0 <= abs_val(mag as int),
        ;
        assert(abs_val(dy as int) * abs_val(mag as int) <= 3_037_000_500 * 100_000_000)
            by (nonlinear_arith)
            requires
                abs_val(dy as int) <= 3_037_000_500,
                abs_val(mag as int) <= 100_000_000,
                0 <= abs_val(dy as int),
                0 <= abs_val(mag as int),
        ;
    }
    let rx = mul_div_trunc(dx, mag, l);
    let ry = mul_div_trunc(dy, mag, l);
    proof {
        lemma_scaled_component_bound(dx as int, mag as int, l as int, rx as int);
        lemma_scaled_component_bound(dy as int, mag as int, l as int, ry as int);
    }
    Vec2 { x: rx, y: ry }
}

/// A scaled direction component is bounded by the magnitude it scales to.
proof fn lemma_scaled_component_bound(d: int, mag: int, l: int, r: int)
    requires
        1 <= l,
        abs_val(d) <= l,
        abs_val(r) * l <= abs_val(d) * abs_val(mag),
    ensures
        abs_val(r) <= abs_val(mag),
{
    assert(abs_val(d) * abs_val(mag) <= l * abs_val(mag)) by (nonlinear_arith)
        requires
            abs_val(d) <= l,
            0 <= abs_val(mag),
            0 <= abs_val(d),
    ;
    assert(abs_val(r) * l <= l * abs_val(mag) ==> abs_val(r) <= abs_val(mag)) by (nonlinear_arith)
        requires
            1 <= l,
    ;
}

/// Move `from` toward `to`, by at most `md`, snapping onto `to` whenever the
/// remaining squared distance fits within `md * md`. `move_toward_x` and
/// `move_toward_y` are the coordinates of the result.
pub open spec fn move_toward_x(from: Vec2, to: Vec2, md: int) -> int {
    let d2 = dist2(from, to);
    if d2 <= md * md {
        to.x as int
    } else {
        from.x + mul_div_trunc_spec(to.x - from.x, md, csqrt_spec(d2))
    }
}

pub open spec fn move_toward_y(from: Vec2, to: Vec2, md: int) -> int {
    let d2 = dist2(from, to);
    if d2 <= md * md {
        to.y as int
    } else {
        from.y + mul_div_trunc_spec(to.y - from.y, md, csqrt_spec(d2))
    }
}

pub fn move_toward(from: Vec2, to: Vec2, max_delta: i64) -> (r: Vec2)
    requires
        in_box(from, COORD_LIMIT as int),
        in_box(to, COORD_LIMIT as int),
        0 <= max_delta <= DELTA_LIMIT,
    ensures
        r.x == move_toward_x(from, to, max_delta as int),
        r.y == move_toward_y(from, to, max_delta as int),
        between(from.x as int, to.x as int, r.x as int),
        between(from.y as int, to.y as int, r.y as int),
{
    let d2 = dist_squared(from, to);
    proof {
        assert(max_delta * max_delta <= 100_000_000 * 100_000_000 && 0 <= max_delta * max_delta)
            by (nonlinear_arith)
            requires
                0 <= max_delta <= 100_000_000,
        ;
    }
    if d2 <= max_delta * max_delta {
        return to;
    }
    let l = csqrt(d2);
    let dx = to.x - from.x;
    let dy = to.y - from.y;
    proof {
        lemma_sq_neg(from.x as int - to.x as int);
        lemma_sq_neg(from.y as int - to.y as int);
        lemma_delta_le_root(dx as int, dy as int, l as int);
        assert(max_delta < l) by (nonlinear_arith)
            requires
                (l as int) * (l as int) >= d2,
                d2 > (max_delta as int) * (max_delta as int),
                0 <= l,
                0 <= max_delta,
        ;
        assert(abs_val(dx as int) * abs_val(max_delta as int) <= 3_037_000_500 * 100_000_000)
            by (nonlinear_arith)
            requires
                abs_val(dx as int) <= 3_037_000_500,
                abs_val(max_delta as int) <= 100_000_000,
                0 <= abs_val(dx as int),
                0 <= abs_val(max_delta as int),
        ;
        assert(abs_val(dy as int) * abs_val(max_delta as int) <= 3_037_000_500 * 100_000_000)
            by (nonlinear_arith)
            requires
                abs_val(dy as int) <= 3_037_000_500,
                abs_val(max_delta as int) <= 100_000_000,
                0 <= abs_val(dy as int),
                0 <= abs_val(max_delta as int),
        ;
    }
    let sx = mul_div_trunc(dx, max_delta, l);
    let sy = mul_div_trunc(dy, max_delta, l);
    proof {
        lemma_step_stays_between(from.x as int, to.x as int, max_delta as int, l as int, sx as int);
        lemma_step_stays_between(from.y as int, to.y as int, max_delta as int, l as int, sy as int);
    }
    Vec2 { x: from.x + sx, y: from.y + sy }
}

/// A truncated step of magnitude below the full delta keeps the coordinate
/// between its start and its goal.
proof fn lemma_step_stays_between(fx: int, tx: int, md: int, l: int, s: int)
    requires
        1 <= l,
        0 <= md < l,
        abs_val(s) * l <= abs_val(tx - fx) * abs_val(md),
        (tx - fx) * md >= 0 ==> s >= 0,
        (tx - fx) * md <= 0 ==> s <= 0,
    ensures
        between(fx, tx, fx + s),
        abs_val(s) <= abs_val(tx - fx),
{
    let d = tx - fx;
    assert(abs_val(d) * abs_val(md) <= abs_val(d) * l) by (nonlinear_arith)
        requires
            0 <= abs_val(md) <= l,
            0 <= abs_val(d),
            md < l,
            0 <= md,
    ;
    assert(abs_val(s) * l <= abs_val(d) * l ==> abs_val(s) <= abs_val(d)) by (nonlinear_arith)
        requires
            1 <= l,
    ;
    if d >= 0 {
        assert(d * md >= 0) by (nonlinear_arith)
            requires
                d >= 0,
                md >= 0,
        ;
    } else {
        assert(d * md <= 0) by (nonlinear_arith)
            requires
                d <= 0,
                md >= 0,
        ;
    }
}

/// The squared length of the step the move-toward clamp takes.
pub open spec fn move_step2(from: Vec2, to: Vec2, md: int) -> int {
    (move_toward_x(from, to, md) - from.x) * (move_toward_x(from, to, md) - from.x) + (
    move_toward_y(from, to, md) - from.y) * (move_toward_y(from, to, md) - from.y)
}

/// The properties of truncating multiply-divide, stated of the spec function
/// so that laws can use them without running the executable code.
proof fn lemma_mul_div_trunc_spec_props(a: int, b: int, d: int)
    requires
        1 <= d,
    ensures
        abs_val(mul_div_trunc_spec(a, b, d)) * d <= abs_val(a) * abs_val(b),
        a * b >= 0 ==> mul_div_trunc_spec(a, b, d) >= 0,
        a * b <= 0 ==> mul_div_trunc_spec(a, b, d) <= 0,
{
    lemma_abs_mul(a, b);
    let q = a * b;
    if q < 0 {
        vstd::arithmetic::div_mod::lemma_fundamental_div_mod(-q, d);
        vstd::arithmetic::div_mod::lemma_mod_bound(-q, d);
        vstd::arithmetic::div_mod::lemma_div_pos_is_pos(-q, d);
        assert(((-q) / d) * d == d * ((-q) / d)) by (nonlinear_arith);
    } else {
        vstd::arithmetic::div_mod::lemma_fundamental_div_mod(q, d);
        vstd::arithmetic::div_mod::lemma_mod_bound(q, d);
        vstd::arithmetic::div_mod::lemma_div_pos_is_pos(q, d);
        assert((q / d) * d == d * (q / d)) by (nonlinear_arith);
    }
}

/// The ceiling root of a perfect square is exact.
proof fn lemma_csqrt_of_square(a: int)
    ensures
        csqrt_spec(a * a) == abs_val(a),
{
    lemma_sq_neg(a);
    assert(abs_val(a) * abs_val(a) == a * a && a * a < (abs_val(a) + 1) * (abs_val(a) + 1))
        by (nonlinear_arith);
    lemma_isqrt_unique(a * a, abs_val(a));
}

/// Law: the move-toward clamp returns `to` exactly when `to` lies within
/// `md` of `from` (squared distances compared, so the reach test is exact);
/// otherwise it takes a step from `from` toward `to` whose squared length is
/// at most `md * md` — and exactly `md * md` along an axis, where no
/// rounding intervenes — each coordinate staying between start and goal,
/// with the goal not yet reached.
pub proof fn lemma_move_toward_clamp(from: Vec2, to: Vec2, md: int)
    requires
        0 <= md,
    ensures
        dist2(from, to) <= md * md ==> move_toward_x(from, to, md) == to.x && move_toward_y(
            from,
            to,
            md,
        ) == to.y,
        dist2(from, to) > md * md ==> move_step2(from, to, md) <= md * md,
        dist2(from, to) > md * md && from.y == to.y ==> move_step2(from, to, md) == md * md,
        dist2(from, to) > md * md && from.x == to.x ==> move_step2(from, to, md) == md * md,
        dist2(from, to) > md * md ==> !(move_toward_x(from, to, md) == to.x && move_toward_y(
            from,
            to,
            md,
        ) == to.y),
        between(from.x as int, to.x as int, move_toward_x(from, to, md)),
        between(from.y as int, to.y as int, move_toward_y(from, to, md)),
{
    let d2 = dist2(from, to);
    let dx = to.x as int - from.x as int;
    let dy = to.y as int - from.y as int;
    lemma_sq_neg(from.x as int - to.x as int);
    lemma_sq_neg(from.y as int - to.y as int);
    assert(dx * dx >= 0 && dy * dy >= 0) by (nonlinear_arith);
    if d2 <= md * md {
        // the clamp snaps onto the goal; betweenness is trivial there
    } else {
        lemma_csqrt_spec_bounds(d2);
        let l = csqrt_spec(d2);
        assert(md < l) by (nonlinear_arith)
            requires
                l * l >= d2,
                d2 > md * md,
                0 <= l,
                0 <= md,
        ;
        let sx = mul_div_trunc_spec(dx, md, l);
        let sy = mul_div_trunc_spec(dy, md, l);
        lemma_mul_div_trunc_spec_props(dx, md, l);
        lemma_mul_div_trunc_spec_props(dy, md, l);
        lemma_step_stays_between(from.x as int, to.x as int, md, l, sx);
        lemma_step_stays_between(from.y as int, to.y as int, md, l, sy);
        let ax = abs_val(sx);
        let ay = abs_val(sy);
        let bx = abs_val(dx);
        let by0 = abs_val(dy);
        assert(bx * bx == dx * dx && by0 * by0 == dy * dy && ax * ax == sx * sx && ay * ay == sy
            * sy) by (nonlinear_arith)
            requires
                bx == dx || bx == -dx,
                by0 == dy || by0 == -dy,
                ax == sx || ax == -sx,
                ay == sy || ay == -sy,
        ;
        assert((ax * l) * (ax * l) <= (bx * md) * (bx * md)) by (nonlinear_arith)
            requires
                0 <= ax * l,
                ax * l <= bx * md,
        ;
        assert((ay * l) * (ay * l) <= (by0 * md) * (by0 * md)) by (nonlinear_arith)
            requires
                0 <= ay * l,
                ay * l <= by0 * md,
        ;
        assert((ax * l) * (ax * l) == (ax * ax) * (l * l) && (bx * md) * (bx * md) == (bx * bx) * (
        md * md)) by (nonlinear_arith);
        assert((ay * l) * (ay * l) == (ay * ay) * (l * l) && (by0 * md) * (by0 * md) == (by0 * by0)
            * (md * md)) by (nonlinear_arith);
        assert((bx * bx) * (md * md) + (by0 * by0) * (md * md) == d2 * (md * md))
            by (nonlinear_arith)
            requires
                bx * bx + by0 * by0 == d2,
        ;
        assert(d2 * (md * md) <= (l * l) * (md * md)) by (nonlinear_arith)
            requires
                d2 <= l * l,
                0 <= md * md,
        ;
        assert((sx * sx + sy * sy) * (l * l) == (ax * ax) * (l * l) + (ay * ay) * (l * l))
            by (nonlinear_arith)
            requires
                ax * ax == sx * sx,
                ay * ay == sy * sy,
        ;
        assert(sx * sx + sy * sy <= md * md) by (nonlinear_arith)
            requires
                (sx * sx + sy * sy) * (l * l) <= (l * l) * (md * md),
                1 <= l,
        ;
        // the goal is strictly out of reach: some coordinate falls short
        if dx != 0 {
            assert(ax * l <= bx * md);
            assert(bx * md < bx * l) by (nonlinear_arith)
                requires
                    0 <= md < l,
                    1 <= bx,
            ;
            assert(ax < bx) by (nonlinear_arith)
                requires
                    ax * l < bx * l,
                    1 <= l,
            ;
        } else {
            assert(dy != 0) by (nonlinear_arith)
                requires
                    dx == 0,
                    dx * dx + dy * dy > md * md,
                    0 <= md,
            ;
            assert(ay * l <= by0 * md);
            assert(by0 * md < by0 * l) by (nonlinear_arith)
                requires
                    0 <= md < l,
                    1 <= by0,
            ;
            assert(ay < by0) by (nonlinear_arith)
                requires
                    ay * l < by0 * l,
                    1 <= l,
            ;
        }
        // along an axis the root is exact, so the step is exactly md
        assert(dx == 0 ==> dx * dx == 0) by (nonlinear_arith);
        assert(dy == 0 ==> dy * dy == 0) by (nonlinear_arith);
        if dy == 0 {
            lemma_csqrt_of_square(dx);
            assert(l == abs_val(dx));
            if dx > 0 {
                assert(dx * md >= 0) by (nonlinear_arith)
                    requires
                        dx > 0,
                        md >= 0,
                ;
                vstd::arithmetic::div_mod::lemma_div_multiples_vanish(md, dx);
                assert(sx == md);
            } else {
                assert(dx * md <= 0 && -(dx * md) == (-dx) * md) by (nonlinear_arith)
                    requires
                        dx < 0,
                        md >= 0,
                ;
                vstd::arithmetic::div_mod::lemma_div_multiples_vanish(md, -dx);
                assert(sx == -md);
            }
            assert(ay <= ay * l) by (nonlinear_arith)
                requires
                    1 <= l,
                    0 <= ay,
            ;
            assert(sy == 0);
            assert(sx * sx + sy * sy == md * md) by (nonlinear_arith)
                requires
                    sx == md || sx == -md,
                    sy == 0,
            ;
        }
        if dx == 0 {
            lemma_csqrt_of_square(dy);
            assert(l == abs_val(dy));
            if dy > 0 {
                assert(dy * md >= 0) by (nonlinear_arith)
                    requires
                        dy > 0,
                        md >= 0,
                ;
                vstd::arithmetic::div_mod::lemma_div_multiples_vanish(md, dy);
                assert(sy == md);
            } else {
                assert(dy * md <= 0 && -(dy * md) == (-dy) * md) by (nonlinear_arith)
                    requires
                        dy < 0,
                        md >= 0,
                ;
                vstd::arithmetic::div_mod::lemma_div_multiples_vanish(md, -dy);
                assert(sy == -md);
            }
            assert(ax <= ax * l) by (nonlinear_arith)
                requires
                    1 <= l,
                    0 <= ax,
            ;
            assert(sx == 0);
            assert(sx * sx + sy * sy == md * md) by (nonlinear_arith)
                requires
                    sy == md || sy == -md,
                    sx == 0,
            ;
        }
    }
}

/// Velocities saturate at the engine's speed ceiling instead of overflowing.
pub open spec fn clamp_vel_spec(x: int) -> int {
    if x < -(VEL_LIMIT as int) {
        -(VEL_LIMIT as int)
    } else if x > VEL_LIMIT as int {
        VEL_LIMIT as int
    } else {
        x
    }
}

/// Saturating addition of an impulse onto a velocity component.
pub fn clamp_add(a: i64, b: i64) -> (r: i64)
    requires
        -4_000_000_000_000_000_000 <= a <= 4_000_000_000_000_000_000,
        -4_000_000_000_000_000_000 <= b <= 4_000_000_000_000_000_000,
    ensures
        r == clamp_vel_spec(a + b),
        -VEL_LIMIT <= r <= VEL_LIMIT,
{
    let s = a + b;
    if s < -VEL_LIMIT {
        -VEL_LIMIT
    } else if s > VEL_LIMIT {
        VEL_LIMIT
    } else {
        s
    }
}

} // verus!
