use arcade_core::collide::collides;
use arcade_core::geom::{abs_i64, csqrt, dist_squared, isqrt, move_toward, scale_unit, scaled_dir, Vec2};
use arcade_core::wrap::{wraparound, wraparound_tracking_position};

#[test]
fn move_toward_snaps_exactly_when_in_reach() {
    // |to - from| = 5000 and max_delta = 5000: the clamp lands exactly on `to`.
    let from = Vec2 { x: 0, y: 0 };
    let to = Vec2 { x: 3000, y: 4000 };
    let r = move_toward(from, to, 5000);
    assert_eq!(r, to);
    // anything larger also snaps
    let r2 = move_toward(from, to, 6000);
    assert_eq!(r2, to);
}

#[test]
fn move_toward_steps_along_the_direction() {
    // 3-4-5 triangle: a step of 1000 moves to (600, 800), exactly 1000 away.
    let from = Vec2 { x: 0, y: 0 };
    let to = Vec2 { x: 3000, y: 4000 };
    let r = move_toward(from, to, 1000);
    assert_eq!(r, Vec2 { x: 600, y: 800 });
    assert_eq!(r.x * r.x + r.y * r.y, 1000 * 1000);
}

#[test]
fn move_toward_zero_distance_holds_still() {
    // coincident start and goal: no error, the value is unchanged
    let p = Vec2 { x: 5, y: 5 };
    assert_eq!(move_toward(p, p, 0), p);
    assert_eq!(move_toward(p, p, 1000), p);
}

#[test]
fn move_toward_never_overshoots() {
    let from = Vec2 { x: -1000, y: 2000 };
    let to = Vec2 { x: 7000, y: -500 };
    let md: i64 = 2500;
    let r = move_toward(from, to, md);
    let dx = r.x - from.x;
    let dy = r.y - from.y;
    assert!(dx * dx + dy * dy <= md * md);
    // and each coordinate stays between start and goal
    assert!(from.x <= r.x && r.x <= to.x);
    assert!(to.y <= r.y && r.y <= from.y);
}

#[test]
fn wraparound_moves_to_opposite_edge() {
    let p = Vec2 { x: -120_000, y: 50_000 };
    let r = wraparound(p, 100_000, 75_000, 16_000);
    assert_eq!(r, Vec2 { x: 116_000, y: 50_000 });
}

#[test]
fn wraparound_twice_is_wraparound_once() {
    let samples = vec![
        Vec2 { x: -120_000, y: 50_000 },
        Vec2 { x: 120_000, y: -92_000 },
        Vec2 { x: 0, y: 0 },
        Vec2 { x: 116_000, y: 91_000 },
        Vec2 { x: -999_999, y: 999_999 },
    ];
    for p in samples {
        let once = wraparound(p, 100_000, 75_000, 16_000);
        let twice = wraparound(once, 100_000, 75_000, 16_000);
        assert_eq!(twice, once);
    }
}

#[test]
fn wraparound_leaves_the_exact_boundary_alone() {
    let p = Vec2 { x: -116_000, y: 91_000 };
    let r = wraparound(p, 100_000, 75_000, 16_000);
    assert_eq!(r, p);
}

#[test]
fn tracking_position_reflects_across_the_short_way() {
    let from = Vec2 { x: 0, y: 0 };
    let to = Vec2 { x: 80_000, y: 10_000 };
    // x delta 80_000 exceeds half the width: aim at the wrapped image instead
    let r = wraparound_tracking_position(from, to, 100_000, 100_000);
    assert_eq!(r, Vec2 { x: -20_000, y: 10_000 });
    // short deltas are left alone
    let near = Vec2 { x: 30_000, y: -49_000 };
    let r2 = wraparound_tracking_position(from, near, 100_000, 100_000);
    assert_eq!(r2, near);
}

#[test]
fn collision_is_strict_at_exact_touch() {
    let pa = Vec2 { x: 0, y: 0 };
    let pb = Vec2 { x: 30_000, y: 0 };
    // distance exactly r1 + r2: NOT a collision
    assert!(!collides(pa, 16_000, pb, 14_000));
    // one closer: collision
    let pc = Vec2 { x: 29_999, y: 0 };
    assert!(collides(pa, 16_000, pc, 14_000));
}

#[test]
fn collision_is_symmetric() {
    let samples = vec![
        (Vec2 { x: 0, y: 0 }, 16_000i64, Vec2 { x: 29_999, y: 0 }, 14_000i64),
        (Vec2 { x: 0, y: 0 }, 16_000, Vec2 { x: 30_000, y: 0 }, 14_000),
        (Vec2 { x: -5_000, y: 7_000 }, 8_000, Vec2 { x: 5_000, y: -2_000 }, 100),
        (Vec2 { x: 1, y: 1 }, 0, Vec2 { x: 1, y: 1 }, 0),
    ];
    for (pa, ra, pb, rb) in samples {
        assert_eq!(collides(pa, ra, pb, rb), collides(pb, rb, pa, ra));
    }
}

#[test]
fn integer_roots_bracket_their_argument() {
    for n in vec![0i64, 1, 2, 3, 4, 24, 25, 26, 999_999, 1_000_000, 25_000_000] {
        let f = isqrt(n);
        assert!(f * f <= n && n < (f + 1) * (f + 1));
        let c = csqrt(n);
        assert!(n <= c * c);
        if c > 0 {
            assert!((c - 1) * (c - 1) < n);
        }
    }
    assert_eq!(isqrt(25_000_000), 5000);
    assert_eq!(csqrt(25_000_000), 5000);
    assert_eq!(csqrt(25_000_001), 5001);
}

#[test]
fn scale_unit_truncates_toward_zero() {
    assert_eq!(scale_unit(1500, 1500), 2250);
    assert_eq!(scale_unit(-1500, 1500), -2250);
    assert_eq!(scale_unit(999, 1), 0);
    assert_eq!(scale_unit(-999, 1), 0);
    assert_eq!(abs_i64(-7), 7);
}

#[test]
fn scaled_dir_points_at_the_target() {
    let from = Vec2 { x: 0, y: 0 };
    let to = Vec2 { x: 3000, y: 4000 };
    let r = scaled_dir(from, to, 1000);
    assert_eq!(r, Vec2 { x: 600, y: 800 });
    // negative magnitude points away (used for pickup repulsion)
    let rep = scaled_dir(from, to, -1000);
    assert_eq!(rep, Vec2 { x: -600, y: -800 });
    // coincident points give the zero vector
    let z = scaled_dir(from, from, 1000);
    assert_eq!(z, Vec2 { x: 0, y: 0 });
}

#[test]
fn distance_squared_matches_by_hand() {
    let a = Vec2 { x: 3, y: -4 };
    let b = Vec2 { x: 0, y: 0 };
    assert_eq!(dist_squared(a, b), 25);
    assert_eq!(dist_squared(b, a), 25);
}

#[test]
fn move_toward_is_exact_along_an_axis() {
    // no rounding along an axis: the step lands exactly max_delta away
    let from = Vec2 { x: 0, y: 0 };
    let to = Vec2 { x: 10_000, y: 0 };
    let r = move_toward(from, to, 3000);
    assert_eq!(r, Vec2 { x: 3000, y: 0 });
    let down = Vec2 { x: 0, y: -10_000 };
    let r2 = move_toward(from, down, 3000);
    assert_eq!(r2, Vec2 { x: 0, y: -3000 });
}
