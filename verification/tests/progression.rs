use arcade_core::curve::{enemy_base_accel, enemy_base_speed, knockback_factor, pow_amp, pow_frac};
use arcade_core::entity::PursuerProfile;
use arcade_core::geom::Vec2;
use arcade_core::progress::{
    get_music_track, select_music_track, CoreError, GameInfo, InvincibilityTimer,
};
use arcade_core::shake::{sin_milli, ScreenShake};
use arcade_core::world::get_direction;
use arcade_core::{
    ENEMY_MAX_SPEED, HIT_TRAUMA, PLAYER_INVINCIBILITY_TIME, TRAUMA_LIMIT, UNIT,
};

#[test]
fn difficulty_speed_at_score_zero() {
    // logistic: gain 20086, full power 1000 -> 1_000_000 / 21_086 = 47;
    // mapped: 47 * 300_000 / 1000 + 200_000
    assert_eq!(enemy_base_speed(0), 214_100);
}

#[test]
fn difficulty_accel_at_score_zero() {
    // logistic: gain 24533 -> 1_000_000 / 25_533 = 39; 39 * 300 + 300_000
    assert_eq!(enemy_base_accel(0), 311_700);
}

#[test]
fn difficulty_saturates_at_the_ceiling() {
    assert_eq!(enemy_base_speed(200), ENEMY_MAX_SPEED);
}

#[test]
fn difficulty_is_monotone_over_scores() {
    let mut prev = enemy_base_speed(0);
    for s in vec![1i64, 2, 4, 8, 12, 16, 20, 24, 32, 48, 64, 100, 200] {
        let cur = enemy_base_speed(s);
        assert!(prev <= cur);
        prev = cur;
    }
    let mut prev_a = enemy_base_accel(0);
    for s in vec![1i64, 5, 10, 20, 40, 80] {
        let cur = enemy_base_accel(s);
        assert!(prev_a <= cur);
        prev_a = cur;
    }
}

#[test]
fn power_decay_by_hand() {
    assert_eq!(pow_frac(998, 0), 1000);
    assert_eq!(pow_frac(998, 1), 998);
    assert_eq!(pow_frac(998, 10), 980);
    assert_eq!(pow_amp(1002, 0), 1000);
    assert_eq!(pow_amp(1002, 2), 1004);
}

#[test]
fn knockback_is_exact_at_contact() {
    // zero edge-to-edge separation: the factor is exactly one
    assert_eq!(knockback_factor(0), UNIT);
    // inside the first whole unit nothing has decayed yet
    assert_eq!(knockback_factor(999), UNIT);
    // overlap amplifies, distance attenuates
    assert_eq!(knockback_factor(-2000), 1004);
    assert_eq!(knockback_factor(10_000), 980);
    assert!(knockback_factor(300_000) < UNIT);
}

#[test]
fn sine_wave_by_quarter_turns() {
    assert_eq!(sin_milli(0), 0);
    assert_eq!(sin_milli(250), 1000);
    assert_eq!(sin_milli(500), 0);
    assert_eq!(sin_milli(750), -1000);
    assert_eq!(sin_milli(100), 640);
}

#[test]
fn shake_decays_and_oscillates() {
    let mut s = ScreenShake::default();
    s.add_trauma(1000);
    let offset = s.tick(100);
    assert_eq!(s.trauma, 850);
    assert_eq!(s.elapsed, 100);
    // x frequency 10: phase (10*100) % 1000 == 0, so no x offset yet
    assert_eq!(offset, Vec2 { x: 0, y: 544 });
}

#[test]
fn shake_resets_its_clock_when_spent() {
    let mut s = ScreenShake::default();
    s.add_trauma(3);
    let _ = s.tick(100);
    let _ = s.tick(100);
    // trauma 3 -> 2 -> 1 -> 0; once spent the phase clock resets
    let _ = s.tick(100);
    let off = s.tick(100);
    assert_eq!(s.trauma, 0);
    assert_eq!(s.elapsed, 0);
    assert_eq!(off, Vec2 { x: 0, y: 0 });
}

#[test]
fn shake_trauma_saturates() {
    let mut s = ScreenShake::default();
    s.add_trauma(TRAUMA_LIMIT);
    s.add_trauma(HIT_TRAUMA);
    assert_eq!(s.trauma, TRAUMA_LIMIT);
}

#[test]
fn invincibility_timer_fires_exactly_once() {
    let mut t = InvincibilityTimer::new();
    assert_eq!(t.remaining, PLAYER_INVINCIBILITY_TIME);
    assert!(!t.tick(1500));
    assert_eq!(t.remaining, 500);
    assert!(t.tick(600));
    assert_eq!(t.remaining, 0);
    // edge-triggered: it never fires again until reset
    assert!(!t.tick(100));
    assert!(!t.tick(10_000));
    t.reset();
    assert!(!t.finished);
    assert!(t.tick(2000));
}

#[test]
fn health_grants_cap_at_the_maximum() {
    let mut info = GameInfo::default();
    assert_eq!(info.score, 0);
    assert_eq!(info.health, 3);
    assert!(!info.invincible);
    info.add_health(1);
    info.add_health(1);
    assert_eq!(info.health, 5);
    info.add_health(1);
    assert_eq!(info.health, 5);
}

#[test]
fn music_follows_health() {
    assert_eq!(get_music_track(3), 3);
    assert_eq!(select_music_track(true, false, 4), Some(4));
    assert_eq!(select_music_track(false, true, 1), Some(1));
    // no event: no retune
    assert_eq!(select_music_track(false, false, 3), None);
    // health gone: the round is over, nothing to retune
    assert_eq!(select_music_track(true, false, 0), None);
}

#[test]
fn profile_construction_fails_fast() {
    let ok = PursuerProfile::new(200_000, 300_000, 500, -200, false);
    assert!(ok.is_ok());
    let p = ok.unwrap();
    assert_eq!(p.max_speed, 200_000);
    assert_eq!(p.coin_pull, -200);
    // zero speed is an invariant violation, rejected at construction
    assert_eq!(
        PursuerProfile::new(0, 300_000, 500, 0, false),
        Err(CoreError::InvalidParameter)
    );
    // negative acceleration likewise
    assert_eq!(
        PursuerProfile::new(200_000, -1, 500, 0, false),
        Err(CoreError::InvalidParameter)
    );
    // out-of-range prediction
    assert_eq!(
        PursuerProfile::new(200_000, 300_000, 1001, 0, false),
        Err(CoreError::InvalidParameter)
    );
}

#[test]
fn direction_is_normalized_eight_way() {
    assert_eq!(get_direction(false, false, false, false), Vec2 { x: 0, y: 0 });
    assert_eq!(get_direction(true, false, false, false), Vec2 { x: 0, y: 1000 });
    assert_eq!(get_direction(false, true, false, false), Vec2 { x: 0, y: -1000 });
    assert_eq!(get_direction(false, false, true, false), Vec2 { x: -1000, y: 0 });
    assert_eq!(get_direction(false, false, false, true), Vec2 { x: 1000, y: 0 });
    // diagonals are normalized
    assert_eq!(get_direction(true, false, false, true), Vec2 { x: 707, y: 707 });
    assert_eq!(get_direction(false, true, true, false), Vec2 { x: -707, y: -707 });
    // opposite keys cancel
    assert_eq!(get_direction(true, true, false, true), Vec2 { x: 1000, y: 0 });
}

#[test]
fn default_profile_is_the_mildest_pursuer() {
    let p = PursuerProfile::default();
    assert_eq!(p.max_speed, arcade_core::ENEMY_MIN_SPEED);
    assert_eq!(p.max_accel, arcade_core::ENEMY_MIN_ACCEL);
    assert_eq!(p.future_prediction, 0);
    assert_eq!(p.coin_pull, 0);
    assert!(!p.wraps);
}

#[test]
fn knockback_never_grows_with_distance() {
    let mut prev = knockback_factor(-30_000);
    for sep in vec![-20_000i64, -5_000, -1, 0, 1, 500, 1_000, 5_000, 50_000, 500_000] {
        let cur = knockback_factor(sep);
        assert!(cur <= prev);
        prev = cur;
    }
}
