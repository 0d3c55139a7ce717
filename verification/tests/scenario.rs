use arcade_core::curve::enemy_base_speed;
use arcade_core::entity::Role;
use arcade_core::geom::Vec2;
use arcade_core::progress::{AppState, CoreError, GameEvent};
use arcade_core::spawn::get_coin_spawn_position;
use arcade_core::world::{FrameInput, World};
use arcade_core::{ENEMY_RADIUS, HIT_TRAUMA, SPEED_MAX_DEVIATION};

const WIDTH: i64 = 800_000;
const HEIGHT: i64 = 600_000;

fn playing_world(seed: u64) -> World {
    let mut w = World::new(WIDTH, HEIGHT, seed).unwrap();
    let ev = w.request_transition(AppState::Playing);
    assert_eq!(ev.len(), 1);
    assert!(matches!(
        ev[0],
        GameEvent::StateChanged { to: AppState::Playing, last_score: None }
    ));
    w
}

#[test]
fn bad_bounds_are_rejected() {
    assert!(matches!(World::new(1, 600_000, 0), Err(CoreError::InvalidParameter)));
    assert!(matches!(World::new(800_000, 0, 0), Err(CoreError::InvalidParameter)));
    assert!(World::new(2, 2, 0).is_ok());
}

#[test]
fn progression_events_in_menu_are_logic_errors() {
    let mut w = World::new(WIDTH, HEIGHT, 1).unwrap();
    assert!(matches!(w.process_pickup_collected(), Err(CoreError::NotInPlay)));
    assert!(matches!(w.process_player_hit(), Err(CoreError::NotInPlay)));
    // and the world is untouched
    assert_eq!(w.app_state(), AppState::Menu);
    assert_eq!(w.score(), 0);
}

#[test]
fn a_menu_tick_only_shakes() {
    let mut w = World::new(WIDTH, HEIGHT, 1).unwrap();
    let ev = w.tick(FrameInput { direction: Vec2 { x: 0, y: 0 }, dt: 16 });
    assert_eq!(ev.len(), 1);
    assert!(matches!(ev[0], GameEvent::ShakeOffset { x: 0, y: 0 }));
    assert_eq!(w.app_state(), AppState::Menu);
}

#[test]
fn survive_and_collect_full_round() {
    let mut w = playing_world(7);
    assert_eq!(w.score(), 0);
    assert_eq!(w.health(), 3);
    assert_eq!(w.pursuer_count(), 0);

    // collect the pickup eight times: one pursuer per collection, and the
    // eighth point grants health instead of a plain pickup
    for n in 1..=8i32 {
        let ev = w.process_pickup_collected().unwrap();
        assert_eq!(w.score(), n);
        assert_eq!(w.pursuer_count(), n as usize);
        assert!(matches!(ev[0], GameEvent::PickupCollected));
        if n == 8 {
            assert_eq!(ev.len(), 3);
            assert!(matches!(ev[1], GameEvent::HealthGained));
        } else {
            assert_eq!(ev.len(), 2);
        }
        assert!(matches!(ev[ev.len() - 1], GameEvent::PursuerSpawned { .. }));
    }
    assert_eq!(w.score(), 8);
    assert_eq!(w.health(), 4);
    assert_eq!(w.pursuer_count(), 8);

    // one hit: health down, invincibility up, one knockback on all 8 pursuers
    let ev = w.process_player_hit().unwrap();
    assert_eq!(ev.len(), 1);
    assert!(matches!(ev[0], GameEvent::PlayerHit { severity } if severity == HIT_TRAUMA));
    assert_eq!(w.health(), 3);
    assert!(w.is_invincible());
    assert_eq!(w.pursuer_count(), 8);
    let snap = w.entity_snapshot();
    assert_eq!(snap.len(), 10);
    for (id, role, _pos, radius) in snap.iter().skip(2) {
        assert!(*id >= 2);
        assert!(matches!(role, Role::Pursuer));
        assert_eq!(*radius, ENEMY_RADIUS);
    }

    // while invincible, a delivered hit is suppressed entirely
    let ev = w.process_player_hit().unwrap();
    assert_eq!(ev.len(), 0);
    assert_eq!(w.health(), 3);
    assert_eq!(w.app_state(), AppState::Playing);

    // two more hits, each after invincibility lapses: still playing
    w.info.invincible = false;
    let _ = w.process_player_hit().unwrap();
    assert_eq!(w.health(), 2);
    w.info.invincible = false;
    let _ = w.process_player_hit().unwrap();
    assert_eq!(w.health(), 1);
    assert_eq!(w.app_state(), AppState::Playing);

    // the last hit drains health: back to the menu with the score recorded
    w.info.invincible = false;
    let ev = w.process_player_hit().unwrap();
    assert_eq!(w.health(), 0);
    assert_eq!(w.app_state(), AppState::Menu);
    assert_eq!(w.last_completed_score(), Some(8));
    assert_eq!(w.pursuer_count(), 0);
    assert_eq!(ev.len(), 2);
    assert!(matches!(
        ev[1],
        GameEvent::StateChanged { to: AppState::Menu, last_score: Some(8) }
    ));
}

#[test]
fn knockback_shoves_every_pursuer() {
    let mut w = playing_world(11);
    for _ in 0..8 {
        let _ = w.process_pickup_collected().unwrap();
    }
    // all pursuers spawn at rest
    for i in 0..8usize {
        assert_eq!(w.pursuers[i].body.velocity, Vec2 { x: 0, y: 0 });
    }
    let _ = w.process_player_hit().unwrap();
    // one impulse, applied to every pursuer, directed away from the player
    for i in 0..8usize {
        let v = w.pursuers[i].body.velocity;
        assert!(v.x != 0 || v.y != 0);
        let p = w.pursuers[i].body.position;
        // pointing outward: the impulse has the sign of the offset
        assert!(p.x * v.x >= 0 && p.y * v.y >= 0);
    }
}

#[test]
fn first_tick_of_motion_is_exact() {
    let mut w = playing_world(3);
    let ev = w.tick(FrameInput { direction: Vec2 { x: 1000, y: 0 }, dt: 16 });
    // velocity grows by accel * dt toward the 300-unit/s target,
    // position integrates the new velocity
    assert_eq!(w.player.velocity, Vec2 { x: 14_400, y: 0 });
    assert_eq!(w.player.position, Vec2 { x: 230, y: 0 });
    assert!(matches!(ev[ev.len() - 1], GameEvent::ShakeOffset { .. }));
}

#[test]
fn idle_input_still_decelerates() {
    let mut w = playing_world(3);
    let _ = w.tick(FrameInput { direction: Vec2 { x: 1000, y: 0 }, dt: 16 });
    assert_eq!(w.player.velocity, Vec2 { x: 14_400, y: 0 });
    // releasing the keys steers the velocity back toward zero
    let _ = w.tick(FrameInput { direction: Vec2 { x: 0, y: 0 }, dt: 16 });
    assert_eq!(w.player.velocity, Vec2 { x: 0, y: 0 });
}

#[test]
fn late_game_archetype_spawns_on_even_scores_past_the_threshold() {
    let mut w = playing_world(23);
    let mut wraps_by_score: Vec<(i32, bool)> = Vec::new();
    for n in 1..=17i32 {
        let ev = w.process_pickup_collected().unwrap();
        match ev[ev.len() - 1] {
            GameEvent::PursuerSpawned { wraps, max_speed, .. } => {
                wraps_by_score.push((n, wraps));
                // the drawn speed stays inside the deviation band of the curve
                let base = enemy_base_speed(n as i64);
                assert!((max_speed - base).abs() <= SPEED_MAX_DEVIATION);
            }
            _ => panic!("a collection always spawns a pursuer"),
        }
    }
    for (score, wraps) in wraps_by_score {
        assert_eq!(wraps, score >= 16 && score % 2 == 0);
    }
    // the wrap margin matches the archetype
    assert_eq!(w.pursuers[15].body.wrap_margin, ENEMY_RADIUS);
    assert_eq!(w.pursuers[14].body.wrap_margin, 8 * ENEMY_RADIUS);
}

#[test]
fn pickup_relocates_inside_the_bounds() {
    let mut w = playing_world(5);
    for _ in 0..25 {
        let _ = w.process_pickup_collected().unwrap();
        let p = w.coin.position;
        assert!(-(WIDTH / 2) <= p.x && p.x < WIDTH / 2);
        assert!(-(HEIGHT / 2) <= p.y && p.y < HEIGHT / 2);
    }
}

#[test]
fn coin_spawn_draws_stay_in_range() {
    let mut generator = <rand::rngs::StdRng as rand::SeedableRng>::seed_from_u64(9);
    for _ in 0..100 {
        let p = get_coin_spawn_position(&mut generator, WIDTH, HEIGHT);
        assert!(-(WIDTH / 2) <= p.x && p.x < WIDTH / 2);
        assert!(-(HEIGHT / 2) <= p.y && p.y < HEIGHT / 2);
    }
}

#[test]
fn leaving_a_round_records_the_score() {
    let mut w = playing_world(13);
    for _ in 0..3 {
        let _ = w.process_pickup_collected().unwrap();
    }
    let ev = w.request_transition(AppState::Menu);
    assert_eq!(w.app_state(), AppState::Menu);
    assert_eq!(w.last_completed_score(), Some(3));
    assert_eq!(w.pursuer_count(), 0);
    assert!(matches!(
        ev[0],
        GameEvent::StateChanged { to: AppState::Menu, last_score: Some(3) }
    ));
    // re-entering resets progression and shows the recorded score
    let ev = w.request_transition(AppState::Playing);
    assert_eq!(w.score(), 0);
    assert_eq!(w.health(), 3);
    assert!(matches!(
        ev[0],
        GameEvent::StateChanged { to: AppState::Playing, last_score: Some(3) }
    ));
    // requesting the current state is a no-op
    let ev = w.request_transition(AppState::Playing);
    assert_eq!(ev.len(), 0);
}

#[test]
fn resize_keeps_entities_where_they_are() {
    let mut w = playing_world(17);
    let before = w.player.position;
    assert!(w.set_bounds(400_000, 300_000).is_ok());
    assert_eq!(w.player.position, before);
    assert!(matches!(w.set_bounds(1, 300_000), Err(CoreError::InvalidParameter)));
    assert_eq!(w.bounds.width, 400_000);
}

#[test]
fn invincibility_gates_hits_through_whole_ticks() {
    let mut w = playing_world(19);
    for _ in 0..4 {
        let _ = w.process_pickup_collected().unwrap();
    }
    let _ = w.process_player_hit().unwrap();
    assert!(w.is_invincible());
    let health = w.health();
    // run several frames while invincible: whatever the pursuers do, no
    // hit event is emitted and no health is lost
    for _ in 0..20 {
        let ev = w.tick(FrameInput { direction: Vec2 { x: 0, y: 0 }, dt: 50 });
        for e in ev.iter() {
            assert!(!matches!(e, GameEvent::PlayerHit { .. }));
        }
        assert!(w.health() >= health);
    }
}
