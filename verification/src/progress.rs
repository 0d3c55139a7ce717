//! Progression state: score, health, invincibility, the Menu/Playing
//! application states, the per-tick event stream handed to the shell, and
//! the edge-triggered invincibility timer.

use vstd::prelude::*;

use crate::{DT_LIMIT, HEALTH_MULTIPLE, MAX_HEALTH, PLAYER_INVINCIBILITY_TIME, PLAYER_START_HEALTH};

verus! {

#[derive(Clone, Copy, PartialEq, Eq, Structural, Debug)]
pub enum AppState {
    Menu,
    Playing,
}

/// The engine's only failures are invariant violations: bad spawn or bounds
/// parameters, and progression events delivered while no round is running.
#[derive(Clone, Copy, PartialEq, Eq, Structural, Debug)]
pub enum CoreError {
    InvalidParameter,
    NotInPlay,
}

/// Everything the shell may want to render or sonify, emitted per tick.
#[derive(Clone, Copy, Debug)]
pub enum GameEvent {
    PickupCollected,
    HealthGained,
    PlayerHit { severity: i64 },
    PursuerSpawned { max_speed: i64, max_accel: i64, wraps: bool },
    StateChanged { to: AppState, last_score: Option<i32> },
    ShakeOffset { x: i64, y: i64 },
}

pub open spec fn is_player_hit(e: GameEvent) -> bool {
    match e {
        GameEvent::PlayerHit { .. } => true,
        _ => false,
    }
}

pub open spec fn is_pursuer_spawned(e: GameEvent) -> bool {
    match e {
        GameEvent::PursuerSpawned { .. } => true,
        _ => false,
    }
}

pub open spec fn is_shake_offset(e: GameEvent) -> bool {
    match e {
        GameEvent::ShakeOffset { .. } => true,
        _ => false,
    }
}

/// Score, health and the invincibility flag; owned by the state machine,
/// which alone mutates them, triggered only by collision events.
pub struct GameInfo {
    pub score: i32,
    pub health: i32,
    pub invincible: bool,
}

pub open spec fn info_wf(info: GameInfo) -> bool {
    0 <= info.score && 0 <= info.health <= MAX_HEALTH
}

impl Default for GameInfo {
    fn default() -> (info: Self)
        ensures
            info.score == 0,
            info.health == PLAYER_START_HEALTH,
            !info.invincible,
    {
        GameInfo { score: 0, health: PLAYER_START_HEALTH, invincible: false }
    }
}

impl GameInfo {
    /// Grant health, capped at `MAX_HEALTH`.
    pub fn add_health(&mut self, amount: i32)
        requires
            info_wf(*old(self)),
            0 <= amount <= MAX_HEALTH,
        ensures
            final(self).score == old(self).score,
            final(self).invincible == old(self).invincible,
            final(self).health == if old(self).health + amount <= MAX_HEALTH {
                old(self).health + amount
            } else {
                MAX_HEALTH as int
            },
            info_wf(*final(self)),
    {
        let h = self.health + amount;
        self.health = if h <= MAX_HEALTH {
            h
        } else {
            MAX_HEALTH
        };
    }
}

/// A pickup grants health instead of a plain point exactly when the score it
/// brings is a positive multiple of `HEALTH_MULTIPLE`; the very first pickup
/// alone never grants.
pub open spec fn health_grant_spec(score: int) -> bool {
    score != 1 && score % (HEALTH_MULTIPLE as int) == 0
}

/// Counts down once per tick while running; fires `just_finished` exactly
/// once when it crosses zero and stays silent afterwards until reset.
pub struct InvincibilityTimer {
    pub remaining: i64,
    pub finished: bool,
}

pub open spec fn timer_wf(t: InvincibilityTimer) -> bool {
    0 <= t.remaining <= PLAYER_INVINCIBILITY_TIME
}

impl InvincibilityTimer {
    pub fn new() -> (t: Self)
        ensures
            t.remaining == PLAYER_INVINCIBILITY_TIME,
            !t.finished,
            timer_wf(t),
    {
        InvincibilityTimer { remaining: PLAYER_INVINCIBILITY_TIME, finished: false }
    }

    /// Restart the countdown from the full invincibility duration.
    pub fn reset(&mut self)
        ensures
            final(self).remaining == PLAYER_INVINCIBILITY_TIME,
            !final(self).finished,
            timer_wf(*final(self)),
    {
        self.remaining = PLAYER_INVINCIBILITY_TIME;
        self.finished = false;
    }

    /// Advance by `dt`; the result reports the edge: true exactly on the
    /// tick the countdown crosses zero, never again until a reset.
    pub fn tick(&mut self, dt: i64) -> (just_finished: bool)
        requires
            timer_wf(*old(self)),
            0 <= dt <= DT_LIMIT,
        ensures
            timer_wf(*final(self)),
            old(self).finished ==> *final(self) == *old(self) && !just_finished,
            !old(self).finished && old(self).remaining > dt ==> final(self).remaining == old(
                self,
            ).remaining - dt && !final(self).finished && !just_finished,
            !old(self).finished && old(self).remaining <= dt ==> final(self).remaining == 0
                && final(self).finished && just_finished,
    {
        if self.finished {
            return false;
        }
        if self.remaining > dt {
            self.remaining = self.remaining - dt;
            false
        } else {
            self.remaining = 0;
            self.finished = true;
            true
        }
    }
}

/// Which ambient music intensity fits the current health; only meaningful
/// with at least one health left.
pub fn get_music_track(health: i32) -> (track: i32)
    requires
        1 <= health <= MAX_HEALTH,
    ensures
        track == health,
{
    health
}

/// Whether a tick's events change the ambient music, and to which track:
/// only a hit or a health gain retunes it, and never once health is gone.
pub fn select_music_track(hit: bool, gained: bool, health: i32) -> (track: Option<i32>)
    requires
        0 <= health <= MAX_HEALTH,
    ensures
        (hit || gained) && health >= 1 ==> track == Some(health),
        !((hit || gained) && health >= 1) ==> track is None,
{
    if (hit || gained) && health >= 1 {
        Some(get_music_track(health))
    } else {
        None
    }
}

} // verus!
