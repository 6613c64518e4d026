//! The game-process state machine: running, cooling down after the game exits, not running.
//!
//! Times are milliseconds since the Unix epoch; durations are milliseconds.

use vstd::prelude::*;

verus! {

/// How long after the game exits the app keeps polling: forty minutes.
pub const GAME_PROCESS_COOLDOWN: u64 = 2_400_000;

#[derive(Debug, Clone, Copy, PartialEq, Eq, Structural)]
pub enum GameProcessState {
    NotRunning,
    Running,
    CooldownPolling,
}

#[derive(Debug, Clone, Copy, PartialEq, Eq)]
pub struct GameProcessRuntime {
    pub state: GameProcessState,
    pub last_seen_running_at: Option<u64>,
    pub cooldown_started_at: Option<u64>,
    pub last_process_check_at: Option<u64>,
    pub last_recent_match_check_at: Option<u64>,
}

#[derive(Debug, Clone, Copy)]
pub struct GameProcessStatusSnapshot {
    pub state: GameProcessState,
    pub last_seen_running_at_ms: Option<u64>,
    pub cooldown_started_at_ms: Option<u64>,
    pub last_process_check_at_ms: Option<u64>,
    pub last_recent_match_check_at_ms: Option<u64>,
}

/// The time from `start` to `end`, or `None` when `end` is earlier.
pub open spec fn elapsed_spec(start: u64, end: u64) -> Option<u64> {
    if end >= start {
        Some((end - start) as u64)
    } else {
        None
    }
}

/// The runtime after one observation of whether the game process runs.
///
/// Seeing the process makes the state `Running`. Losing it while running starts the cooldown.
/// During the cooldown the state falls back to `NotRunning` once the cooldown has fully
/// elapsed. Every observation records its time.
pub open spec fn observed(r: GameProcessRuntime, process_running: bool, now: u64, cooldown: u64) -> GameProcessRuntime {
    let r = GameProcessRuntime { last_process_check_at: Some(now), ..r };
    if process_running {
        GameProcessRuntime {
            state: GameProcessState::Running,
            last_seen_running_at: Some(now),
            cooldown_started_at: None,
            ..r
        }
    } else {
        match r.state {
            GameProcessState::Running => GameProcessRuntime {
                state: GameProcessState::CooldownPolling,
                cooldown_started_at: Some(now),
                ..r
            },
            GameProcessState::CooldownPolling => match r.cooldown_started_at {
                Some(started) => match elapsed_spec(started, now) {
                    Some(elapsed) => if elapsed >= cooldown {
                        GameProcessRuntime {
                            state: GameProcessState::NotRunning,
                            cooldown_started_at: None,
                            ..r
                        }
                    } else {
                        r
                    },
                    None => r,
                },
                None => GameProcessRuntime { cooldown_started_at: Some(now), ..r },
            },
            GameProcessState::NotRunning => GameProcessRuntime { cooldown_started_at: None, ..r },
        }
    }
}

/// Whether a recent-match check is due: never checked, or at least `cadence` since the last.
pub open spec fn check_due(r: GameProcessRuntime, now: u64, cadence: u64) -> bool {
    match r.last_recent_match_check_at {
        Some(last) => match elapsed_spec(last, now) {
            Some(elapsed) => elapsed >= cadence,
            None => false,
        },
        None => true,
    }
}

impl Default for GameProcessRuntime {
    fn default() -> (res: Self)
        ensures
            res.state == GameProcessState::NotRunning,
            res.last_seen_running_at is None,
            res.cooldown_started_at is None,
            res.last_process_check_at is None,
            res.last_recent_match_check_at is None,
    {
        GameProcessRuntime {
            state: GameProcessState::NotRunning,
            last_seen_running_at: None,
            cooldown_started_at: None,
            last_process_check_at: None,
            last_recent_match_check_at: None,
        }
    }
}

impl GameProcessRuntime {
    /// Records one observation with the standard forty-minute cooldown.
    pub fn update_process_observation(&mut self, process_running: bool, now: u64)
        ensures
            *final(self) == observed(*old(self), process_running, now, GAME_PROCESS_COOLDOWN),
    {
        self.update_process_observation_with_cooldown(process_running, now, GAME_PROCESS_COOLDOWN);
    }

    /// Records one observation (see `observed`).
    pub fn update_process_observation_with_cooldown(&mut self, process_running: bool, now: u64, cooldown: u64)
        ensures
            *final(self) == observed(*old(self), process_running, now, cooldown),
    {
        self.last_process_check_at = Some(now);

        if process_running {
            self.state = GameProcessState::Running;
            self.last_seen_running_at = Some(now);
            self.cooldown_started_at = None;
            return;
        }

        match self.state {
            GameProcessState::Running => {
                self.state = GameProcessState::CooldownPolling;
                self.cooldown_started_at = Some(now);
            },
            GameProcessState::CooldownPolling => {
                match self.cooldown_started_at {
                    Some(cooldown_started_at) => {
                        match elapsed_since(cooldown_started_at, now) {
                            Some(elapsed) => {
                                if elapsed >= cooldown {
                                    self.state = GameProcessState::NotRunning;
                                    self.cooldown_started_at = None;
                                }
                            },
                            None => {},
                        }
                    },
                    None => {
                        self.cooldown_started_at = Some(now);
                    },
                }
            },
            GameProcessState::NotRunning => {
                self.cooldown_started_at = None;
            },
        }
    }

    /// Whether a recent-match check is due (see `check_due`).
    pub fn should_trigger_recent_match_check(&self, now: u64, cadence: u64) -> (res: bool)
        ensures
            res == check_due(*self, now, cadence),
    {
        match self.last_recent_match_check_at {
            Some(last_check) => match elapsed_since(last_check, now) {
                Some(elapsed) => elapsed >= cadence,
                None => false,
            },
            None => true,
        }
    }

    /// Records that a recent-match check ran at `now`.
    pub fn mark_recent_match_check(&mut self, now: u64)
        ensures
            *final(self) == (GameProcessRuntime { last_recent_match_check_at: Some(now), ..*old(self) }),
    {
        self.last_recent_match_check_at = Some(now);
    }

    /// The state and times of the runtime.
    pub fn snapshot(&self) -> (res: GameProcessStatusSnapshot)
        ensures
            res.state == self.state,
            res.last_seen_running_at_ms == self.last_seen_running_at,
            res.cooldown_started_at_ms == self.cooldown_started_at,
            res.last_process_check_at_ms == self.last_process_check_at,
            res.last_recent_match_check_at_ms == self.last_recent_match_check_at,
    {
        GameProcessStatusSnapshot {
            state: self.state,
            last_seen_running_at_ms: to_unix_ms(self.last_seen_running_at),
            cooldown_started_at_ms: to_unix_ms(self.cooldown_started_at),
            last_process_check_at_ms: to_unix_ms(self.last_process_check_at),
            last_recent_match_check_at_ms: to_unix_ms(self.last_recent_match_check_at),
        }
    }
}

/// The time from `start` to `end`, or `None` when `end` is earlier.
pub fn elapsed_since(start: u64, end: u64) -> (res: Option<u64>)
    ensures
        res == elapsed_spec(start, end),
{
    if end >= start {
        Some(end - start)
    } else {
        None
    }
}

/// A time as milliseconds since the Unix epoch (times here already are).
pub fn to_unix_ms(value: Option<u64>) -> (res: Option<u64>)
    ensures
        res == value,
{
    value
}

/// After any observation the cooldown start is recorded exactly while cooling down, and the
/// observation time is recorded.
pub proof fn law_cooldown_start_marks_cooldown(r: GameProcessRuntime, process_running: bool, now: u64, cooldown: u64)
    ensures
        observed(r, process_running, now, cooldown).cooldown_started_at is Some
            <==> observed(r, process_running, now, cooldown).state == GameProcessState::CooldownPolling,
        observed(r, process_running, now, cooldown).last_process_check_at == Some(now),
{
}

/// Seeing the process always makes the state `Running`; not seeing it never does.
pub proof fn law_running_iff_seen(r: GameProcessRuntime, process_running: bool, now: u64, cooldown: u64)
    ensures
        (observed(r, process_running, now, cooldown).state == GameProcessState::Running) <==> process_running,
{
}

/// A game that is not running stays not running until the process is seen.
pub proof fn law_not_running_is_stable(r: GameProcessRuntime, now: u64, cooldown: u64)
    requires
        r.state == GameProcessState::NotRunning,
    ensures
        observed(r, false, now, cooldown).state == GameProcessState::NotRunning,
{
}

/// The cooldown ends exactly when it has lasted `cooldown` milliseconds.
pub proof fn law_cooldown_expiry(r: GameProcessRuntime, now: u64, cooldown: u64)
    requires
        r.state == GameProcessState::CooldownPolling,
        r.cooldown_started_at == Some(now),
    ensures
        forall|later: u64| later >= now ==>
            ((#[trigger] observed(r, false, later, cooldown)).state == GameProcessState::NotRunning
                <==> later - now >= cooldown),
{
}

/// Right after a check is marked, another is due at once only with a zero cadence.
pub proof fn law_mark_then_check(r: GameProcessRuntime, now: u64, cadence: u64)
    ensures
        check_due(GameProcessRuntime { last_recent_match_check_at: Some(now), ..r }, now, cadence) <==> cadence == 0,
{
}

} // verus!
