//! The session model: the single source of truth that the controller and
//! the countdown engine mutate and the UI observes.

use vstd::prelude::*;

verus! {

/// Milliseconds in a focus session.
pub const FOCUS_DURATION_MS: u32 = 25 * 60 * 1000;
/// Milliseconds in a short break.
pub const SHORT_BREAK_DURATION_MS: u32 = 5 * 60 * 1000;
/// Milliseconds in a long break (every fourth break).
pub const LONG_BREAK_DURATION_MS: u32 = 20 * 60 * 1000;

/// The two kinds of session the timer alternates between.
#[derive(Clone, Copy, Debug, PartialEq, Eq, Structural)]
pub enum SessionMode {
    Focus,
    Break,
}

/// A break whose index is a non-zero multiple of four is a long break.
pub open spec fn long_break_boundary(small_session_count: u32) -> bool {
    small_session_count % 4 == 0 && small_session_count != 0
}

/// Full length of a session in milliseconds, given the mode and the number
/// of completed focus sessions.
pub open spec fn duration_ms(mode: SessionMode, small_session_count: u32) -> u32 {
    match mode {
        SessionMode::Focus => FOCUS_DURATION_MS,
        SessionMode::Break => if long_break_boundary(small_session_count) {
            LONG_BREAK_DURATION_MS
        } else {
            SHORT_BREAK_DURATION_MS
        },
    }
}

/// The mode the timer switches to on a skip or an expiry.
pub open spec fn other_mode(mode: SessionMode) -> SessionMode {
    match mode {
        SessionMode::Focus => SessionMode::Break,
        SessionMode::Break => SessionMode::Focus,
    }
}

/// Process-wide timer state. The countdown recomputes `remaining_ms` from
/// `base_remaining_ms` and `start_instant_ms` on every tick, so pausing and
/// resuming accumulates no drift. `start_instant_ms` and `base_remaining_ms`
/// are meaningful only while `timer_running` is true; `last_saved_ms` only
/// while `skipped_session` is true.
#[derive(Clone, Copy, Debug, PartialEq, Eq, Structural)]
pub struct SessionModel {
    pub mode: SessionMode,
    pub small_session_count: u32,
    pub full_session_count: u32,
    pub remaining_ms: u32,
    pub timer_running: bool,
    pub timer_expired: bool,
    pub last_saved_ms: u32,
    pub skipped_session: bool,
    pub start_instant_ms: u64,
    pub base_remaining_ms: u32,
}

/// The state the application starts in: an untouched 25-minute focus session.
pub open spec fn initial_model() -> SessionModel {
    SessionModel {
        mode: SessionMode::Focus,
        small_session_count: 0,
        full_session_count: 0,
        remaining_ms: FOCUS_DURATION_MS,
        timer_running: false,
        timer_expired: false,
        last_saved_ms: 0,
        skipped_session: false,
        start_instant_ms: 0,
        base_remaining_ms: FOCUS_DURATION_MS,
    }
}

impl SessionModel {
    /// Well-formedness: holds of the initial state and is preserved by every
    /// operation, so it holds of every reachable state. It carries the two
    /// quantified timer invariants (running and expired are mutually
    /// exclusive; the remaining time never exceeds the session length)
    /// together with the bookkeeping facts that keep a revert meaningful.
    pub open spec fn wf(self) -> bool {
        &&& !(self.timer_running && self.timer_expired)
        &&& self.remaining_ms <= duration_ms(self.mode, self.small_session_count)
        &&& self.timer_running ==> self.remaining_ms <= self.base_remaining_ms
            && self.base_remaining_ms <= duration_ms(self.mode, self.small_session_count)
        &&& self.skipped_session ==> !self.timer_running
        &&& self.skipped_session && self.mode == SessionMode::Break ==> self.small_session_count >= 1
            && self.last_saved_ms <= FOCUS_DURATION_MS
        &&& self.skipped_session && self.mode == SessionMode::Focus ==> self.last_saved_ms
            <= duration_ms(SessionMode::Break, self.small_session_count)
    }

    /// Builds the initial state.
    pub fn initial() -> (m: SessionModel)
        ensures
            m == initial_model(),
            m.wf(),
    {
        SessionModel {
            mode: SessionMode::Focus,
            small_session_count: 0,
            full_session_count: 0,
            remaining_ms: FOCUS_DURATION_MS,
            timer_running: false,
            timer_expired: false,
            last_saved_ms: 0,
            skipped_session: false,
            start_instant_ms: 0,
            base_remaining_ms: FOCUS_DURATION_MS,
        }
    }

    /// Runtime check of `wf`, for callers outside the verified world that
    /// must guard an operation defensively.
    pub fn check_wf(&self) -> (b: bool)
        ensures
            b == self.wf(),
    {
        (!(self.timer_running && self.timer_expired))
            && self.remaining_ms <= session_duration_ms(self.mode, self.small_session_count)
            && (!self.timer_running || (self.remaining_ms <= self.base_remaining_ms
                && self.base_remaining_ms
                    <= session_duration_ms(self.mode, self.small_session_count)))
            && (!self.skipped_session || !self.timer_running)
            && (!(self.skipped_session && matches!(self.mode, SessionMode::Break))
                || (self.small_session_count >= 1 && self.last_saved_ms <= FOCUS_DURATION_MS))
            && (!(self.skipped_session && matches!(self.mode, SessionMode::Focus))
                || self.last_saved_ms
                    <= session_duration_ms(SessionMode::Break, self.small_session_count))
    }
}

/// Executable twin of `duration_ms`.
pub fn session_duration_ms(mode: SessionMode, small_session_count: u32) -> (d: u32)
    ensures
        d == duration_ms(mode, small_session_count),
{
    match mode {
        SessionMode::Focus => FOCUS_DURATION_MS,
        SessionMode::Break => {
            if small_session_count % 4 == 0 && small_session_count != 0 {
                LONG_BREAK_DURATION_MS
            } else {
                SHORT_BREAK_DURATION_MS
            }
        },
    }
}

} // verus!
