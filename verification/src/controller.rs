//! The session controller: start, pause/resume, restart, skip and revert.
//!
//! Each operation is specified by a spec-level transition function on the
//! model; the executable method establishes exactly that transition and
//! preserves well-formedness. Invalid operations (a revert without a
//! preceding skip, a toggle on an expired timer) are no-ops rather than
//! errors.

use vstd::prelude::*;

use crate::format::{format_mm_ss, tray_title, tray_title_seq};
use crate::session::{
    duration_ms, long_break_boundary, other_mode, SessionMode, SessionModel,
};

verus! {

/// Restart of the current session: the timer stops and the full session
/// length is restored. Counters and the skip bookkeeping are untouched.
pub open spec fn clear_spec(s: SessionModel) -> SessionModel {
    SessionModel {
        timer_running: false,
        remaining_ms: duration_ms(s.mode, s.small_session_count),
        timer_expired: false,
        ..s
    }
}

/// Start of a fresh run of the current session at monotonic instant
/// `now_ms`: the full session length is restored, the countdown base and
/// start instant are captured, and any pending skip is forgotten.
pub open spec fn start_spec(s: SessionModel, now_ms: u64) -> SessionModel {
    SessionModel {
        timer_running: true,
        timer_expired: false,
        remaining_ms: duration_ms(s.mode, s.small_session_count),
        base_remaining_ms: duration_ms(s.mode, s.small_session_count),
        start_instant_ms: now_ms,
        skipped_session: false,
        ..s
    }
}

/// Pause while running, resume while paused. A resume recaptures both the
/// countdown base and the start instant, so a paused timer continues from
/// the frozen display value without drift. On an expired timer the toggle
/// is a no-op: leaving the expired screen goes through `start_timer`.
pub open spec fn toggle_spec(s: SessionModel, now_ms: u64) -> SessionModel {
    if s.timer_expired {
        s
    } else if !s.timer_running {
        SessionModel {
            timer_running: true,
            base_remaining_ms: s.remaining_ms,
            start_instant_ms: now_ms,
            skipped_session: false,
            ..s
        }
    } else {
        SessionModel { timer_running: false, ..s }
    }
}

/// User skip to the next session: the mode toggles, the interrupted
/// remaining time is saved for a one-step revert, and the new session is
/// left cleared (not running). Skipping out of focus completes that focus
/// session; skipping out of a break at a long-break boundary completes
/// the set.
pub open spec fn next_spec(s: SessionModel) -> SessionModel {
    clear_spec(
        SessionModel {
            mode: other_mode(s.mode),
            last_saved_ms: s.remaining_ms,
            skipped_session: true,
            full_session_count: if s.mode == SessionMode::Break
                && long_break_boundary(s.small_session_count) {
                (s.full_session_count + 1) as u32
            } else {
                s.full_session_count
            },
            small_session_count: if s.mode == SessionMode::Focus {
                (s.small_session_count + 1) as u32
            } else {
                s.small_session_count
            },
            ..s
        },
    )
}

/// One-step undo of the most recent skip: the mode toggles back, the
/// counter mutation the skip performed is undone (the skip incremented the
/// focus counter exactly when it left focus, i.e. when the current mode is
/// a break), and the saved remaining time is restored. Without a pending
/// skip the call changes nothing.
pub open spec fn revert_spec(s: SessionModel) -> SessionModel {
    if !s.skipped_session {
        s
    } else {
        SessionModel {
            mode: other_mode(s.mode),
            small_session_count: if s.mode == SessionMode::Break {
                (s.small_session_count - 1) as u32
            } else {
                s.small_session_count
            },
            timer_running: false,
            remaining_ms: s.last_saved_ms,
            skipped_session: false,
            ..s
        }
    }
}

/// The expiry protocol, run on a running state whose countdown has reached
/// zero: the timer stops in the expired state, the mode toggles, and the
/// counters advance. Both counter updates read the focus count as it stood
/// before the focus increment: the full-session counter advances when the
/// finished session sat at a long-break boundary, the focus counter when
/// the finished session was focus.
pub open spec fn expire_spec(s: SessionModel) -> SessionModel {
    SessionModel {
        timer_expired: true,
        timer_running: false,
        mode: other_mode(s.mode),
        full_session_count: if long_break_boundary(s.small_session_count) {
            (s.full_session_count + 1) as u32
        } else {
            s.full_session_count
        },
        small_session_count: if s.mode == SessionMode::Focus {
            (s.small_session_count + 1) as u32
        } else {
            s.small_session_count
        },
        remaining_ms: 0,
        ..s
    }
}

/// One countdown step at monotonic instant `now_ms` (meaningful on a
/// running state with `start_instant_ms <= now_ms`): the remaining time is
/// recomputed from the run's base and start instant, and the expiry
/// protocol runs when the elapsed time has reached the base.
pub open spec fn tick_spec(s: SessionModel, now_ms: u64) -> SessionModel {
    if now_ms - s.start_instant_ms >= s.base_remaining_ms {
        expire_spec(SessionModel { remaining_ms: 0, ..s })
    } else {
        SessionModel {
            remaining_ms: (s.base_remaining_ms - (now_ms - s.start_instant_ms)) as u32,
            ..s
        }
    }
}

impl SessionModel {
    /// Restarts the current session; see `clear_spec`.
    pub fn clear_timer(&mut self)
        requires
            old(self).wf(),
        ensures
            *final(self) == clear_spec(*old(self)),
            final(self).wf(),
    {
        self.timer_running = false;
        self.remaining_ms = crate::session::session_duration_ms(
            self.mode,
            self.small_session_count,
        );
        self.timer_expired = false;
    }

    /// Starts a fresh run of the current session; see `start_spec`.
    /// `now_ms` is the current reading of the monotonic clock.
    pub fn start_timer(&mut self, now_ms: u64)
        requires
            old(self).wf(),
        ensures
            *final(self) == start_spec(*old(self), now_ms),
            final(self).wf(),
    {
        self.clear_timer();
        self.start_instant_ms = now_ms;
        self.base_remaining_ms = self.remaining_ms;
        self.timer_running = true;
        self.skipped_session = false;
    }

    /// Pauses a running timer, or resumes a paused one at `now_ms`;
    /// see `toggle_spec`.
    pub fn toggle_timer(&mut self, now_ms: u64)
        requires
            old(self).wf(),
        ensures
            *final(self) == toggle_spec(*old(self), now_ms),
            final(self).wf(),
    {
        if self.timer_expired {
        } else if !self.timer_running {
            self.base_remaining_ms = self.remaining_ms;
            self.start_instant_ms = now_ms;
            self.timer_running = true;
            self.skipped_session = false;
        } else {
            self.timer_running = false;
        }
    }

    /// Skips to the next session and returns the refreshed tray title;
    /// see `next_spec`. The counter bounds keep the increments exact.
    pub fn next_session(&mut self) -> (title: String)
        requires
            old(self).wf(),
            old(self).small_session_count < u32::MAX,
            old(self).full_session_count < u32::MAX,
        ensures
            *final(self) == next_spec(*old(self)),
            final(self).wf(),
            title@ == tray_title_seq(final(self).mode, final(self).remaining_ms as int),
    {
        let toggled = match self.mode {
            SessionMode::Focus => SessionMode::Break,
            SessionMode::Break => SessionMode::Focus,
        };
        let was_focus = matches!(self.mode, SessionMode::Focus);
        self.mode = toggled;
        self.last_saved_ms = self.remaining_ms;
        self.skipped_session = true;
        if !was_focus && self.small_session_count % 4 == 0 && self.small_session_count != 0 {
            self.full_session_count = self.full_session_count + 1;
        }
        if was_focus {
            self.small_session_count = self.small_session_count + 1;
        }
        self.timer_running = false;
        self.remaining_ms = crate::session::session_duration_ms(
            self.mode,
            self.small_session_count,
        );
        self.timer_expired = false;
        tray_title(self.mode, self.remaining_ms)
    }

    /// Reverts the most recent skip; see `revert_spec`. Returns the
    /// refreshed tray title, or `None` when no skip was pending and the
    /// call was rejected as a no-op.
    pub fn revert_session(&mut self) -> (title: Option<String>)
        requires
            old(self).wf(),
        ensures
            *final(self) == revert_spec(*old(self)),
            final(self).wf(),
            !old(self).skipped_session ==> *final(self) == *old(self) && title is None,
            old(self).skipped_session ==> (title matches Some(t)
                && t@ == tray_title_seq(final(self).mode, final(self).remaining_ms as int)),
    {
        if !self.skipped_session {
            return None;
        }
        if matches!(self.mode, SessionMode::Break) {
            self.small_session_count = self.small_session_count - 1;
        }
        self.mode = match self.mode {
            SessionMode::Focus => SessionMode::Break,
            SessionMode::Break => SessionMode::Focus,
        };
        self.timer_running = false;
        self.remaining_ms = self.last_saved_ms;
        self.skipped_session = false;
        Some(tray_title(self.mode, self.remaining_ms))
    }

    /// The action of the combined restart/revert control: a revert while a
    /// skip is pending, a plain restart otherwise.
    pub fn restart_or_revert(&mut self) -> (title: Option<String>)
        requires
            old(self).wf(),
        ensures
            old(self).skipped_session ==> *final(self) == revert_spec(*old(self))
                && (title matches Some(t) && t@ == tray_title_seq(
                final(self).mode,
                final(self).remaining_ms as int,
            )),
            !old(self).skipped_session ==> *final(self) == clear_spec(*old(self))
                && title is None,
            final(self).wf(),
    {
        if self.skipped_session {
            self.revert_session()
        } else {
            self.clear_timer();
            None
        }
    }

    /// The `mm:ss` string the main window displays for the current
    /// remaining time.
    pub fn formatted_time(&self) -> (t: String)
        requires
            self.wf(),
        ensures
            t@ == crate::format::mmss_seq(self.remaining_ms as int),
    {
        format_mm_ss(self.remaining_ms)
    }
}

} // verus!
