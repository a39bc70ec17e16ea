//! The countdown engine. The surrounding application drives `tick` from a
//! ~100 ms interval and hands it the current monotonic clock reading; the
//! engine recomputes the remaining time against the instant the run
//! started, so no drift accumulates, and performs the expiry protocol when
//! the countdown reaches zero. The protocol's side effects — the tray
//! title, the transient alert window, the alarm — are returned as plain
//! values for the caller to carry out.

use vstd::prelude::*;

use crate::controller::expire_spec;
use crate::messages::{alert_message, alert_message_seq, expiry_tray_title, expiry_tray_title_seq};
use crate::session::{SessionMode, SessionModel};

verus! {

/// Interval of the cooperative countdown loop, in milliseconds.
pub const TICK_INTERVAL_MS: u64 = 100;

/// Logical width of the transient alert window, in pixels.
pub const ALERT_WIDTH: u32 = 600;
/// Logical height of the transient alert window, in pixels.
pub const ALERT_HEIGHT: u32 = 64;
/// Distance of the alert window from the top of the display, in pixels.
pub const ALERT_TOP_OFFSET: u32 = 64;

/// A request to present the transient alert window: its headline and its
/// fixed geometry. The horizontal centring on the active display is left
/// to the display locator of the platform layer.
pub struct AlertRequest {
    pub message: String,
    pub width: u32,
    pub height: u32,
    pub top_offset: u32,
}

/// A fire-and-forget request to play the alarm sound.
pub struct AlarmRequest {
    pub path: String,
}

/// Everything the expiry protocol asks of the platform layer.
pub struct ExpiryEffects {
    pub tray_title: String,
    pub alert: AlertRequest,
    pub alarm: AlarmRequest,
}

/// Builds the alarm trigger: playback itself (decoding the file, opening
/// the audio output) is the platform layer's business and never reports
/// back.
pub fn play_alarm() -> (r: AlarmRequest)
    ensures
        r.path@ == "assets/alarm.wav"@,
{
    AlarmRequest { path: "assets/alarm.wav".to_owned() }
}

/// Builds the alert-window request for the session the timer switched
/// into.
pub fn alert_request(mode: SessionMode, small_session_count: u32) -> (r: AlertRequest)
    ensures
        r.message@ == alert_message_seq(mode, small_session_count),
        r.width == ALERT_WIDTH,
        r.height == ALERT_HEIGHT,
        r.top_offset == ALERT_TOP_OFFSET,
{
    AlertRequest {
        message: alert_message(mode, small_session_count),
        width: ALERT_WIDTH,
        height: ALERT_HEIGHT,
        top_offset: ALERT_TOP_OFFSET,
    }
}

impl SessionModel {
    /// One step of the cooperative countdown loop, at monotonic instant
    /// `now_ms`. While time remains, only `remaining_ms` changes; when the
    /// elapsed time reaches the countdown base, the expiry protocol runs
    /// and its requested effects are returned. The counter bounds keep the
    /// expiry increments exact.
    pub fn tick(&mut self, now_ms: u64) -> (effects: Option<ExpiryEffects>)
        requires
            old(self).wf(),
            old(self).timer_running,
            old(self).start_instant_ms <= now_ms,
            old(self).small_session_count < u32::MAX,
            old(self).full_session_count < u32::MAX,
        ensures
            *final(self) == crate::controller::tick_spec(*old(self), now_ms),
            final(self).wf(),
            final(self).timer_expired ==> (effects matches Some(e)
                && e.tray_title@ == expiry_tray_title_seq(old(self).mode)
                && e.alert.message@ == alert_message_seq(
                    final(self).mode,
                    final(self).small_session_count,
                )
                && e.alert.width == ALERT_WIDTH
                && e.alert.height == ALERT_HEIGHT
                && e.alert.top_offset == ALERT_TOP_OFFSET
                && e.alarm.path@ == "assets/alarm.wav"@),
            !final(self).timer_expired ==> effects is None,
    {
        let elapsed: u64 = now_ms - self.start_instant_ms;
        if elapsed >= self.base_remaining_ms as u64 {
            self.remaining_ms = 0;
            Some(self.expire())
        } else {
            self.remaining_ms = self.base_remaining_ms - (elapsed as u32);
            None
        }
    }

    /// The expiry protocol: the timer stops in the expired state, the mode
    /// toggles, the counters advance — the full-session counter when the
    /// finished session sat at a long-break boundary, the focus counter
    /// when a focus session finished — and the requested side effects are
    /// returned.
    fn expire(&mut self) -> (effects: ExpiryEffects)
        requires
            old(self).wf(),
            old(self).timer_running,
            old(self).remaining_ms == 0,
            old(self).small_session_count < u32::MAX,
            old(self).full_session_count < u32::MAX,
        ensures
            *final(self) == expire_spec(*old(self)),
            final(self).wf(),
            effects.tray_title@ == expiry_tray_title_seq(old(self).mode),
            effects.alert.message@ == alert_message_seq(
                final(self).mode,
                final(self).small_session_count,
            ),
            effects.alert.width == ALERT_WIDTH,
            effects.alert.height == ALERT_HEIGHT,
            effects.alert.top_offset == ALERT_TOP_OFFSET,
            effects.alarm.path@ == "assets/alarm.wav"@,
    {
        self.timer_expired = true;
        self.timer_running = false;
        let prev_mode = self.mode;
        if self.small_session_count % 4 == 0 && self.small_session_count != 0 {
            self.full_session_count = self.full_session_count + 1;
        }
        let title = expiry_tray_title(prev_mode);
        if matches!(prev_mode, SessionMode::Focus) {
            self.small_session_count = self.small_session_count + 1;
        }
        self.mode = match prev_mode {
            SessionMode::Focus => SessionMode::Break,
            SessionMode::Break => SessionMode::Focus,
        };
        ExpiryEffects {
            tray_title: title,
            alert: alert_request(self.mode, self.small_session_count),
            alarm: play_alarm(),
        }
    }
}

} // verus!
