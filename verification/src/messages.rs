//! The fixed texts the timer surfaces: mode labels, expiry announcements,
//! and the tray title set at an expiry. Each selector is specified by the
//! same duration-policy predicate that picks between a short and a long
//! break.

use vstd::prelude::*;

use crate::session::{long_break_boundary, SessionMode};

verus! {

/// The tray title set by the expiry protocol, announcing the session that
/// comes after the one that just expired.
pub open spec fn expiry_tray_title_seq(prev_mode: SessionMode) -> Seq<char> {
    match prev_mode {
        SessionMode::Focus => "Break time!"@,
        SessionMode::Break => "Focus time!"@,
    }
}

/// The headline of the transient alert window, chosen from the session the
/// timer has switched into.
pub open spec fn alert_message_seq(mode: SessionMode, small_session_count: u32) -> Seq<char> {
    match mode {
        SessionMode::Focus => "It's time to focus!"@,
        SessionMode::Break => if long_break_boundary(small_session_count) {
            "Time for a long break!"@
        } else {
            "Time for a short break!"@
        },
    }
}

/// The headline of the expired screen in the main window.
pub open spec fn expired_message_seq(mode: SessionMode, small_session_count: u32) -> Seq<char> {
    match mode {
        SessionMode::Focus => "It's time to focus!"@,
        SessionMode::Break => if long_break_boundary(small_session_count) {
            "It's time for your long break!"@
        } else {
            "It's time for your short break!"@
        },
    }
}

/// The label of the main window's mode heading.
pub open spec fn mode_label_seq(mode: SessionMode, small_session_count: u32) -> Seq<char> {
    match mode {
        SessionMode::Focus => "Focus"@,
        SessionMode::Break => if long_break_boundary(small_session_count) {
            "Long break"@
        } else {
            "Short break"@
        },
    }
}

/// The caption of a button that starts the current session.
pub open spec fn start_button_label_seq(mode: SessionMode) -> Seq<char> {
    match mode {
        SessionMode::Focus => "Start focus"@,
        SessionMode::Break => "Start break"@,
    }
}

/// See `expiry_tray_title_seq`.
pub fn expiry_tray_title(prev_mode: SessionMode) -> (t: String)
    ensures
        t@ == expiry_tray_title_seq(prev_mode),
{
    match prev_mode {
        SessionMode::Focus => "Break time!".to_owned(),
        SessionMode::Break => "Focus time!".to_owned(),
    }
}

/// See `alert_message_seq`.
pub fn alert_message(mode: SessionMode, small_session_count: u32) -> (t: String)
    ensures
        t@ == alert_message_seq(mode, small_session_count),
{
    match mode {
        SessionMode::Focus => "It's time to focus!".to_owned(),
        SessionMode::Break => {
            if small_session_count % 4 == 0 && small_session_count != 0 {
                "Time for a long break!".to_owned()
            } else {
                "Time for a short break!".to_owned()
            }
        },
    }
}

/// See `expired_message_seq`.
pub fn expired_message(mode: SessionMode, small_session_count: u32) -> (t: String)
    ensures
        t@ == expired_message_seq(mode, small_session_count),
{
    match mode {
        SessionMode::Focus => "It's time to focus!".to_owned(),
        SessionMode::Break => {
            if small_session_count % 4 == 0 && small_session_count != 0 {
                "It's time for your long break!".to_owned()
            } else {
                "It's time for your short break!".to_owned()
            }
        },
    }
}

/// See `mode_label_seq`.
pub fn mode_label(mode: SessionMode, small_session_count: u32) -> (t: String)
    ensures
        t@ == mode_label_seq(mode, small_session_count),
{
    match mode {
        SessionMode::Focus => "Focus".to_owned(),
        SessionMode::Break => {
            if small_session_count % 4 == 0 && small_session_count != 0 {
                "Long break".to_owned()
            } else {
                "Short break".to_owned()
            }
        },
    }
}

/// See `start_button_label_seq`.
pub fn start_button_label(mode: SessionMode) -> (t: String)
    ensures
        t@ == start_button_label_seq(mode),
{
    match mode {
        SessionMode::Focus => "Start focus".to_owned(),
        SessionMode::Break => "Start break".to_owned(),
    }
}

} // verus!
