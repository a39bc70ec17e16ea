//! Rendering of times and tray titles as strings: the `mm:ss` countdown
//! display and the `"Focus: MM:SS"` / `"Break: MM:SS"` tray title.

use vstd::prelude::*;

use crate::session::SessionMode;

verus! {

/// The decimal digit character for `d` (meaningful for `0 <= d <= 9`).
pub open spec fn digit_char(d: int) -> char {
    if d == 0 {
        '0'
    } else if d == 1 {
        '1'
    } else if d == 2 {
        '2'
    } else if d == 3 {
        '3'
    } else if d == 4 {
        '4'
    } else if d == 5 {
        '5'
    } else if d == 6 {
        '6'
    } else if d == 7 {
        '7'
    } else if d == 8 {
        '8'
    } else {
        '9'
    }
}

/// `n` rendered as exactly two decimal digits (meaningful for
/// `0 <= n < 100`).
pub open spec fn two_digits_seq(n: int) -> Seq<char> {
    seq![digit_char(n / 10), digit_char(n % 10)]
}

/// `ms` milliseconds rendered as `mm:ss`: whole minutes, a colon, and the
/// seconds within the current minute, both zero-padded to two digits.
pub open spec fn mmss_seq(ms: int) -> Seq<char> {
    two_digits_seq(ms / 1000 / 60) + seq![':'] + two_digits_seq(ms / 1000 % 60)
}

/// The tray-title prefix naming the kind of session.
pub open spec fn mode_prefix_seq(mode: SessionMode) -> Seq<char> {
    match mode {
        SessionMode::Focus => "Focus: "@,
        SessionMode::Break => "Break: "@,
    }
}

/// The tray title shown while the timer is running or idle.
pub open spec fn tray_title_seq(mode: SessionMode, ms: int) -> Seq<char> {
    mode_prefix_seq(mode) + mmss_seq(ms)
}

/// One decimal digit as a string slice.
fn digit_str(d: u32) -> (r: &'static str)
    requires
        d < 10,
    ensures
        r@ == seq![digit_char(d as int)],
{
    let r: &'static str = match d {
        0 => "0",
        1 => "1",
        2 => "2",
        3 => "3",
        4 => "4",
        5 => "5",
        6 => "6",
        7 => "7",
        8 => "8",
        _ => "9",
    };
    proof {
        reveal_strlit("0");
        reveal_strlit("1");
        reveal_strlit("2");
        reveal_strlit("3");
        reveal_strlit("4");
        reveal_strlit("5");
        reveal_strlit("6");
        reveal_strlit("7");
        reveal_strlit("8");
        reveal_strlit("9");
        assert(r@ =~= seq![digit_char(d as int)]);
    }
    r
}

/// Renders `ms` milliseconds as the `mm:ss` countdown string. The bound
/// keeps the minute count at two digits; every session length is far
/// below it.
pub fn format_mm_ss(ms: u32) -> (r: String)
    requires
        ms / 1000 / 60 < 100,
    ensures
        r@ == mmss_seq(ms as int),
{
    let minutes: u32 = ms / 1000 / 60;
    let seconds: u32 = ms / 1000 % 60;
    let mut r = String::from_str(digit_str(minutes / 10));
    r.append(digit_str(minutes % 10));
    r.append(":");
    r.append(digit_str(seconds / 10));
    r.append(digit_str(seconds % 10));
    proof {
        reveal_strlit(":");
        assert(r@ =~= mmss_seq(ms as int));
    }
    r
}

/// The tray title while running or idle: the mode name, a colon, and the
/// `mm:ss` remaining time.
pub fn tray_title(mode: SessionMode, ms: u32) -> (t: String)
    requires
        ms / 1000 / 60 < 100,
    ensures
        t@ == tray_title_seq(mode, ms as int),
{
    let mut t = match mode {
        SessionMode::Focus => String::from_str("Focus: "),
        SessionMode::Break => String::from_str("Break: "),
    };
    let rest = format_mm_ss(ms);
    t.append(rest.as_str());
    t
}

/// The tooltip the tray icon is created with.
pub fn tray_tooltip() -> (t: String)
    ensures
        t@ == "AuraTimer: Time Remaining"@,
{
    "AuraTimer: Time Remaining".to_owned()
}

/// The title the tray icon is created with: the initial focus session at
/// its full length.
pub fn initial_tray_title() -> (t: String)
    ensures
        t@ == tray_title_seq(
            SessionMode::Focus,
            crate::session::FOCUS_DURATION_MS as int,
        ),
{
    tray_title(SessionMode::Focus, crate::session::FOCUS_DURATION_MS)
}

/// How many completed-session dots fit the window (`visible`) and how many
/// spill into the `+N` overflow badge (`hidden`).
pub fn session_dots(small_session_count: u32, max_icons: u32) -> (r: (u32, u32))
    ensures
        r.0 == if small_session_count <= max_icons {
            small_session_count
        } else {
            max_icons
        },
        r.1 == small_session_count - r.0,
{
    let visible = if small_session_count <= max_icons {
        small_session_count
    } else {
        max_icons
    };
    (visible, small_session_count - visible)
}

} // verus!
