//! End-to-end scenarios of the session engine under a mocked monotonic
//! clock, and unit tests of the controller operations.

use aura_timer::session::{SessionMode, SessionModel};

#[test]
fn happy_path_focus_expiry() {
    let mut m = SessionModel::initial();
    m.start_timer(0);
    assert!(m.timer_running);
    let effects = m.tick(25 * 60 * 1000);
    assert_eq!(m.mode, SessionMode::Break);
    assert_eq!(m.small_session_count, 1);
    assert_eq!(m.full_session_count, 0);
    assert!(m.timer_expired);
    assert!(!m.timer_running);
    assert_eq!(m.remaining_ms, 0);
    let effects = effects.expect("the countdown reached zero");
    assert_eq!(effects.tray_title, "Break time!");
    assert_eq!(effects.alert.message, "Time for a short break!");
    assert_eq!(effects.alert.width, 600);
    assert_eq!(effects.alert.height, 64);
    assert_eq!(effects.alert.top_offset, 64);
    assert_eq!(effects.alarm.path, "assets/alarm.wav");
}

#[test]
fn long_break_promotion() {
    let mut m = SessionModel::initial();
    m.mode = SessionMode::Break;
    m.small_session_count = 4;
    m.remaining_ms = 20 * 60 * 1000;
    m.start_timer(0);
    let effects = m.tick(20 * 60 * 1000);
    assert_eq!(m.mode, SessionMode::Focus);
    assert_eq!(m.small_session_count, 4);
    assert_eq!(m.full_session_count, 1);
    let effects = effects.expect("the countdown reached zero");
    assert_eq!(effects.tray_title, "Focus time!");
    assert_eq!(effects.alert.message, "It's time to focus!");
}

#[test]
fn skip_then_revert() {
    let mut m = SessionModel::initial();
    m.start_timer(0);
    m.tick(30_000);
    assert_eq!(m.remaining_ms, 24 * 60 * 1000 + 30 * 1000); // 24:30 left
    let title = m.next_session();
    assert_eq!(m.mode, SessionMode::Break);
    assert_eq!(m.small_session_count, 1);
    assert!(m.skipped_session);
    assert_eq!(title, "Break: 05:00");
    let title = m.revert_session();
    assert_eq!(m.mode, SessionMode::Focus);
    assert_eq!(m.small_session_count, 0);
    assert_eq!(m.remaining_ms, 24 * 60 * 1000 + 30 * 1000);
    assert!(!m.skipped_session);
    assert_eq!(title.as_deref(), Some("Focus: 24:30"));
}

#[test]
fn pause_resume_without_drift() {
    let mut m = SessionModel::initial();
    m.start_timer(0);
    m.tick(10_000);
    assert_eq!(m.remaining_ms, 25 * 60 * 1000 - 10_000);
    m.toggle_timer(10_000); // pause
    assert!(!m.timer_running);
    assert_eq!(m.remaining_ms, 25 * 60 * 1000 - 10_000);
    m.toggle_timer(15_000); // resume 5 s later
    assert!(m.timer_running);
    m.tick(25_000); // 10 more seconds of running time
    assert_eq!(m.remaining_ms, 25 * 60 * 1000 - 20_000);
}

#[test]
fn clear_timer_restores_full_session() {
    let mut m = SessionModel::initial();
    m.start_timer(0);
    m.tick(60_000);
    m.clear_timer();
    assert!(!m.timer_running);
    assert!(!m.timer_expired);
    assert_eq!(m.remaining_ms, 25 * 60 * 1000);
    let once = m;
    m.clear_timer();
    assert_eq!(m, once); // clearing twice is clearing once
}

#[test]
fn revert_without_skip_is_noop() {
    let mut m = SessionModel::initial();
    m.start_timer(7_000);
    m.tick(9_000);
    let before = m;
    // the timer must not be running for wf of a skipped state, but revert
    // itself is rejected outright while nothing was skipped
    assert!(m.revert_session().is_none());
    assert_eq!(m, before);
}

#[test]
fn second_skip_overwrites_saved_time() {
    let mut m = SessionModel::initial();
    m.next_session(); // focus -> break, saves 25:00
    m.next_session(); // break -> focus, saves 05:00
    assert_eq!(m.mode, SessionMode::Focus);
    assert_eq!(m.small_session_count, 1);
    m.revert_session();
    assert_eq!(m.mode, SessionMode::Break);
    assert_eq!(m.small_session_count, 1);
    assert_eq!(m.remaining_ms, 5 * 60 * 1000);
    assert!(!m.skipped_session);
}

#[test]
fn skip_out_of_fourth_break_counts_full_session() {
    let mut m = SessionModel::initial();
    m.mode = SessionMode::Break;
    m.small_session_count = 4;
    m.remaining_ms = 20 * 60 * 1000;
    m.next_session();
    assert_eq!(m.mode, SessionMode::Focus);
    assert_eq!(m.small_session_count, 4);
    assert_eq!(m.full_session_count, 1);
}

#[test]
fn skip_out_of_focus_at_boundary_leaves_full_count() {
    // the long-break boundary pays out on a skip only when the skip ends
    // a break; ending a focus session only moves the focus counter
    let mut m = SessionModel::initial();
    m.small_session_count = 4;
    m.next_session();
    assert_eq!(m.mode, SessionMode::Break);
    assert_eq!(m.small_session_count, 5);
    assert_eq!(m.full_session_count, 0);
}

#[test]
fn toggle_on_expired_timer_is_noop() {
    let mut m = SessionModel::initial();
    m.start_timer(0);
    m.tick(25 * 60 * 1000);
    assert!(m.timer_expired);
    let before = m;
    m.toggle_timer(26 * 60 * 1000);
    assert_eq!(m, before);
}

#[test]
fn start_timer_clears_expiry_and_skip() {
    let mut m = SessionModel::initial();
    m.next_session();
    assert!(m.skipped_session);
    m.start_timer(1_000);
    assert!(!m.skipped_session);
    assert!(m.timer_running);
    assert!(!m.timer_expired);
    assert_eq!(m.remaining_ms, 5 * 60 * 1000);
}

#[test]
fn restart_or_revert_picks_by_skip_flag() {
    let mut m = SessionModel::initial();
    m.start_timer(0);
    m.tick(1_000);
    m.toggle_timer(1_000);
    // without a pending skip the control restarts the session
    assert!(m.restart_or_revert().is_none());
    assert_eq!(m.remaining_ms, 25 * 60 * 1000);
    // with a pending skip it reverts
    m.start_timer(2_000);
    m.tick(4_000);
    m.toggle_timer(4_000);
    let saved = m.remaining_ms;
    m.next_session();
    assert!(m.skipped_session);
    let title = m.restart_or_revert();
    assert!(title.is_some());
    assert_eq!(m.remaining_ms, saved);
    assert!(!m.skipped_session);
}

#[test]
fn start_twice_at_same_instant_is_one_start() {
    let mut m = SessionModel::initial();
    m.start_timer(500);
    let once = m;
    m.start_timer(500);
    assert_eq!(m, once);
}

#[test]
fn check_wf_accepts_reachable_states() {
    let mut m = SessionModel::initial();
    assert!(m.check_wf());
    m.start_timer(0);
    assert!(m.check_wf());
    m.tick(90_000);
    assert!(m.check_wf());
    m.next_session();
    assert!(m.check_wf());
    let mut bad = m;
    bad.timer_running = true;
    bad.timer_expired = true;
    assert!(!bad.check_wf());
    let mut over = SessionModel::initial();
    over.remaining_ms = 26 * 60 * 1000; // longer than any focus session
    assert!(!over.check_wf());
}

#[test]
fn formatted_time_follows_remaining() {
    let mut m = SessionModel::initial();
    assert_eq!(m.formatted_time(), "25:00");
    m.start_timer(0);
    m.tick(61_000);
    assert_eq!(m.formatted_time(), "23:59");
}
