//! The coordination layer: queue order, tray-event translation, and the
//! two UI-thread drains, including the two cross-thread scenarios (a tray
//! click while the window hides, and the alert button starting the next
//! session).

use aura_timer::bus::{
    handle_timer_commands, handle_window_commands, window_command_for, EventQueue,
    TimerCommand, TrayEvent, TrayMouseButton, TrayMouseButtonState, WindowCommand,
    WindowState,
};
use aura_timer::session::{SessionMode, SessionModel};

#[test]
fn queue_is_first_in_first_out() {
    let mut q: EventQueue<u32> = EventQueue::new();
    assert!(q.is_empty());
    q.publish(1);
    q.publish(2);
    q.publish(3);
    assert_eq!(q.len(), 3);
    assert_eq!(q.try_recv(), Some(1));
    assert_eq!(q.try_recv(), Some(2));
    assert_eq!(q.try_recv(), Some(3));
    assert_eq!(q.try_recv(), None);
    assert!(q.is_empty());
}

#[test]
fn tray_translation_accepts_only_left_release() {
    let left_up = TrayEvent::Click {
        button: TrayMouseButton::Left,
        button_state: TrayMouseButtonState::Up,
    };
    assert_eq!(window_command_for(left_up), Some(WindowCommand::Show));
    let left_down = TrayEvent::Click {
        button: TrayMouseButton::Left,
        button_state: TrayMouseButtonState::Down,
    };
    assert_eq!(window_command_for(left_down), None);
    let right_up = TrayEvent::Click {
        button: TrayMouseButton::Right,
        button_state: TrayMouseButtonState::Up,
    };
    assert_eq!(window_command_for(right_up), None);
    assert_eq!(
        window_command_for(TrayEvent::DoubleClick { button: TrayMouseButton::Left }),
        None
    );
    assert_eq!(window_command_for(TrayEvent::Enter), None);
    assert_eq!(window_command_for(TrayEvent::Move), None);
    assert_eq!(window_command_for(TrayEvent::Leave), None);
}

#[test]
fn tray_click_shows_hidden_window() {
    // the tray bridge: native events in, window commands out
    let mut tray_events: EventQueue<TrayEvent> = EventQueue::new();
    tray_events.publish(TrayEvent::Move);
    tray_events.publish(TrayEvent::Click {
        button: TrayMouseButton::Left,
        button_state: TrayMouseButtonState::Up,
    });
    let mut window_commands: EventQueue<WindowCommand> = EventQueue::new();
    while let Some(event) = tray_events.try_recv() {
        if let Some(command) = window_command_for(event) {
            window_commands.publish(command);
        }
    }
    // the UI thread's next drain makes the hidden window visible
    let mut window = WindowState { visible: false };
    handle_window_commands(&mut window, &mut window_commands);
    assert!(window.visible);
    assert!(window_commands.is_empty());
}

#[test]
fn window_drain_without_commands_keeps_state() {
    let mut window = WindowState { visible: false };
    let mut window_commands: EventQueue<WindowCommand> = EventQueue::new();
    handle_window_commands(&mut window, &mut window_commands);
    assert!(!window.visible);
    let mut shown = WindowState { visible: true };
    handle_window_commands(&mut shown, &mut window_commands);
    assert!(shown.visible);
}

#[test]
fn alert_button_starts_next_session() {
    let mut m = SessionModel::initial();
    m.start_timer(0);
    let effects = m.tick(25 * 60 * 1000);
    assert!(effects.is_some());
    assert!(m.timer_expired);
    // the alert window's button publishes a start command; the UI thread
    // observes it on its next drain and starts the break
    let mut timer_commands: EventQueue<TimerCommand> = EventQueue::new();
    timer_commands.publish(TimerCommand::Start);
    handle_timer_commands(&mut m, &mut timer_commands, 25 * 60 * 1000 + 200);
    assert!(m.timer_running);
    assert!(!m.timer_expired);
    assert_eq!(m.mode, SessionMode::Break);
    assert_eq!(m.remaining_ms, 5 * 60 * 1000);
    assert!(timer_commands.is_empty());
}

#[test]
fn timer_drain_without_commands_keeps_state() {
    let mut m = SessionModel::initial();
    let before = m;
    let mut timer_commands: EventQueue<TimerCommand> = EventQueue::new();
    handle_timer_commands(&mut m, &mut timer_commands, 1_000);
    assert_eq!(m, before);
}

#[test]
fn repeated_start_commands_act_as_one() {
    let mut m = SessionModel::initial();
    let mut timer_commands: EventQueue<TimerCommand> = EventQueue::new();
    timer_commands.publish(TimerCommand::Start);
    timer_commands.publish(TimerCommand::Start);
    timer_commands.publish(TimerCommand::Start);
    handle_timer_commands(&mut m, &mut timer_commands, 42);
    let mut once = SessionModel::initial();
    once.start_timer(42);
    assert_eq!(m, once);
}
