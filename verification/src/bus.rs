//! The event coordination layer. Native event sources (the tray icon, the
//! alert window's button) deliver events on their own threads; a bridge
//! per source translates each low-level event into a semantic command on a
//! queue that the UI thread drains on its own tick, so the UI thread never
//! blocks on a native source. The queues here are the UI-thread ends:
//! first-in, first-out, drained completely on every poll.

use vstd::prelude::*;

use crate::controller::start_spec;
use crate::session::SessionModel;

verus! {

/// Interval at which the UI thread drains its command queues, in
/// milliseconds.
pub const DRAIN_INTERVAL_MS: u64 = 200;

/// The mouse button of a tray click, as the native binding reports it.
#[derive(Clone, Copy, Debug, PartialEq, Eq, Structural)]
pub enum TrayMouseButton {
    Left,
    Right,
    Middle,
}

/// Whether the reported tray click was a press or a release.
#[derive(Clone, Copy, Debug, PartialEq, Eq, Structural)]
pub enum TrayMouseButtonState {
    Up,
    Down,
}

/// A tray-icon event, reduced to what the coordination layer reads of it.
#[derive(Clone, Copy, Debug, PartialEq, Eq, Structural)]
pub enum TrayEvent {
    Click { button: TrayMouseButton, button_state: TrayMouseButtonState },
    DoubleClick { button: TrayMouseButton },
    Enter,
    Move,
    Leave,
}

/// A command for the main window, published by the tray bridge.
#[derive(Clone, Copy, Debug, PartialEq, Eq, Structural)]
pub enum WindowCommand {
    Show,
}

/// A command for the timer, published by the alert window's button.
#[derive(Clone, Copy, Debug, PartialEq, Eq, Structural)]
pub enum TimerCommand {
    Start,
}

/// What the main window's visibility is, as the coordination layer tracks
/// it; the platform layer mirrors it onto the real window.
#[derive(Clone, Copy, Debug, PartialEq, Eq, Structural)]
pub struct WindowState {
    pub visible: bool,
}

/// The tray bridge's translation: releasing the left mouse button on the
/// tray icon asks for the hidden main window; every other event is
/// dropped.
pub open spec fn window_command_spec(event: TrayEvent) -> Option<WindowCommand> {
    match event {
        TrayEvent::Click {
            button: TrayMouseButton::Left,
            button_state: TrayMouseButtonState::Up,
        } => Some(WindowCommand::Show),
        _ => None,
    }
}

/// See `window_command_spec`.
pub fn window_command_for(event: TrayEvent) -> (r: Option<WindowCommand>)
    ensures
        r == window_command_spec(event),
{
    match event {
        TrayEvent::Click {
            button: TrayMouseButton::Left,
            button_state: TrayMouseButtonState::Up,
        } => Some(WindowCommand::Show),
        _ => None,
    }
}

/// A first-in, first-out queue of pending events: the UI-thread end of one
/// channel. Producers publish at the back; the drain loop consumes from
/// the front.
pub struct EventQueue<T> {
    events: Vec<T>,
}

impl<T> View for EventQueue<T> {
    type V = Seq<T>;

    closed spec fn view(&self) -> Seq<T> {
        self.events@
    }
}

impl<T> EventQueue<T> {
    /// An empty queue.
    pub fn new() -> (q: EventQueue<T>)
        ensures
            q@ == Seq::<T>::empty(),
    {
        EventQueue { events: Vec::new() }
    }

    /// Publishes an event at the back of the queue.
    pub fn publish(&mut self, event: T)
        ensures
            final(self)@ == old(self)@.push(event),
    {
        self.events.push(event);
    }

    /// Takes the oldest pending event, if any.
    pub fn try_recv(&mut self) -> (r: Option<T>)
        ensures
            old(self)@.len() == 0 ==> r is None && *final(self) == *old(self),
            old(self)@.len() > 0 ==> (r matches Some(e) && e == old(self)@[0]
                && final(self)@ == old(self)@.drop_first()),
    {
        if self.events.len() == 0 {
            None
        } else {
            Some(self.events.remove(0))
        }
    }

    /// How many events are pending.
    pub fn len(&self) -> (n: usize)
        ensures
            n == self@.len(),
    {
        self.events.len()
    }

    /// Whether nothing is pending.
    pub fn is_empty(&self) -> (b: bool)
        ensures
            b == (self@.len() == 0),
    {
        self.events.len() == 0
    }
}

/// The UI thread's drain of pending window commands. The queue empties,
/// and the window becomes visible exactly when it already was or a command
/// asked for it (the only command is `Show`).
pub fn handle_window_commands(win: &mut WindowState, queue: &mut EventQueue<WindowCommand>)
    ensures
        final(queue)@.len() == 0,
        final(win).visible == (old(win).visible || old(queue)@.len() > 0),
{
    let ghost q0 = queue@;
    let ghost v0 = win.visible;
    loop
        invariant
            queue@.len() <= q0.len(),
            win.visible == (v0 || q0.len() > queue@.len()),
        ensures
            queue@.len() == 0,
            win.visible == (v0 || q0.len() > 0),
        decreases queue@.len(),
    {
        match queue.try_recv() {
            Some(command) => {
                match command {
                    WindowCommand::Show => {
                        win.visible = true;
                    },
                }
            },
            None => {
                break;
            },
        }
    }
}

/// The UI thread's drain of pending timer commands at monotonic instant
/// `now_ms`. The queue empties; any pending `Start` command leaves the
/// model in a freshly started session (starting is idempotent at a fixed
/// instant, so several pending commands act as one).
pub fn handle_timer_commands(
    model: &mut SessionModel,
    queue: &mut EventQueue<TimerCommand>,
    now_ms: u64,
)
    requires
        old(model).wf(),
    ensures
        final(queue)@.len() == 0,
        old(queue)@.len() == 0 ==> *final(model) == *old(model),
        old(queue)@.len() > 0 ==> *final(model) == start_spec(*old(model), now_ms),
        final(model).wf(),
{
    let ghost q0 = queue@;
    let ghost m0 = *model;
    loop
        invariant
            model.wf(),
            queue@.len() <= q0.len(),
            q0.len() == queue@.len() ==> *model == m0,
            q0.len() > queue@.len() ==> *model == start_spec(m0, now_ms),
        ensures
            queue@.len() == 0,
            model.wf(),
            q0.len() == 0 ==> *model == m0,
            q0.len() > 0 ==> *model == start_spec(m0, now_ms),
        decreases queue@.len(),
    {
        match queue.try_recv() {
            Some(command) => {
                match command {
                    TimerCommand::Start => {
                        model.start_timer(now_ms);
                    },
                }
            },
            None => {
                break;
            },
        }
    }
}

} // verus!
