//! Pomodoro session engine: a focus/break state machine, a monotonic
//! countdown with pause/resume and an expiry protocol, and the event
//! coordination pieces (queues, tray-event translation) that connect the
//! native event sources to the timer. Everything here is pure computation;
//! the windowing, tray, and audio bindings live in the surrounding
//! application and consume the values produced here.

pub mod bus;
pub mod controller;
pub mod engine;
pub mod format;
pub mod laws;
pub mod messages;
pub mod session;
pub mod theme;
