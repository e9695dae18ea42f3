use std::sync::Mutex;
use tun_shim::tun::{Engine, Phase, TunController, TunError};

#[derive(Clone, Copy, PartialEq, Eq, Debug)]
enum Event {
    New(i32),
    Start(i32),
    Stop(i32),
    Dropped(i32),
}

static EVENTS: Mutex<Vec<Event>> = Mutex::new(Vec::new());

/// An engine that records every call it receives, and its own teardown, in a
/// shared event log. Used by exactly one test, so the log order is its own.
struct ProbeEngine {
    file_descriptor: i32,
}

impl Engine for ProbeEngine {
    fn new(file_descriptor: i32) -> Self {
        EVENTS.lock().unwrap().push(Event::New(file_descriptor));
        ProbeEngine { file_descriptor }
    }

    fn start(&mut self) {
        EVENTS.lock().unwrap().push(Event::Start(self.file_descriptor));
    }

    fn stop(&mut self) {
        EVENTS.lock().unwrap().push(Event::Stop(self.file_descriptor));
    }
}

impl Drop for ProbeEngine {
    fn drop(&mut self) {
        EVENTS.lock().unwrap().push(Event::Dropped(self.file_descriptor));
    }
}

/// An engine that does nothing, for tests that only watch controller state.
struct SilentEngine;

impl Engine for SilentEngine {
    fn new(_file_descriptor: i32) -> Self {
        SilentEngine
    }

    fn start(&mut self) {}

    fn stop(&mut self) {}
}

#[test]
fn restart_without_stop_leaves_only_last_session() {
    let mut controller = TunController::<ProbeEngine>::new();
    controller.start(1);
    controller.start(2);
    controller.start(3);
    assert_eq!(controller.live_file_descriptor(), Some(3));
    assert_eq!(controller.live_phase(), Some(Phase::Started));
    let events = EVENTS.lock().unwrap().clone();
    assert_eq!(
        events,
        vec![
            Event::New(1),
            Event::Start(1),
            Event::New(2),
            Event::Dropped(1),
            Event::Start(2),
            Event::New(3),
            Event::Dropped(2),
            Event::Start(3),
        ]
    );
}

#[test]
fn stop_succeeds_immediately_after_start() {
    let mut controller = TunController::<SilentEngine>::new();
    controller.start(7);
    controller.stop();
    assert_eq!(controller.live_file_descriptor(), Some(7));
    assert_eq!(controller.live_phase(), Some(Phase::Stopped));
}

#[test]
fn try_stop_succeeds_after_each_start() {
    let mut controller = TunController::<SilentEngine>::new();
    controller.start(0);
    assert_eq!(controller.try_stop(), Ok(()));
    controller.start(-1);
    assert_eq!(controller.try_stop(), Ok(()));
    assert_eq!(controller.live_file_descriptor(), Some(-1));
}

#[test]
fn stop_with_no_session_reports_no_active_session() {
    let mut controller = TunController::<SilentEngine>::new();
    assert_eq!(controller.try_stop(), Err(TunError::NoActiveSession));
    assert_eq!(controller.live_file_descriptor(), None);
    assert_eq!(controller.live_phase(), None);
}

#[test]
fn create_and_destroy_leave_session_state_untouched() {
    let mut controller = TunController::<SilentEngine>::new();
    controller.create();
    assert_eq!(controller.live_file_descriptor(), None);
    controller.start(5);
    controller.create();
    controller.destroy();
    assert_eq!(controller.live_file_descriptor(), Some(5));
    assert_eq!(controller.live_phase(), Some(Phase::Started));
}
