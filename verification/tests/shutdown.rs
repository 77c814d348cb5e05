//! The shutdown coordinator: drain on signal, stop when the last task ends.

use replayd::shutdown::{Coordinator, Phase};

#[test]
fn starts_running_and_empty() {
    let c = Coordinator::new();
    assert_eq!(c.phase, Phase::Running);
    assert_eq!(c.active, 0);
}

#[test]
fn running_admits_connections() {
    let mut c = Coordinator::new();
    assert!(c.on_accept());
    assert!(c.on_accept());
    assert_eq!(c.active, 2);
    assert_eq!(c.phase, Phase::Running);
}

#[test]
fn task_finishing_while_running_keeps_running() {
    let mut c = Coordinator::new();
    assert!(c.on_accept());
    c.on_task_done();
    assert_eq!(c.phase, Phase::Running);
    assert_eq!(c.active, 0);
    assert!(!c.stopped());
}

#[test]
fn signal_with_nothing_in_flight_stops_at_once() {
    let mut c = Coordinator::new();
    c.on_signal();
    assert_eq!(c.phase, Phase::Stopped);
    assert!(c.stopped());
}

#[test]
fn signal_mid_flight_drains_then_stops() {
    // One handler is mid-flight when the termination signal arrives.
    let mut c = Coordinator::new();
    assert!(c.on_accept());
    c.on_signal();
    assert_eq!(c.phase, Phase::Draining);

    // No new connection is admitted after the signal...
    assert!(!c.on_accept());
    assert_eq!(c.active, 1);

    // ...the in-flight handler completes and delivers its response,
    // and only then does the coordinator stop.
    assert!(!c.stopped());
    c.on_task_done();
    assert_eq!(c.phase, Phase::Stopped);
    assert!(c.stopped());
}

#[test]
fn repeated_signals_change_nothing() {
    let mut c = Coordinator::new();
    assert!(c.on_accept());
    c.on_signal();
    c.on_signal();
    assert_eq!(c.phase, Phase::Draining);
    assert_eq!(c.active, 1);
    c.on_task_done();
    c.on_signal();
    assert_eq!(c.phase, Phase::Stopped);
}

#[test]
fn drain_finishes_every_admitted_task() {
    let mut c = Coordinator::new();
    for _ in 0..5 {
        assert!(c.on_accept());
    }
    c.on_signal();
    for k in 0..5usize {
        assert!(!c.stopped());
        assert!(!c.on_accept());
        assert_eq!(c.active, 5 - k);
        c.on_task_done();
    }
    assert!(c.stopped());
    assert_eq!(c.active, 0);
}
