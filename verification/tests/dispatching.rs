use http_core::dispatch::{DispatchPhase, ThreadedDispatcher};
use http_core::error::{ErrorScope, HttpError};

#[test]
fn dispatcher_phases_run_forward() {
    let mut d = ThreadedDispatcher::new();
    assert_eq!(d.phase(), DispatchPhase::Created);
    d.start();
    assert_eq!(d.phase(), DispatchPhase::Running);
    d.incoming_ended();
    assert_eq!(d.phase(), DispatchPhase::Draining);
    d.finish();
    assert_eq!(d.phase(), DispatchPhase::Stopped);
    assert_eq!(d.worker_count(), 0);
}

#[test]
fn each_connection_gets_its_own_worker() {
    let mut d = ThreadedDispatcher::new();
    d.start();
    let a = d.connection_accepted();
    let b = d.connection_accepted();
    let c = d.connection_accepted();
    assert_eq!(d.worker_count(), 3);
    assert_ne!(a, b);
    assert_ne!(a, c);
    assert_ne!(b, c);
    assert_eq!(d.worker_ids(), &vec![a, b, c]);
}

#[test]
fn accept_error_does_not_stop_the_loop() {
    let mut d = ThreadedDispatcher::new();
    d.start();
    d.connection_accepted();
    let e = d.accept_failed(104);
    assert_eq!(e, HttpError::AcceptError(104));
    assert_eq!(e.scope(), ErrorScope::Connection);
    // Still running, still tracking, and the next connection still spawns.
    assert_eq!(d.phase(), DispatchPhase::Running);
    assert_eq!(d.worker_count(), 1);
    d.connection_accepted();
    assert_eq!(d.worker_count(), 2);
}

#[test]
fn drain_joins_every_tracked_worker() {
    let mut d = ThreadedDispatcher::new();
    d.start();
    let a = d.connection_accepted();
    let b = d.connection_accepted();
    let c = d.connection_accepted();
    d.incoming_ended();
    assert!(d.worker_finished(b));
    assert_eq!(d.worker_ids(), &vec![a, c]);
    assert!(d.worker_finished(a));
    assert!(d.worker_finished(c));
    assert_eq!(d.worker_count(), 0);
    d.finish();
    assert_eq!(d.phase(), DispatchPhase::Stopped);
}

#[test]
fn joining_an_untracked_worker_changes_nothing() {
    let mut d = ThreadedDispatcher::new();
    d.start();
    let a = d.connection_accepted();
    d.incoming_ended();
    assert!(!d.worker_finished(a + 1));
    assert_eq!(d.worker_ids(), &vec![a]);
}
