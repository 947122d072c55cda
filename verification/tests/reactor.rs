use http_core::addr::{Address, IpAddress};
use http_core::backend::Backend;
use http_core::error::HttpError;
use http_core::event::Event;
use http_core::listener::{AcceptOutcome, BindOutcome};
use http_core::server::Server;

fn loopback(port: u16) -> Address {
    Address::new(IpAddress::V4(127, 0, 0, 1), port)
}

fn bound_server(port: u16) -> Server<u32> {
    let a = loopback(port);
    Server::bind(Backend::PlainTcp, a, BindOutcome::Bound(Some(a))).unwrap()
}

#[test]
fn fresh_server_has_no_handlers_and_is_idle() {
    let s = bound_server(8080);
    assert!(!s.running());
    assert_eq!(*s.handler(Event::Request), None);
    assert_eq!(*s.handler(Event::Stdin), None);
    assert_eq!(*s.handler(Event::Stdout), None);
}

#[test]
fn server_bind_refused_surfaces_bind_error() {
    let r: Result<Server<u32>, HttpError> =
        Server::bind(Backend::PlainTcp, loopback(80), BindOutcome::Refused(13));
    assert_eq!(r.err(), Some(HttpError::BindError(13)));
}

#[test]
fn registration_is_last_write_wins() {
    let mut s = bound_server(8080);
    s.on_request(1);
    s.on_request(2);
    assert_eq!(*s.handler(Event::Request), Some(2));
}

#[test]
fn event_kinds_keep_separate_handlers() {
    let mut s = bound_server(8080);
    s.on_request(1);
    s.on_stdin(2);
    s.on_stdout(3);
    assert_eq!(*s.handler(Event::Request), Some(1));
    assert_eq!(*s.handler(Event::Stdin), Some(2));
    assert_eq!(*s.handler(Event::Stdout), Some(3));
}

#[test]
fn tokens_map_to_their_event_kinds() {
    let mut s = bound_server(8080);
    s.register_self(0);
    s.register_stdin(1);
    s.register_stdout(2);
    assert_eq!(s.classify_token(0), Some(Event::Request));
    assert_eq!(s.classify_token(1), Some(Event::Stdin));
    assert_eq!(s.classify_token(2), Some(Event::Stdout));
    // An unregistered token is a construction bug the host must treat as fatal.
    assert_eq!(s.classify_token(3), None);
}

#[test]
fn reactor_notification_then_stale_readiness() {
    // Only the listener's token is registered. A client connects: the one
    // readiness notification leads to one accept, which yields the
    // connection; the accept right after finds nothing pending and answers
    // None, not an error.
    let bound = loopback(49200);
    let client = loopback(50002);
    let mut s = bound_server(0);
    s.register_self(7);
    s.begin_loop();
    assert_eq!(s.classify_token(7), Some(Event::Request));
    let first = s.accept(AcceptOutcome::Connected(Some(bound), Some(client)));
    let conn = first.unwrap().expect("one pending connection");
    assert_eq!(conn.remote_addr(), Ok(client));
    let second = s.accept(AcceptOutcome::NothingPending);
    assert!(matches!(second, Ok(None)));
    assert!(s.finish_pass());
}

#[test]
fn shutdown_from_handler_ends_loop_after_pass() {
    let mut s = bound_server(8080);
    s.on_request(1);
    s.register_self(0);
    s.begin_loop();
    assert!(s.running());
    // Inside the request handler, this pass:
    s.shutdown();
    // The loop still finishes the current pass, then stops.
    assert!(s.running());
    assert!(!s.finish_pass());
    assert!(!s.running());
}

#[test]
fn quiet_pass_keeps_the_loop_running() {
    let mut s = bound_server(8080);
    s.register_self(0);
    s.begin_loop();
    assert!(s.finish_pass());
    assert!(s.running());
}

#[test]
fn restart_reuses_last_registered_handler() {
    let mut s = bound_server(8080);
    s.on_request(1);
    s.on_request(2);
    s.register_self(0);
    s.begin_loop();
    s.shutdown();
    assert!(!s.finish_pass());
    // The loop is down; start it again. The handler the new run consults is
    // the last one registered, never the overwritten one.
    s.begin_loop();
    assert_eq!(*s.handler(Event::Request), Some(2));
    s.shutdown();
    assert!(!s.finish_pass());
    // Re-registration between runs still wins over both.
    s.on_request(5);
    s.begin_loop();
    assert_eq!(*s.handler(Event::Request), Some(5));
}

#[test]
fn server_local_addr_comes_from_listener() {
    let a = loopback(8081);
    let s: Server<u32> = Server::bind(Backend::PlainTcp, a, BindOutcome::Bound(Some(a))).unwrap();
    assert_eq!(s.local_addr(), Ok(a));
}
