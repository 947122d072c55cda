//! Scenarios against real loopback sockets: mio performs the binds, connects
//! and accepts, and their outcomes are fed to the library exactly as a host
//! program would feed them.

use std::io::ErrorKind;

use http_core::addr::{Address, IpAddress};
use http_core::backend::Backend;
use http_core::error::HttpError;
use http_core::listener::{AcceptOutcome, BindOutcome, HttpServer};

fn loopback(port: u16) -> Address {
    Address::new(IpAddress::V4(127, 0, 0, 1), port)
}

fn bind_loopback() -> mio::net::TcpListener {
    mio::net::TcpListener::bind("127.0.0.1:0".parse().unwrap()).unwrap()
}

#[test]
fn os_bind_assigns_a_concrete_port() {
    let listener = bind_loopback();
    let port = listener.local_addr().unwrap().port();
    let s = HttpServer::bind(
        Backend::PlainTcp,
        loopback(0),
        BindOutcome::Bound(Some(loopback(port))),
    )
    .unwrap();
    let got = s.local_addr().unwrap();
    assert_eq!(got.port, port);
    assert_ne!(got.port, 0);
}

#[test]
fn os_second_bind_to_live_address_is_bind_error() {
    let first = bind_loopback();
    let addr = first.local_addr().unwrap();
    let outcome = match mio::net::TcpListener::bind(addr) {
        Ok(_) => panic!("second bind to a live address should be refused"),
        Err(err) => BindOutcome::Refused(err.raw_os_error().unwrap_or(-1)),
    };
    let r = HttpServer::bind(Backend::PlainTcp, loopback(addr.port()), outcome);
    match r.err() {
        Some(HttpError::BindError(_)) => {}
        other => panic!("expected a bind error, got {:?}", other),
    }
}

#[test]
fn os_accept_with_no_client_is_none() {
    let listener = bind_loopback();
    let port = listener.local_addr().unwrap().port();
    let s = HttpServer::bind(
        Backend::PlainTcp,
        loopback(port),
        BindOutcome::Bound(Some(loopback(port))),
    )
    .unwrap();
    let outcome = match listener.accept() {
        Err(err) if err.kind() == ErrorKind::WouldBlock => AcceptOutcome::NothingPending,
        Ok(_) => panic!("no client ever connected"),
        Err(err) => AcceptOutcome::Failed(err.raw_os_error().unwrap_or(-1)),
    };
    let r = s.accept(outcome);
    assert!(matches!(r, Ok(None)));
}
