//! Core of a small network server: a listening endpoint over a pluggable
//! transport, a readiness-driven reactor adapter, and two dispatch policies
//! (thread per connection, or single-threaded callbacks).
//!
//! Everything that decides is here and verified; the host program performs the
//! socket, thread and logging side effects and feeds their outcomes back in as
//! plain values.

pub mod addr;
pub mod error;
pub mod event;
pub mod connection;
pub mod backend;
pub mod listener;
pub mod registry;
pub mod server;
pub mod dispatch;
pub mod logging;
