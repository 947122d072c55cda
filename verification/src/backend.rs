use vstd::prelude::*;
use crate::addr::Address;
use crate::error::HttpError;
use crate::listener::{bound_port_agrees, BindOutcome, HttpServer};

verus! {

/// The pluggable transport strategy: how a listening endpoint is bound and
/// what kind of stream an accepted connection yields. Exactly one variant is
/// chosen per listener at construction and never changes afterwards.
#[derive(Clone, Copy, PartialEq, Eq, Structural, Debug)]
pub enum Backend {
    /// Plaintext TCP streams.
    PlainTcp,
    /// Encrypted streams: a handshake precedes every open connection, and a
    /// failed handshake is its own error kind, distinct from a failed bind.
    Tls,
}

impl Backend {
    /// Binds a listening endpoint with this transport, given what the
    /// operating system answered; the listener's `bind` delegates here.
    pub fn bind(self, requested: Address, outcome: BindOutcome) -> (r: Result<
        HttpServer,
        HttpError,
    >)
        requires
            bound_port_agrees(requested, outcome),
        ensures
            outcome matches BindOutcome::Bound(local) ==> (r matches Ok(s) && s.wf()
                && s.spec_backend() == self && s.spec_requested() == requested
                && s.spec_local() == local && s.spec_token() is None),
            outcome matches BindOutcome::Refused(code) ==> r == Err::<HttpServer, HttpError>(
                HttpError::BindError(code),
            ),
    {
        HttpServer::bind(self, requested, outcome)
    }
}

} // verus!
