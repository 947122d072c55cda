use vstd::prelude::*;
use crate::addr::Address;
use crate::backend::Backend;
use crate::connection::{ConnState, HttpConnection};
use crate::error::HttpError;

verus! {

/// What the operating system answered when asked to bind a socket.
#[derive(Clone, Copy, PartialEq, Eq, Structural, Debug)]
pub enum BindOutcome {
    /// The socket is bound; carries the local-address lookup made on it,
    /// `None` when that lookup failed.
    Bound(Option<Address>),
    /// The bind was refused (port in use, insufficient privilege); carries
    /// the OS error code.
    Refused(i32),
}

/// What one non-blocking accept attempt on the bound socket produced.
#[derive(Clone, Copy, PartialEq, Eq, Structural, Debug)]
pub enum AcceptOutcome {
    /// A stream was accepted and, on the encrypted transport, its handshake
    /// completed; carries the local and remote address lookups made on the
    /// new stream, `None` where a lookup failed.
    Connected(Option<Address>, Option<Address>),
    /// The encrypted transport accepted a stream but its handshake failed.
    HandshakeRefused,
    /// No connection was pending: the readiness signal was stale; not an
    /// error, just try again on the next notification.
    NothingPending,
    /// The accept call itself failed; carries the OS error code.
    Failed(i32),
}

/// What the OS reports of a fresh bind, held against the address that was
/// requested: when the local-address lookup succeeds, a requested non-zero
/// port is the port bound, and a requested port 0 came back as some concrete
/// assigned (hence non-zero) port.
pub open spec fn bound_port_agrees(requested: Address, outcome: BindOutcome) -> bool {
    outcome matches BindOutcome::Bound(local) ==> (local matches Some(a) ==> a.port != 0 && (
    requested.port != 0 ==> a.port == requested.port))
}

/// The bound listening endpoint. It holds the one transport chosen at
/// construction and the address the OS reported; a listener is either bound
/// or does not exist — there is no unbound state a caller could see.
pub struct HttpServer {
    backend: Backend,
    requested: Address,
    local: Option<Address>,
    token: Option<u64>,
}

impl HttpServer {
    /// The transport this listener was constructed with.
    pub closed spec fn spec_backend(self) -> Backend {
        self.backend
    }

    /// The address the caller asked to bind.
    pub closed spec fn spec_requested(self) -> Address {
        self.requested
    }

    /// The local-address lookup cached at bind time.
    pub closed spec fn spec_local(self) -> Option<Address> {
        self.local
    }

    /// The reactor token this listener is registered under, if any.
    pub closed spec fn spec_token(self) -> Option<u64> {
        self.token
    }

    /// A listener only ever exists bound, with a local address that agrees
    /// with the one requested.
    pub closed spec fn wf(self) -> bool {
        self.local matches Some(a) ==> a.port != 0 && (self.requested.port != 0 ==> a.port
            == self.requested.port)
    }

    /// Creates the listener from the transport's answer to a bind: a bound
    /// socket makes a listener that caches the reported local address; a
    /// refusal is surfaced as `BindError` with the OS code — never as
    /// `InvalidAddress`, which only a failed resolution produces.
    pub fn bind(backend: Backend, requested: Address, outcome: BindOutcome) -> (r: Result<
        HttpServer,
        HttpError,
    >)
        requires
            bound_port_agrees(requested, outcome),
        ensures
            outcome matches BindOutcome::Bound(local) ==> (r matches Ok(s) && s.wf()
                && s.spec_backend() == backend && s.spec_requested() == requested
                && s.spec_local() == local && s.spec_token() is None),
            outcome matches BindOutcome::Refused(code) ==> r == Err::<HttpServer, HttpError>(
                HttpError::BindError(code),
            ),
    {
        match outcome {
            BindOutcome::Bound(local) => Ok(
                HttpServer { backend, requested, local, token: None },
            ),
            BindOutcome::Refused(code) => Err(HttpError::BindError(code)),
        }
    }

    /// The bound address, as the OS reported it at bind time; a failed lookup
    /// surfaces as `AddrQueryError` and leaves the listener untouched.
    pub fn local_addr(&self) -> (r: Result<Address, HttpError>)
        ensures
            self.spec_local() matches Some(a) ==> r == Ok::<Address, HttpError>(a),
            self.spec_local() is None ==> r == Err::<Address, HttpError>(HttpError::AddrQueryError),
    {
        match self.local {
            Some(a) => Ok(a),
            None => Err(HttpError::AddrQueryError),
        }
    }

    /// The reactor token this listener is registered under, if any.
    pub fn token(&self) -> (t: Option<u64>)
        ensures
            t == self.spec_token(),
    {
        self.token
    }

    /// The transport this listener was constructed with.
    pub fn backend(&self) -> (b: Backend)
        ensures
            b == self.spec_backend(),
    {
        self.backend
    }

    /// The non-blocking accept decision: turns what one accept attempt on the
    /// socket produced into what the caller sees. A fresh stream becomes an
    /// open connection with its address lookups cached; "nothing was pending"
    /// is `None`, not an error; a failed attempt or failed handshake is an
    /// error isolated to that one attempt — the listener itself is untouched,
    /// whatever came back.
    pub fn accept(&self, outcome: AcceptOutcome) -> (r: Result<Option<HttpConnection>, HttpError>)
        requires
            outcome is HandshakeRefused ==> self.spec_backend() == Backend::Tls,
        ensures
            outcome matches AcceptOutcome::Connected(local, peer) ==> (r matches Ok(c)
                && c matches Some(c) && c.spec_local() == local && c.spec_peer() == peer
                && c.spec_state() == ConnState::Open),
            outcome is HandshakeRefused ==> r == Err::<Option<HttpConnection>, HttpError>(
                HttpError::HandshakeError,
            ),
            outcome is NothingPending ==> (r matches Ok(c) && c is None),
            outcome matches AcceptOutcome::Failed(code) ==> r == Err::<
                Option<HttpConnection>,
                HttpError,
            >(HttpError::AcceptError(code)),
    {
        match outcome {
            AcceptOutcome::Connected(local, peer) => Ok(Some(HttpConnection::open(local, peer))),
            AcceptOutcome::HandshakeRefused => Err(HttpError::HandshakeError),
            AcceptOutcome::NothingPending => Ok(None),
            AcceptOutcome::Failed(code) => Err(HttpError::AcceptError(code)),
        }
    }

    /// Records the token under which the host registered this listener with
    /// its readiness loop. The listener is registered once, before the loop
    /// starts; everything else about it stays as it was.
    pub fn register_self(&mut self, token: u64)
        requires
            old(self).spec_token() is None,
        ensures
            final(self).spec_token() == Some(token),
            final(self).spec_backend() == old(self).spec_backend(),
            final(self).spec_requested() == old(self).spec_requested(),
            final(self).spec_local() == old(self).spec_local(),
            old(self).wf() ==> final(self).wf(),
    {
        self.token = Some(token);
    }

    /// Law: on every well-formed listener whose local address is known, the
    /// bound port is the requested one when a concrete port was requested,
    /// and a concrete assigned port when port 0 was requested.
    pub proof fn lemma_bound_port(self)
        requires
            self.wf(),
            self.spec_local() is Some,
        ensures
            self.spec_requested().port != 0 ==> self.spec_local()->0.port
                == self.spec_requested().port,
            self.spec_local()->0.port != 0,
    {
    }
}

} // verus!
