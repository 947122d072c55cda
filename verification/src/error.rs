use vstd::prelude::*;

verus! {

/// The error kinds the server core can report.
#[derive(Clone, Copy, PartialEq, Eq, Structural, Debug)]
pub enum HttpError {
    /// The given address could not be resolved to any concrete socket address.
    InvalidAddress,
    /// The operating system refused the bind; carries the OS error code.
    BindError(i32),
    /// One accept attempt failed; carries the OS error code.
    AcceptError(i32),
    /// The encrypted transport's handshake failed on one accepted stream.
    HandshakeError,
    /// A local or remote address lookup failed on an otherwise valid handle.
    AddrQueryError,
}

/// How far an error reaches: the propagation policy of the core.
#[derive(Clone, Copy, PartialEq, Eq, Structural, Debug)]
pub enum ErrorScope {
    /// Fatal to startup: surfaced to the entry point; the server never starts.
    Startup,
    /// Isolated to one connection attempt; reported, the listener and the
    /// event loop keep going.
    Connection,
    /// A failed address lookup; surfaced to the caller as such, nothing stops.
    Query,
}

/// The scope each error kind propagates to.
pub open spec fn spec_scope(e: HttpError) -> ErrorScope {
    match e {
        HttpError::InvalidAddress => ErrorScope::Startup,
        HttpError::BindError(_) => ErrorScope::Startup,
        HttpError::AcceptError(_) => ErrorScope::Connection,
        HttpError::HandshakeError => ErrorScope::Connection,
        HttpError::AddrQueryError => ErrorScope::Query,
    }
}

impl HttpError {
    /// Classifies this error under the propagation policy: construction-time
    /// errors abort startup, per-connection errors are isolated to their one
    /// attempt, and address-lookup failures are surfaced and nothing more.
    pub fn scope(&self) -> (s: ErrorScope)
        ensures
            s == spec_scope(*self),
    {
        match self {
            HttpError::InvalidAddress => ErrorScope::Startup,
            HttpError::BindError(_) => ErrorScope::Startup,
            HttpError::AcceptError(_) => ErrorScope::Connection,
            HttpError::HandshakeError => ErrorScope::Connection,
            HttpError::AddrQueryError => ErrorScope::Query,
        }
    }
}

} // verus!
