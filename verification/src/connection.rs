use vstd::prelude::*;
use crate::addr::Address;
use crate::error::HttpError;

verus! {

/// Lifecycle of one accepted connection: created open, handed to exactly one
/// dispatch unit, and closed when that owner is done with it.
#[derive(Clone, Copy, PartialEq, Eq, Structural, Debug)]
pub enum ConnState {
    /// Accepted (and, on an encrypted transport, past its handshake).
    Open,
    /// Exclusively owned by one worker thread or one reactor callback.
    InUse,
    /// Terminal; the underlying stream is released.
    Closed,
}

/// One accepted byte stream with its address lookups cached at accept time.
/// A connection exists only as the result of a successful accept.
pub struct HttpConnection {
    local: Option<Address>,
    peer: Option<Address>,
    state: ConnState,
}

impl HttpConnection {
    /// The cached local-address lookup, `None` when the lookup failed.
    pub closed spec fn spec_local(self) -> Option<Address> {
        self.local
    }

    /// The cached remote-address lookup, `None` when the lookup failed.
    pub closed spec fn spec_peer(self) -> Option<Address> {
        self.peer
    }

    /// Where the connection stands in its lifecycle.
    pub closed spec fn spec_state(self) -> ConnState {
        self.state
    }

    /// Accept is the only maker of connections: a fresh one is open and keeps
    /// whatever the two address lookups answered.
    pub(crate) fn open(local: Option<Address>, peer: Option<Address>) -> (c: HttpConnection)
        ensures
            c.spec_local() == local,
            c.spec_peer() == peer,
            c.spec_state() == ConnState::Open,
    {
        HttpConnection { local, peer, state: ConnState::Open }
    }

    /// The address of the local end of the connection, as cached at accept
    /// time; a failed lookup surfaces as `AddrQueryError` and nothing more.
    pub fn local_addr(&self) -> (r: Result<Address, HttpError>)
        ensures
            self.spec_local() matches Some(a) ==> r == Ok::<Address, HttpError>(a),
            self.spec_local() is None ==> r == Err::<Address, HttpError>(HttpError::AddrQueryError),
    {
        match self.local {
            Some(a) => Ok(a),
            None => Err(HttpError::AddrQueryError),
        }
    }

    /// The address of the remote end of the connection, as cached at accept
    /// time; a failed lookup surfaces as `AddrQueryError` and nothing more.
    pub fn peer_addr(&self) -> (r: Result<Address, HttpError>)
        ensures
            self.spec_peer() matches Some(a) ==> r == Ok::<Address, HttpError>(a),
            self.spec_peer() is None ==> r == Err::<Address, HttpError>(HttpError::AddrQueryError),
    {
        match self.peer {
            Some(a) => Ok(a),
            None => Err(HttpError::AddrQueryError),
        }
    }

    /// Synonym for `peer_addr`, under the name the remote end usually goes by.
    pub fn remote_addr(&self) -> (r: Result<Address, HttpError>)
        ensures
            self.spec_peer() matches Some(a) ==> r == Ok::<Address, HttpError>(a),
            self.spec_peer() is None ==> r == Err::<Address, HttpError>(HttpError::AddrQueryError),
    {
        self.peer_addr()
    }

    /// Where the connection stands in its lifecycle.
    pub fn lifecycle(&self) -> (s: ConnState)
        ensures
            s == self.spec_state(),
    {
        self.state
    }

    /// Hands the connection to the one dispatch unit that will own it for the
    /// rest of its life; the cached addresses do not change.
    pub fn mark_in_use(&mut self)
        requires
            old(self).spec_state() == ConnState::Open,
        ensures
            final(self).spec_state() == ConnState::InUse,
            final(self).spec_local() == old(self).spec_local(),
            final(self).spec_peer() == old(self).spec_peer(),
    {
        self.state = ConnState::InUse;
    }

    /// Closes the connection; terminal, the cached addresses do not change.
    pub fn close(&mut self)
        ensures
            final(self).spec_state() == ConnState::Closed,
            final(self).spec_local() == old(self).spec_local(),
            final(self).spec_peer() == old(self).spec_peer(),
    {
        self.state = ConnState::Closed;
    }
}

} // verus!
