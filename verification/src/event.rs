use vstd::prelude::*;

verus! {

/// The closed set of readiness conditions the reactor dispatch model reacts
/// to. Produced transiently by the reactor adapter, never persisted.
#[derive(Clone, Copy, PartialEq, Eq, Structural, Debug)]
pub enum Event {
    /// A request can be taken from the listening socket.
    Request,
    /// There is input to read on the process's standard input.
    Stdin,
    /// The process's standard output is ready for writing.
    Stdout,
}

/// Opaque placeholder for a request value. The protocol collaborator owns its
/// contents; the core only threads it between a connection and a handler.
pub struct Request;

/// Opaque placeholder for a response value handed back by a request handler.
pub struct Response;

} // verus!
