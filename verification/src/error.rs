//! The closed error taxonomy of the engine.

use vstd::prelude::*;

verus! {

/// The phase of connection processing at which a timeout fired.
#[derive(Clone, Copy, Debug, PartialEq, Eq, Structural)]
pub enum Phase {
    /// Waiting for a new inbound connection.
    Accept,
    /// Waiting for request bytes to arrive.
    Read,
    /// Waiting for the external handler's result.
    Handler,
}

/// Everything that can go wrong while one connection is processed.
#[derive(Clone, Copy, Debug, PartialEq, Eq, Structural)]
pub enum Error {
    /// Malformed input: the bytes are not a well-formed request.
    ParseError,
    /// A fixed capacity was exceeded (header count, response size).
    Overflow,
    /// A socket operation failed.
    Transport,
    /// The external handler returned an error.
    HandlerFailure,
    /// The named phase did not finish within its time budget.
    Timeout(Phase),
}

} // verus!
