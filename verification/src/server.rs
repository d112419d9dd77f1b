//! Server configuration: the per-phase timeout triple and the server value
//! itself, whose buffer capacities are fixed by const generics at
//! construction time. The accept/read/write loop that drives a server lives
//! outside the library; the decisions it takes per connection are the
//! verified functions of the `lifecycle`, `request` and `response` modules.

use crate::error::Phase;
use vstd::prelude::*;

verus! {

/// HTTP server timeout configuration: three independent phase budgets,
/// immutable after server construction.
#[derive(Debug, Clone, Copy, PartialEq, Eq, Structural)]
pub struct ServerTimeouts {
    /// Socket accept timeout in seconds.
    pub accept_timeout: u64,
    /// Socket read timeout in seconds.
    pub read_timeout: u64,
    /// Request handler timeout in seconds.
    pub handler_timeout: u64,
}

impl Default for ServerTimeouts {
    /// The conservative defaults: 10 s accept, 30 s read, 60 s handler.
    fn default() -> (r: Self)
        ensures
            r.accept_timeout == 10,
            r.read_timeout == 30,
            r.handler_timeout == 60,
    {
        Self { accept_timeout: 10, read_timeout: 30, handler_timeout: 60 }
    }
}

impl ServerTimeouts {
    /// Create new server timeouts with custom values.
    #[must_use]
    pub fn new(accept_timeout: u64, read_timeout: u64, handler_timeout: u64) -> (r: Self)
        ensures
            r.accept_timeout == accept_timeout,
            r.read_timeout == read_timeout,
            r.handler_timeout == handler_timeout,
    {
        Self { accept_timeout, read_timeout, handler_timeout }
    }
}

impl ServerTimeouts {
    /// The time budget of a phase, in seconds.
    pub fn for_phase(&self, phase: Phase) -> (r: u64)
        ensures
            r == match phase {
                Phase::Accept => self.accept_timeout,
                Phase::Read => self.read_timeout,
                Phase::Handler => self.handler_timeout,
            },
    {
        match phase {
            Phase::Accept => self.accept_timeout,
            Phase::Read => self.read_timeout,
            Phase::Handler => self.handler_timeout,
        }
    }
}

/// Simple HTTP server configuration. `RX_SIZE`, `TX_SIZE` and `REQ_SIZE` are
/// the socket receive, socket transmit and request read buffer capacities;
/// `MAX_RESPONSE_SIZE` bounds a serialized response.
///
/// The server only speaks plain HTTP; TLS is out of scope.
pub struct HttpServer<
    const RX_SIZE: usize,
    const TX_SIZE: usize,
    const REQ_SIZE: usize,
    const MAX_RESPONSE_SIZE: usize,
> {
    pub port: u16,
    pub timeouts: ServerTimeouts,
}

impl<
    const RX_SIZE: usize,
    const TX_SIZE: usize,
    const REQ_SIZE: usize,
    const MAX_RESPONSE_SIZE: usize,
> HttpServer<RX_SIZE, TX_SIZE, REQ_SIZE, MAX_RESPONSE_SIZE> {
    /// Create a new HTTP server with default timeouts.
    #[must_use]
    pub fn new(port: u16) -> (r: Self)
        ensures
            r.port == port,
            r.timeouts.accept_timeout == 10,
            r.timeouts.read_timeout == 30,
            r.timeouts.handler_timeout == 60,
    {
        Self { port, timeouts: ServerTimeouts::default() }
    }

    /// Create a new HTTP server with custom timeouts.
    #[must_use]
    pub fn with_timeouts(port: u16, timeouts: ServerTimeouts) -> (r: Self)
        ensures
            r.port == port,
            r.timeouts == timeouts,
    {
        Self { port, timeouts }
    }

    /// The response size bound this server instance was constructed with.
    pub fn max_response_size(&self) -> (r: usize)
        ensures
            r == MAX_RESPONSE_SIZE,
    {
        MAX_RESPONSE_SIZE
    }
}

/// `HttpServer` with 4 KiB buffers all around.
pub type DefaultHttpServer = HttpServer<4096, 4096, 4096, 4096>;

/// `HttpServer` with 1 KiB buffers for memory-constrained environments.
pub type SmallHttpServer = HttpServer<1024, 1024, 1024, 1024>;

} // verus!
