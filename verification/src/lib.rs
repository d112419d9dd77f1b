//! A fixed-capacity HTTP/1.1 framing and connection-lifecycle engine for
//! memory-constrained environments: it turns a raw byte buffer received from a
//! transport socket into a structured request, maps the external handler's
//! outcome to a structured response, and serializes that response into a byte
//! buffer whose maximum size is fixed when the server is constructed.

pub mod error;
pub mod header;
pub mod lifecycle;
pub mod request;
pub mod response;
pub mod scan;
pub mod server;
pub mod status_code;

use vstd::prelude::*;

verus! {

/// Maximum number of headers a request or response may carry.
pub const MAX_HEADERS: usize = 16;

} // verus!
