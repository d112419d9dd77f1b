//! The per-connection state machine. One connection is fully processed
//! before the next is accepted; every transition of the loop that drives a
//! socket is decided here, so that each terminal transition (to `Closed`,
//! with or without a response) is independently checkable.

use crate::error::{Error, Phase};
use crate::header::{header_items, header_views, HeaderView};
use crate::response::{spec_body_bytes, HttpResponse, ResponseBody};
use crate::scan::push_all;
use crate::status_code::StatusCode;
use vstd::prelude::*;

verus! {

/// The states of connection processing, in the order a successful
/// connection passes through them.
#[derive(Clone, Copy, Debug, PartialEq, Eq, Structural)]
pub enum ConnState {
    Idle,
    Accepting,
    Reading,
    Parsing,
    Handling,
    Responding,
    Closed,
}

/// The events the transport loop reports to the state machine.
#[derive(Clone, Copy, Debug, PartialEq, Eq, Structural)]
pub enum Event {
    /// Begin waiting for a connection (from `Idle`), or reset after `Closed`.
    Start,
    /// A connection was accepted.
    InboundConnection,
    /// Waiting for a connection timed out.
    AcceptTimedOut,
    /// Accepting failed with a transport error.
    AcceptFailed,
    /// The given number of request bytes arrived; zero means the peer
    /// closed the connection.
    BytesArrived(usize),
    /// Reading failed with a transport error.
    ReadFailed,
    /// Reading timed out.
    ReadTimedOut,
    /// The bytes read parsed to a request.
    RequestParsed,
    /// The bytes read were rejected by the parser.
    RequestRejected,
    /// The handler produced a response.
    HandlerSucceeded,
    /// The handler returned an error.
    HandlerFailed,
    /// The handler timed out.
    HandlerTimedOut,
    /// The response bytes were written and flushed.
    ResponseWritten,
    /// Writing or flushing the response failed.
    WriteFailed,
}

/// The transition table of the connection lifecycle.
///
/// Accept timeouts and errors return to `Idle` (no peer yet, nothing owed).
/// A peer close (zero bytes), read error or read timeout closes the
/// connection silently: no valid request was ever established. Every event
/// after a request was established leads through `Responding`, so a
/// best-effort response is always attempted. An event that cannot occur in a
/// state leaves the state unchanged.
pub open spec fn spec_step(s: ConnState, e: Event) -> ConnState {
    match (s, e) {
        (ConnState::Idle, Event::Start) => ConnState::Accepting,
        (ConnState::Accepting, Event::InboundConnection) => ConnState::Reading,
        (ConnState::Accepting, Event::AcceptTimedOut) => ConnState::Idle,
        (ConnState::Accepting, Event::AcceptFailed) => ConnState::Idle,
        (ConnState::Reading, Event::BytesArrived(n)) => if n == 0 {
            ConnState::Closed
        } else {
            ConnState::Parsing
        },
        (ConnState::Reading, Event::ReadFailed) => ConnState::Closed,
        (ConnState::Reading, Event::ReadTimedOut) => ConnState::Closed,
        (ConnState::Parsing, Event::RequestParsed) => ConnState::Handling,
        (ConnState::Parsing, Event::RequestRejected) => ConnState::Responding,
        (ConnState::Handling, Event::HandlerSucceeded) => ConnState::Responding,
        (ConnState::Handling, Event::HandlerFailed) => ConnState::Responding,
        (ConnState::Handling, Event::HandlerTimedOut) => ConnState::Responding,
        (ConnState::Responding, Event::ResponseWritten) => ConnState::Closed,
        (ConnState::Responding, Event::WriteFailed) => ConnState::Closed,
        (ConnState::Closed, Event::Start) => ConnState::Idle,
        (_, _) => s,
    }
}

/// Take one step of the connection lifecycle.
pub fn step(s: ConnState, e: Event) -> (r: ConnState)
    ensures
        r == spec_step(s, e),
{
    match (s, e) {
        (ConnState::Idle, Event::Start) => ConnState::Accepting,
        (ConnState::Accepting, Event::InboundConnection) => ConnState::Reading,
        (ConnState::Accepting, Event::AcceptTimedOut) => ConnState::Idle,
        (ConnState::Accepting, Event::AcceptFailed) => ConnState::Idle,
        (ConnState::Reading, Event::BytesArrived(n)) => if n == 0 {
            ConnState::Closed
        } else {
            ConnState::Parsing
        },
        (ConnState::Reading, Event::ReadFailed) => ConnState::Closed,
        (ConnState::Reading, Event::ReadTimedOut) => ConnState::Closed,
        (ConnState::Parsing, Event::RequestParsed) => ConnState::Handling,
        (ConnState::Parsing, Event::RequestRejected) => ConnState::Responding,
        (ConnState::Handling, Event::HandlerSucceeded) => ConnState::Responding,
        (ConnState::Handling, Event::HandlerFailed) => ConnState::Responding,
        (ConnState::Handling, Event::HandlerTimedOut) => ConnState::Responding,
        (ConnState::Responding, Event::ResponseWritten) => ConnState::Closed,
        (ConnState::Responding, Event::WriteFailed) => ConnState::Closed,
        (ConnState::Closed, Event::Start) => ConnState::Idle,
        (_, _) => s,
    }
}

/// Once a request is being established (the machine is in `Parsing` or
/// `Handling`), every transition that leaves the state goes to `Handling`
/// or to `Responding`: no failure after that point skips the response
/// attempt — a best-effort response is always owed once bytes arrived.
pub proof fn lemma_established_always_responds(s: ConnState, e: Event)
    requires
        s == ConnState::Parsing || s == ConnState::Handling,
        spec_step(s, e) != s,
    ensures
        spec_step(s, e) == ConnState::Handling || spec_step(s, e) == ConnState::Responding,
{
}

/// The error a failure event stands for, for the log: transport errors,
/// phase timeouts, and handler failures; `None` for the events that are
/// not failures.
pub fn error_for_event(e: Event) -> (r: Option<Error>)
    ensures
        r == match e {
            Event::AcceptFailed => Some(Error::Transport),
            Event::AcceptTimedOut => Some(Error::Timeout(Phase::Accept)),
            Event::ReadFailed => Some(Error::Transport),
            Event::ReadTimedOut => Some(Error::Timeout(Phase::Read)),
            Event::RequestRejected => Some(Error::ParseError),
            Event::HandlerFailed => Some(Error::HandlerFailure),
            Event::HandlerTimedOut => Some(Error::Timeout(Phase::Handler)),
            Event::WriteFailed => Some(Error::Transport),
            _ => None::<Error>,
        },
{
    match e {
        Event::AcceptFailed => Some(Error::Transport),
        Event::AcceptTimedOut => Some(Error::Timeout(Phase::Accept)),
        Event::ReadFailed => Some(Error::Transport),
        Event::ReadTimedOut => Some(Error::Timeout(Phase::Read)),
        Event::RequestRejected => Some(Error::ParseError),
        Event::HandlerFailed => Some(Error::HandlerFailure),
        Event::HandlerTimedOut => Some(Error::Timeout(Phase::Handler)),
        Event::WriteFailed => Some(Error::Transport),
        _ => None,
    }
}

/// The outcome of invoking the external handler under its time budget.
pub enum HandlerOutcome {
    /// The handler produced a response.
    Success(HttpResponse),
    /// The handler returned an error.
    Failure,
    /// The handler did not finish within the handler timeout.
    TimedOut,
}

/// The header name `"Content-Type"`.
pub open spec fn spec_content_type_name() -> Seq<u8> {
    seq![67u8, 111u8, 110u8, 116u8, 101u8, 110u8, 116u8, 45u8, 84u8, 121u8, 112u8, 101u8]
}

/// The media type `"text/plain"`.
pub open spec fn spec_text_plain() -> Seq<u8> {
    seq![116u8, 101u8, 120u8, 116u8, 47u8, 112u8, 108u8, 97u8, 105u8, 110u8]
}

/// The body text `"Internal Server Error"`.
pub open spec fn spec_internal_error_text() -> Seq<u8> {
    seq![73u8, 110u8, 116u8, 101u8, 114u8, 110u8, 97u8, 108u8, 32u8, 83u8, 101u8, 114u8, 118u8, 101u8, 114u8, 32u8, 69u8, 114u8, 114u8, 111u8, 114u8]
}

/// The body text `"Request Timeout"`.
pub open spec fn spec_request_timeout_text() -> Seq<u8> {
    seq![82u8, 101u8, 113u8, 117u8, 101u8, 115u8, 116u8, 32u8, 84u8, 105u8, 109u8, 101u8, 111u8, 117u8, 116u8]
}

/// The response owed for each handler outcome: the handler's own response
/// on success; a synthesized plain-text 500 on handler failure; and a
/// synthesized plain-text 400 on handler timeout. (A handler timeout is
/// answered with 400 Bad Request even though 408 or 504 would fit the
/// condition better; existing clients may depend on the 400, so it stays.)
pub fn response_for_handler_outcome(outcome: HandlerOutcome) -> (r: HttpResponse)
    ensures
        match outcome {
            HandlerOutcome::Success(resp) => r == resp,
            HandlerOutcome::Failure => {
                &&& r.status_code == StatusCode::InternalServerError
                &&& header_views(header_items(r.headers)) == seq![
                    HeaderView { name: spec_content_type_name(), value: spec_text_plain() },
                ]
                &&& spec_body_bytes(r.body) == spec_internal_error_text()
                &&& r.wf()
            },
            HandlerOutcome::TimedOut => {
                &&& r.status_code == StatusCode::BadRequest
                &&& header_views(header_items(r.headers)) == seq![
                    HeaderView { name: spec_content_type_name(), value: spec_text_plain() },
                ]
                &&& spec_body_bytes(r.body) == spec_request_timeout_text()
                &&& r.wf()
            },
        },
{
    match outcome {
        HandlerOutcome::Success(resp) => resp,
        HandlerOutcome::Failure => {
            let text: [u8; 21] = [73, 110, 116, 101, 114, 110, 97, 108, 32, 83, 101, 114, 118, 101, 114, 32, 69, 114, 114, 111, 114];  // "Internal Server Error"
            let mut body: Vec<u8> = Vec::new();
            push_all(&mut body, text.as_slice());
            proof {
                assert(body@ =~= spec_internal_error_text());
            }
            synth_text_response(StatusCode::InternalServerError, body)
        },
        HandlerOutcome::TimedOut => {
            let text: [u8; 15] = [82, 101, 113, 117, 101, 115, 116, 32, 84, 105, 109, 101, 111, 117, 116];  // "Request Timeout"
            let mut body: Vec<u8> = Vec::new();
            push_all(&mut body, text.as_slice());
            proof {
                assert(body@ =~= spec_request_timeout_text());
            }
            synth_text_response(StatusCode::BadRequest, body)
        },
    }
}

/// A synthesized plain-text response: the given status, one
/// `Content-Type: text/plain` header, and the given body text.
fn synth_text_response(status: StatusCode, body: Vec<u8>) -> (r: HttpResponse)
    ensures
        r.status_code == status,
        header_views(header_items(r.headers)) == seq![
            HeaderView { name: spec_content_type_name(), value: spec_text_plain() },
        ],
        spec_body_bytes(r.body) == body@,
        r.wf(),
{
    let ghost bodysnap = body@;
    let mut r = HttpResponse::new(status, ResponseBody::Text(body));
    let ctn: [u8; 12] = [67, 111, 110, 116, 101, 110, 116, 45, 84, 121, 112, 101];  // "Content-Type"
    let tpv: [u8; 10] = [116, 101, 120, 116, 47, 112, 108, 97, 105, 110];  // "text/plain"
    let mut name: Vec<u8> = Vec::new();
    push_all(&mut name, ctn.as_slice());
    let mut value: Vec<u8> = Vec::new();
    push_all(&mut value, tpv.as_slice());
    proof {
        assert(name@ =~= spec_content_type_name());
        assert(value@ =~= spec_text_plain());
    }
    let ghost namesnap = name@;
    let ghost valuesnap = value@;
    match r.add_header(name, value) {
        Ok(()) => {},
        Err(_) => {
            proof {
                assert(false);
            }
        },
    }
    proof {
        assert(header_views(header_items(r.headers)) =~= seq![
            HeaderView { name: namesnap, value: valuesnap },
        ]);
    }
    r
}

/// The fixed fallback: the literal wire form of
/// `500 Internal Server Error` with a plain-text body, used when the
/// normal serialization path cannot be trusted to produce a fitting
/// response. It is a static byte sequence and requires no computation.
pub open spec fn spec_fallback_bytes() -> Seq<u8> {
    seq![72u8, 84u8, 84u8, 80u8, 47u8, 49u8, 46u8, 49u8, 32u8, 53u8, 48u8, 48u8, 32u8, 73u8, 110u8, 116u8, 101u8, 114u8, 110u8, 97u8, 108u8, 32u8, 83u8, 101u8, 114u8, 118u8, 101u8, 114u8, 32u8, 69u8, 114u8, 114u8, 111u8, 114u8, 13u8, 10u8, 67u8, 111u8, 110u8, 116u8, 101u8, 110u8, 116u8, 45u8, 84u8, 121u8, 112u8, 101u8, 58u8, 32u8, 116u8, 101u8, 120u8, 116u8, 47u8, 112u8, 108u8, 97u8, 105u8, 110u8, 13u8, 10u8, 67u8, 111u8, 110u8, 116u8, 101u8, 110u8, 116u8, 45u8, 76u8, 101u8, 110u8, 103u8, 116u8, 104u8, 58u8, 32u8, 50u8, 49u8, 13u8, 10u8, 13u8, 10u8, 73u8, 110u8, 116u8, 101u8, 114u8, 110u8, 97u8, 108u8, 32u8, 83u8, 101u8, 114u8, 118u8, 101u8, 114u8, 32u8, 69u8, 114u8, 114u8, 111u8, 114u8]
}

/// The fallback response bytes; always exactly 105 bytes long.
pub fn fallback_response_bytes() -> (r: Vec<u8>)
    ensures
        r@ == spec_fallback_bytes(),
        r@.len() == 105,
{
    let lit: [u8; 105] = [72, 84, 84, 80, 47, 49, 46, 49, 32, 53, 48, 48, 32, 73, 110, 116, 101, 114, 110, 97, 108, 32, 83, 101, 114, 118, 101, 114, 32, 69, 114, 114, 111, 114, 13, 10, 67, 111, 110, 116, 101, 110, 116, 45, 84, 121, 112, 101, 58, 32, 116, 101, 120, 116, 47, 112, 108, 97, 105, 110, 13, 10, 67, 111, 110, 116, 101, 110, 116, 45, 76, 101, 110, 103, 116, 104, 58, 32, 50, 49, 13, 10, 13, 10, 73, 110, 116, 101, 114, 110, 97, 108, 32, 83, 101, 114, 118, 101, 114, 32, 69, 114, 114, 111, 114];
    let mut r: Vec<u8> = Vec::new();
    push_all(&mut r, lit.as_slice());
    proof {
        assert(r@ =~= spec_fallback_bytes());
    }
    r
}

/// Serialize a response under the server's size bound. When the wire form
/// fits it is returned whole; when it would not fit, the fixed fallback
/// literal is returned instead of a truncated message, since a truncated
/// HTTP message is a protocol violation the peer cannot recover from.
pub fn emit_response(resp: &HttpResponse, max_size: usize) -> (r: Vec<u8>)
    ensures
        resp.spec_bytes().len() <= max_size ==> r@ == resp.spec_bytes(),
        resp.spec_bytes().len() > max_size ==> r@ == spec_fallback_bytes(),
{
    match resp.build_bytes(max_size) {
        Ok(bytes) => bytes,
        Err(_) => fallback_response_bytes(),
    }
}

} // verus!
