use microhttp::error::{Error, Phase};
use microhttp::lifecycle::{
    emit_response, error_for_event, fallback_response_bytes, response_for_handler_outcome, step,
    ConnState, Event, HandlerOutcome,
};
use microhttp::response::{HttpResponse, ResponseBody};
use microhttp::status_code::StatusCode;

const FALLBACK: &[u8] = b"HTTP/1.1 500 Internal Server Error\r\nContent-Type: text/plain\r\nContent-Length: 21\r\n\r\nInternal Server Error";

#[test]
fn handler_timeout_yields_400_request_timeout() {
    // Scenario: a handler that exceeds the handler timeout.
    let resp = response_for_handler_outcome(HandlerOutcome::TimedOut);
    assert_eq!(resp.status_code, StatusCode::BadRequest);
    let bytes = resp.build_bytes(1024).unwrap();
    assert_eq!(
        bytes,
        b"HTTP/1.1 400 Bad Request\r\nContent-Type: text/plain\r\nContent-Length: 15\r\n\r\nRequest Timeout"
            .to_vec()
    );
}

#[test]
fn handler_failure_yields_500_internal_server_error() {
    // Scenario: a handler that returns an error.
    let resp = response_for_handler_outcome(HandlerOutcome::Failure);
    assert_eq!(resp.status_code, StatusCode::InternalServerError);
    let bytes = resp.build_bytes(1024).unwrap();
    assert_eq!(bytes, FALLBACK.to_vec());
}

#[test]
fn handler_success_passes_response_through() {
    let own = HttpResponse::new(StatusCode::Created, ResponseBody::Text(b"made".to_vec()));
    let resp = response_for_handler_outcome(HandlerOutcome::Success(own));
    assert_eq!(resp.status_code, StatusCode::Created);
    let bytes = resp.build_bytes(1024).unwrap();
    assert_eq!(bytes, b"HTTP/1.1 201 Created\r\nContent-Length: 4\r\n\r\nmade".to_vec());
}

#[test]
fn fallback_literal_bytes() {
    let fb = fallback_response_bytes();
    assert_eq!(fb, FALLBACK.to_vec());
    assert_eq!(fb.len(), 105);
}

#[test]
fn emit_falls_back_on_overflow() {
    let resp = HttpResponse::new(StatusCode::Okay, ResponseBody::Text(vec![121; 2000]));
    let bytes = emit_response(&resp, 1024);
    assert_eq!(bytes, FALLBACK.to_vec());

    let small = HttpResponse::new(StatusCode::Okay, ResponseBody::Empty);
    let bytes = emit_response(&small, 1024);
    assert_eq!(bytes, b"HTTP/1.1 200 OK\r\nContent-Length: 0\r\n\r\n".to_vec());
}

#[test]
fn zero_bytes_read_closes_without_response() {
    // Scenario: the peer closed before sending anything; the connection is
    // closed directly, never passing Responding.
    let s = step(ConnState::Reading, Event::BytesArrived(0));
    assert_eq!(s, ConnState::Closed);
}

#[test]
fn lifecycle_happy_path() {
    let mut s = ConnState::Idle;
    for (ev, expected) in [
        (Event::Start, ConnState::Accepting),
        (Event::InboundConnection, ConnState::Reading),
        (Event::BytesArrived(27), ConnState::Parsing),
        (Event::RequestParsed, ConnState::Handling),
        (Event::HandlerSucceeded, ConnState::Responding),
        (Event::ResponseWritten, ConnState::Closed),
        (Event::Start, ConnState::Idle),
    ] {
        s = step(s, ev);
        assert_eq!(s, expected);
    }
}

#[test]
fn lifecycle_failure_paths() {
    // No peer yet: accept problems return to Idle.
    assert_eq!(step(ConnState::Accepting, Event::AcceptTimedOut), ConnState::Idle);
    assert_eq!(step(ConnState::Accepting, Event::AcceptFailed), ConnState::Idle);
    // No valid request established: close silently.
    assert_eq!(step(ConnState::Reading, Event::ReadFailed), ConnState::Closed);
    assert_eq!(step(ConnState::Reading, Event::ReadTimedOut), ConnState::Closed);
    // A rejected request still gets a response.
    assert_eq!(step(ConnState::Parsing, Event::RequestRejected), ConnState::Responding);
    // Handler trouble still gets a response.
    assert_eq!(step(ConnState::Handling, Event::HandlerFailed), ConnState::Responding);
    assert_eq!(step(ConnState::Handling, Event::HandlerTimedOut), ConnState::Responding);
    // Write failures close the connection regardless.
    assert_eq!(step(ConnState::Responding, Event::WriteFailed), ConnState::Closed);
}

#[test]
fn failure_events_map_to_the_error_taxonomy() {
    assert_eq!(error_for_event(Event::AcceptFailed), Some(Error::Transport));
    assert_eq!(error_for_event(Event::AcceptTimedOut), Some(Error::Timeout(Phase::Accept)));
    assert_eq!(error_for_event(Event::ReadTimedOut), Some(Error::Timeout(Phase::Read)));
    assert_eq!(error_for_event(Event::RequestRejected), Some(Error::ParseError));
    assert_eq!(error_for_event(Event::HandlerFailed), Some(Error::HandlerFailure));
    assert_eq!(error_for_event(Event::HandlerTimedOut), Some(Error::Timeout(Phase::Handler)));
    assert_eq!(error_for_event(Event::WriteFailed), Some(Error::Transport));
    assert_eq!(error_for_event(Event::Start), None);
    assert_eq!(error_for_event(Event::BytesArrived(0)), None);
    assert_eq!(error_for_event(Event::ResponseWritten), None);
}
