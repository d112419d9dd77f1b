use microhttp::error::Error;
use microhttp::response::{HttpResponse, ResponseBody};
use microhttp::status_code::StatusCode;

#[test]
fn build_exact_bytes() {
    let mut resp = HttpResponse::new(StatusCode::Okay, ResponseBody::Text(b"hi".to_vec()));
    resp.add_header(b"Content-Type".to_vec(), b"text/plain".to_vec()).unwrap();
    let bytes = resp.build_bytes(4096).unwrap();
    assert_eq!(
        bytes,
        b"HTTP/1.1 200 OK\r\nContent-Type: text/plain\r\nContent-Length: 2\r\n\r\nhi".to_vec()
    );
}

#[test]
fn build_empty_body_has_content_length_zero() {
    let resp = HttpResponse::new(StatusCode::NoContent, ResponseBody::Empty);
    let bytes = resp.build_bytes(4096).unwrap();
    assert_eq!(bytes, b"HTTP/1.1 204 No Content\r\nContent-Length: 0\r\n\r\n".to_vec());
}

#[test]
fn build_bytes_body_variant() {
    let resp = HttpResponse::new(StatusCode::Okay, ResponseBody::Bytes(vec![0, 1, 2, 255]));
    let bytes = resp.build_bytes(4096).unwrap();
    let mut expected = b"HTTP/1.1 200 OK\r\nContent-Length: 4\r\n\r\n".to_vec();
    expected.extend_from_slice(&[0, 1, 2, 255]);
    assert_eq!(bytes, expected);
}

#[test]
fn build_overflow_fails_closed() {
    // A response whose wire form exceeds the configured maximum must fail
    // with Overflow and must write nothing to the output buffer.
    let resp = HttpResponse::new(StatusCode::Okay, ResponseBody::Text(vec![120; 100]));
    let mut out = b"untouched".to_vec();
    let r = resp.build_into(&mut out, 64);
    assert_eq!(r.unwrap_err(), Error::Overflow);
    assert_eq!(out, b"untouched".to_vec());

    let r = resp.build_bytes(64);
    assert_eq!(r.unwrap_err(), Error::Overflow);
}

#[test]
fn build_into_replaces_buffer_on_success() {
    let resp = HttpResponse::new(StatusCode::NotFound, ResponseBody::Empty);
    let mut out = b"left over from the previous connection".to_vec();
    resp.build_into(&mut out, 1024).unwrap();
    assert_eq!(out, b"HTTP/1.1 404 Not Found\r\nContent-Length: 0\r\n\r\n".to_vec());
}

#[test]
fn add_header_overflow_leaves_response_unchanged() {
    let mut resp = HttpResponse::new(StatusCode::Okay, ResponseBody::Empty);
    for i in 0..16 {
        resp.add_header(format!("H{}", i).into_bytes(), b"v".to_vec()).unwrap();
    }
    let r = resp.add_header(b"One-Too-Many".to_vec(), b"v".to_vec());
    assert_eq!(r.unwrap_err(), Error::Overflow);
    let bytes = resp.build_bytes(4096).unwrap();
    let text = String::from_utf8(bytes).unwrap();
    assert!(!text.contains("One-Too-Many"));
    assert!(text.contains("H15: v\r\n"));
}

#[test]
fn status_codes_and_reasons() {
    assert_eq!(StatusCode::Okay.code(), 200);
    assert_eq!(StatusCode::BadRequest.code(), 400);
    assert_eq!(StatusCode::InternalServerError.code(), 500);
    assert_eq!(StatusCode::Okay.reason(), b"OK".to_vec());
    assert_eq!(StatusCode::BadRequest.reason(), b"Bad Request".to_vec());
    assert_eq!(StatusCode::InternalServerError.reason(), b"Internal Server Error".to_vec());
    assert_eq!(StatusCode::ServiceUnavailable.code(), 503);
    assert_eq!(StatusCode::ServiceUnavailable.reason(), b"Service Unavailable".to_vec());
}

#[test]
fn built_response_parses_back_as_header_block() {
    // The serializer and the parser agree on the header-line format: feed a
    // serialized response's header block through the request parser.
    let mut resp = HttpResponse::new(StatusCode::Okay, ResponseBody::Empty);
    resp.add_header(b"A".to_vec(), b"1".to_vec()).unwrap();
    resp.add_header(b"B".to_vec(), b"2".to_vec()).unwrap();
    let bytes = resp.build_bytes(4096).unwrap();
    let text = String::from_utf8(bytes).unwrap();
    assert!(text.starts_with("HTTP/1.1 200 OK\r\n"));
    assert!(text.contains("A: 1\r\nB: 2\r\nContent-Length: 0\r\n\r\n"));
}
