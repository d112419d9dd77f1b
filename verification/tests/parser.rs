use microhttp::error::Error;
use microhttp::request::{HttpRequest, Method};

#[test]
fn parse_simple_get() {
    // Scenario: the smallest well-formed request.
    let input = b"GET / HTTP/1.1\r\nHost: x\r\n\r\n";
    let req = HttpRequest::parse(input).unwrap();
    assert_eq!(req.method, Method::Get);
    assert_eq!(req.path, b"/".to_vec());
    assert_eq!(req.headers.len(), 1);
    assert_eq!(req.headers[0].name, b"Host".to_vec());
    assert_eq!(req.headers[0].value, b"x".to_vec());
    assert_eq!(req.body, Vec::<u8>::new());
}

#[test]
fn parse_garbage_is_parse_error() {
    // Scenario: no recognized method, no CRLF.
    let r = HttpRequest::parse(b"GARBAGE");
    assert_eq!(r.unwrap_err(), Error::ParseError);
}

#[test]
fn parse_keeps_method_path_headers_in_order() {
    let input = b"POST /api/v1/items HTTP/1.1\r\nHost: example.org\r\nContent-Type: text/plain\r\nX-Token: abc123\r\n\r\nhello world";
    let req = HttpRequest::parse(input).unwrap();
    assert_eq!(req.method, Method::Post);
    assert_eq!(req.path, b"/api/v1/items".to_vec());
    assert_eq!(req.headers.len(), 3);
    assert_eq!(req.headers[0].name, b"Host".to_vec());
    assert_eq!(req.headers[0].value, b"example.org".to_vec());
    assert_eq!(req.headers[1].name, b"Content-Type".to_vec());
    assert_eq!(req.headers[1].value, b"text/plain".to_vec());
    assert_eq!(req.headers[2].name, b"X-Token".to_vec());
    assert_eq!(req.headers[2].value, b"abc123".to_vec());
    assert_eq!(req.body, b"hello world".to_vec());
}

#[test]
fn parse_every_recognized_method() {
    for (tok, m) in [
        (&b"GET"[..], Method::Get),
        (b"POST", Method::Post),
        (b"PUT", Method::Put),
        (b"DELETE", Method::Delete),
        (b"HEAD", Method::Head),
        (b"OPTIONS", Method::Options),
        (b"PATCH", Method::Patch),
    ] {
        let mut input = tok.to_vec();
        input.extend_from_slice(b" /p HTTP/1.1\r\n\r\n");
        let req = HttpRequest::parse(&input).unwrap();
        assert_eq!(req.method, m);
    }
}

#[test]
fn parse_unrecognized_method_is_parse_error() {
    let r = HttpRequest::parse(b"BREW /pot HTTP/1.1\r\n\r\n");
    assert_eq!(r.unwrap_err(), Error::ParseError);
}

#[test]
fn parse_empty_path_is_parse_error() {
    let r = HttpRequest::parse(b"GET  HTTP/1.1\r\n\r\n");
    assert_eq!(r.unwrap_err(), Error::ParseError);
}

#[test]
fn parse_missing_version_is_parse_error() {
    let r = HttpRequest::parse(b"GET /\r\n\r\n");
    assert_eq!(r.unwrap_err(), Error::ParseError);
}

#[test]
fn parse_header_line_without_colon_is_parse_error() {
    let r = HttpRequest::parse(b"GET / HTTP/1.1\r\nNoSeparatorHere\r\n\r\n");
    assert_eq!(r.unwrap_err(), Error::ParseError);
}

#[test]
fn parse_unterminated_header_block_is_parse_error() {
    let r = HttpRequest::parse(b"GET / HTTP/1.1\r\nHost: x\r\n");
    assert_eq!(r.unwrap_err(), Error::ParseError);
}

#[test]
fn parse_too_many_headers_is_overflow() {
    // One header above the fixed capacity of 16 must be an overflow, not a
    // silently shortened header list.
    let mut input = b"GET / HTTP/1.1\r\n".to_vec();
    for i in 0..17 {
        input.extend_from_slice(format!("H{}: v{}\r\n", i, i).as_bytes());
    }
    input.extend_from_slice(b"\r\n");
    let r = HttpRequest::parse(&input);
    assert_eq!(r.unwrap_err(), Error::Overflow);
}

#[test]
fn parse_header_count_at_capacity_is_ok() {
    let mut input = b"GET / HTTP/1.1\r\n".to_vec();
    for i in 0..16 {
        input.extend_from_slice(format!("H{}: v{}\r\n", i, i).as_bytes());
    }
    input.extend_from_slice(b"\r\nbody");
    let req = HttpRequest::parse(&input).unwrap();
    assert_eq!(req.headers.len(), 16);
    assert_eq!(req.body, b"body".to_vec());
}

#[test]
fn parse_is_idempotent() {
    // Repeated parsing of the same byte slice yields structurally equal
    // requests.
    let input = b"PUT /x HTTP/1.1\r\nA: 1\r\nB: 2\r\n\r\npayload";
    let a = HttpRequest::parse(input).unwrap();
    let b = HttpRequest::parse(input).unwrap();
    assert_eq!(a.method, b.method);
    assert_eq!(a.path, b.path);
    assert_eq!(a.headers.len(), b.headers.len());
    for i in 0..a.headers.len() {
        assert_eq!(a.headers[i].name, b.headers[i].name);
        assert_eq!(a.headers[i].value, b.headers[i].value);
    }
    assert_eq!(a.body, b.body);
}

#[test]
fn parse_strips_leading_value_spaces() {
    let req = HttpRequest::parse(b"GET / HTTP/1.1\r\nPadded:    lots of room\r\n\r\n").unwrap();
    assert_eq!(req.headers[0].name, b"Padded".to_vec());
    assert_eq!(req.headers[0].value, b"lots of room".to_vec());
}

#[test]
fn parse_body_is_verbatim() {
    let req = HttpRequest::parse(b"POST /u HTTP/1.1\r\n\r\n\r\nraw\r\nbytes").unwrap();
    assert_eq!(req.body, b"\r\nraw\r\nbytes".to_vec());
}

#[test]
fn parse_empty_input_is_parse_error() {
    let r = HttpRequest::parse(b"");
    assert_eq!(r.unwrap_err(), Error::ParseError);
}

#[test]
fn parse_duplicate_header_names_are_kept_in_order() {
    let req =
        HttpRequest::parse(b"GET / HTTP/1.1\r\nSet-Cookie: a=1\r\nSet-Cookie: b=2\r\n\r\n")
            .unwrap();
    assert_eq!(req.headers.len(), 2);
    assert_eq!(req.headers[0].name, b"Set-Cookie".to_vec());
    assert_eq!(req.headers[0].value, b"a=1".to_vec());
    assert_eq!(req.headers[1].name, b"Set-Cookie".to_vec());
    assert_eq!(req.headers[1].value, b"b=2".to_vec());
}
