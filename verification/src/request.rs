//! The structured request and its parser.
//!
//! The wire grammar is: a request line `<METHOD> <PATH> <VERSION>` terminated
//! by CRLF, then header lines `name: value` each terminated by CRLF, then an
//! empty line, then the body verbatim. The whole grammar is written down as
//! spec functions, and the executable parser is proved to return exactly
//! what the grammar says, on every input.

use crate::error::Error;
use crate::header::{
    header_items, header_list_len, header_list_new, header_list_push, header_views, HeaderView,
    HttpHeader,
};
use crate::response::{spec_crlf, spec_header_block, spec_header_line};
use crate::scan::{
    bytes_eq, copy_range, find_byte, find_crlf, skip_spaces, spec_find_byte, spec_find_crlf,
    spec_skip_spaces, COLON, CR, LF, SP,
};
use crate::scan::{lemma_find_byte_at, lemma_find_crlf_at, lemma_skip_spaces_at};
use crate::MAX_HEADERS;
use vstd::prelude::*;

verus! {

/// The closed set of request methods. `Unknown` exists so that a method can
/// be carried as data; the parser rejects an unrecognized method outright.
#[derive(Clone, Copy, Debug, PartialEq, Eq, Structural)]
pub enum Method {
    Get,
    Post,
    Put,
    Delete,
    Head,
    Options,
    Patch,
    Unknown,
}

/// The request-line token of each method, as ASCII bytes (empty for
/// `Unknown`, which has no wire form).
pub open spec fn spec_method_token(m: Method) -> Seq<u8> {
    match m {
        Method::Get => seq![71u8, 69u8, 84u8],  // "GET"
        Method::Post => seq![80u8, 79u8, 83u8, 84u8],  // "POST"
        Method::Put => seq![80u8, 85u8, 84u8],  // "PUT"
        Method::Delete => seq![68u8, 69u8, 76u8, 69u8, 84u8, 69u8],  // "DELETE"
        Method::Head => seq![72u8, 69u8, 65u8, 68u8],  // "HEAD"
        Method::Options => seq![79u8, 80u8, 84u8, 73u8, 79u8, 78u8, 83u8],  // "OPTIONS"
        Method::Patch => seq![80u8, 65u8, 84u8, 67u8, 72u8],  // "PATCH"
        Method::Unknown => Seq::empty(),
    }
}

/// The method a token denotes, or `Unknown`.
pub open spec fn spec_method_of(tok: Seq<u8>) -> Method {
    if tok == spec_method_token(Method::Get) {
        Method::Get
    } else if tok == spec_method_token(Method::Post) {
        Method::Post
    } else if tok == spec_method_token(Method::Put) {
        Method::Put
    } else if tok == spec_method_token(Method::Delete) {
        Method::Delete
    } else if tok == spec_method_token(Method::Head) {
        Method::Head
    } else if tok == spec_method_token(Method::Options) {
        Method::Options
    } else if tok == spec_method_token(Method::Patch) {
        Method::Patch
    } else {
        Method::Unknown
    }
}

/// What the request line `s[0..end]` denotes: the method and the path, or a
/// parse error. The method token runs to the first space and must be
/// recognized; the path runs to the next space and must be non-empty; the
/// version after that space must be non-empty.
pub open spec fn spec_parse_request_line(s: Seq<u8>, end: int) -> Result<(Method, Seq<u8>), Error> {
    let sp1 = spec_find_byte(s, SP, 0, end);
    if sp1 < 0 {
        Err(Error::ParseError)
    } else if spec_method_of(s.subrange(0, sp1)) == Method::Unknown {
        Err(Error::ParseError)
    } else {
        let sp2 = spec_find_byte(s, SP, sp1 + 1, end);
        if sp2 < 0 {
            Err(Error::ParseError)
        } else if sp2 == sp1 + 1 {
            Err(Error::ParseError)
        } else if sp2 + 1 >= end {
            Err(Error::ParseError)
        } else {
            Ok((spec_method_of(s.subrange(0, sp1)), s.subrange(sp1 + 1, sp2)))
        }
    }
}

/// What the header line `s[start..end]` denotes: the name runs to the first
/// colon and must be non-empty; the value is the rest with leading spaces
/// stripped.
pub open spec fn spec_parse_header_line(s: Seq<u8>, start: int, end: int) -> Result<
    HeaderView,
    Error,
> {
    let c = spec_find_byte(s, COLON, start, end);
    if c < 0 || c == start {
        Err(Error::ParseError)
    } else {
        let v = spec_skip_spaces(s, c + 1, end);
        Ok(HeaderView { name: s.subrange(start, c), value: s.subrange(v, end) })
    }
}

/// The headers denoted by `s[i..]` up to the empty line, with `count`
/// headers already taken: the remaining header views and the index where
/// the body starts. A missing line terminator is a parse error; a header
/// line beyond the fixed capacity is an overflow, never a dropped header.
pub open spec fn spec_parse_headers(s: Seq<u8>, i: int, count: nat) -> Result<
    (Seq<HeaderView>, int),
    Error,
>
    decreases s.len() - i,
{
    let e = spec_find_crlf(s, i);
    if e < i || e + 2 > s.len() {
        Err(Error::ParseError)
    } else if e == i {
        Ok((Seq::empty(), i + 2))
    } else if count >= MAX_HEADERS {
        Err(Error::Overflow)
    } else {
        match spec_parse_header_line(s, i, e) {
            Err(err) => Err(err),
            Ok(h) => match spec_parse_headers(s, e + 2, count + 1) {
                Err(err) => Err(err),
                Ok(p) => Ok((seq![h] + p.0, p.1)),
            },
        }
    }
}

/// The mathematical value of a request.
pub struct RequestView {
    pub method: Method,
    pub path: Seq<u8>,
    pub headers: Seq<HeaderView>,
    pub body: Seq<u8>,
}

/// What a whole input buffer denotes: the request, or the error the parser
/// must report. Everything after the empty line that ends the header block
/// is the body, verbatim.
pub open spec fn spec_parse(s: Seq<u8>) -> Result<RequestView, Error> {
    let e0 = spec_find_crlf(s, 0);
    if e0 < 0 {
        Err(Error::ParseError)
    } else {
        match spec_parse_request_line(s, e0) {
            Err(err) => Err(err),
            Ok(ml) => match spec_parse_headers(s, e0 + 2, 0) {
                Err(err) => Err(err),
                Ok(p) => Ok(
                    RequestView {
                        method: ml.0,
                        path: ml.1,
                        headers: p.0,
                        body: s.subrange(p.1, s.len() as int),
                    },
                ),
            },
        }
    }
}

/// A parsed HTTP request: method, path, bounded header list, and the raw
/// body bytes. Fields are bounded copies out of the input buffer; a request
/// is never mutated after construction.
#[derive(Debug)]
pub struct HttpRequest {
    pub method: Method,
    pub path: Vec<u8>,
    pub headers: heapless::Vec<HttpHeader, MAX_HEADERS>,
    pub body: Vec<u8>,
}

impl View for HttpRequest {
    type V = RequestView;

    open spec fn view(&self) -> RequestView {
        RequestView {
            method: self.method,
            path: self.path@,
            headers: header_views(header_items(self.headers)),
            body: self.body@,
        }
    }
}

impl HttpRequest {
    /// A request is well formed when its method is recognized, its path is
    /// non-empty, and its header count is within capacity.
    pub open spec fn wf(self) -> bool {
        &&& self.method != Method::Unknown
        &&& self.path@.len() > 0
        &&& header_items(self.headers).len() <= MAX_HEADERS
        &&& forall|i: int|
            0 <= i < header_items(self.headers).len() ==> header_items(self.headers)[i].wf()
    }
}

/// The method the token denotes, or `Unknown`.
fn method_of(tok: &[u8]) -> (m: Method)
    ensures
        m == spec_method_of(tok@),
{
    let get: [u8; 3] = [71, 69, 84];
    let post: [u8; 4] = [80, 79, 83, 84];
    let put: [u8; 3] = [80, 85, 84];
    let delete: [u8; 6] = [68, 69, 76, 69, 84, 69];
    let head: [u8; 4] = [72, 69, 65, 68];
    let options: [u8; 7] = [79, 80, 84, 73, 79, 78, 83];
    let patch: [u8; 5] = [80, 65, 84, 67, 72];
    proof {
        assert(get@ =~= spec_method_token(Method::Get));
        assert(post@ =~= spec_method_token(Method::Post));
        assert(put@ =~= spec_method_token(Method::Put));
        assert(delete@ =~= spec_method_token(Method::Delete));
        assert(head@ =~= spec_method_token(Method::Head));
        assert(options@ =~= spec_method_token(Method::Options));
        assert(patch@ =~= spec_method_token(Method::Patch));
    }
    if bytes_eq(tok, get.as_slice()) {
        Method::Get
    } else if bytes_eq(tok, post.as_slice()) {
        Method::Post
    } else if bytes_eq(tok, put.as_slice()) {
        Method::Put
    } else if bytes_eq(tok, delete.as_slice()) {
        Method::Delete
    } else if bytes_eq(tok, head.as_slice()) {
        Method::Head
    } else if bytes_eq(tok, options.as_slice()) {
        Method::Options
    } else if bytes_eq(tok, patch.as_slice()) {
        Method::Patch
    } else {
        Method::Unknown
    }
}

/// Glue a prefix of already-parsed headers onto the outcome of parsing the
/// rest.
pub open spec fn spec_glue_headers(acc: Seq<HeaderView>, r: Result<(Seq<HeaderView>, int), Error>)
    -> Result<(Seq<HeaderView>, int), Error> {
    match r {
        Ok(p) => Ok((acc + p.0, p.1)),
        Err(e) => Err(e),
    }
}

/// Parse the header block of `buf` starting at `start`: the bounded header
/// list and the index where the body starts.
fn parse_headers(buf: &[u8], start: usize) -> (r: Result<
    (heapless::Vec<HttpHeader, MAX_HEADERS>, usize),
    Error,
>)
    requires
        start <= buf@.len(),
    ensures
        match r {
            Ok(p) => {
                &&& spec_parse_headers(buf@, start as int, 0) == Ok::<_, Error>(
                    (header_views(header_items(p.0)), p.1 as int),
                )
                &&& p.1 <= buf@.len()
                &&& header_items(p.0).len() <= MAX_HEADERS
                &&& forall|i: int|
                    0 <= i < header_items(p.0).len() ==> header_items(p.0)[i].wf()
            },
            Err(e) => spec_parse_headers(buf@, start as int, 0) == Err::<
                (Seq<HeaderView>, int),
                _,
            >(e),
        },
{
    let n = buf.len();
    let ghost s = buf@;
    let mut hdrs = header_list_new();
    let ghost mut acc: Seq<HeaderView> = Seq::empty();
    let mut pos: usize = start;
    proof {
        match spec_parse_headers(s, start as int, 0nat) {
            Ok(p) => {
                assert(Seq::<HeaderView>::empty() + p.0 =~= p.0);
            },
            Err(_) => {},
        }
        assert(header_views(header_items(hdrs)) =~= acc);
    }
    loop
        invariant_except_break
            spec_parse_headers(s, start as int, 0nat) == spec_glue_headers(
                acc,
                spec_parse_headers(s, pos as int, acc.len() as nat),
            ),
        invariant
            n == buf@.len(),
            pos <= buf@.len(),
            s == buf@,
            acc.len() == header_items(hdrs).len(),
            acc.len() <= MAX_HEADERS,
            header_views(header_items(hdrs)) == acc,
            forall|i: int| 0 <= i < header_items(hdrs).len() ==> header_items(hdrs)[i].wf(),
        ensures
            pos <= buf@.len(),
            s == buf@,
            header_items(hdrs).len() <= MAX_HEADERS,
            forall|i: int| 0 <= i < header_items(hdrs).len() ==> header_items(hdrs)[i].wf(),
            spec_parse_headers(s, start as int, 0nat) == Ok::<_, Error>(
                (header_views(header_items(hdrs)), pos as int),
            ),
        decreases buf@.len() - pos,
    {
        let e = match find_crlf(buf, pos) {
            None => {
                return Err(Error::ParseError);
            },
            Some(e) => e,
        };
        if e == pos {
            // Empty line: end of the header block; the body starts after it.
            proof {
                assert(spec_parse_headers(s, pos as int, acc.len() as nat) == Ok::<_, Error>(
                    (Seq::<HeaderView>::empty(), pos + 2),
                ));
                assert(acc + Seq::<HeaderView>::empty() =~= acc);
                assert(spec_parse_headers(s, start as int, 0nat) == Ok::<_, Error>(
                    (acc, pos + 2),
                ));
                assert(pos + 2 <= buf@.len());
            }
            pos = pos + 2;
            break ;
        }
        if header_list_len(&hdrs) == MAX_HEADERS {
            return Err(Error::Overflow);
        }
        let c = match find_byte(buf, COLON, pos, e) {
            None => {
                return Err(Error::ParseError);
            },
            Some(c) => c,
        };
        if c == pos {
            return Err(Error::ParseError);
        }
        let v = skip_spaces(buf, c + 1, e);
        let name = copy_range(buf, pos, c);
        let value = copy_range(buf, v, e);
        let ghost hv = HeaderView { name: s.subrange(pos as int, c as int), value: s.subrange(v as int, e as int) };
        let h = HttpHeader::new(name, value);
        proof {
            assert(h@ == hv);
            assert(spec_parse_header_line(s, pos as int, e as int) == Ok::<_, Error>(hv));
        }
        match header_list_push(&mut hdrs, h) {
            Ok(()) => {},
            Err(_) => {
                proof {
                    assert(false);
                }
                return Err(Error::Overflow);
            },
        }
        proof {
            let inner = spec_parse_headers(s, e + 2, (acc.len() + 1) as nat);
            assert(spec_parse_headers(s, pos as int, acc.len() as nat) == spec_glue_headers(
                seq![hv],
                inner,
            ));
            match inner {
                Ok(p) => {
                    assert(acc + (seq![hv] + p.0) =~= acc.push(hv) + p.0);
                },
                Err(_) => {},
            }
            acc = acc.push(hv);
            assert(header_views(header_items(hdrs)) =~= acc);
        }
        pos = e + 2;
    }
    Ok((hdrs, pos))
}

impl HttpRequest {
    /// Decode a byte buffer into a structured request, or fail with exactly
    /// the error the wire grammar assigns to it.
    pub fn parse(buf: &[u8]) -> (r: Result<HttpRequest, Error>)
        ensures
            match r {
                Ok(req) => spec_parse(buf@) == Ok::<_, Error>(req@) && req.wf(),
                Err(e) => spec_parse(buf@) == Err::<RequestView, _>(e),
            },
    {
        let n = buf.len();
        let e0 = match find_crlf(buf, 0) {
            None => {
                return Err(Error::ParseError);
            },
            Some(e) => e,
        };
        let sp1 = match find_byte(buf, SP, 0, e0) {
            None => {
                return Err(Error::ParseError);
            },
            Some(x) => x,
        };
        let tok = copy_range(buf, 0, sp1);
        let method = method_of(tok.as_slice());
        if method == Method::Unknown {
            return Err(Error::ParseError);
        }
        let sp2 = match find_byte(buf, SP, sp1 + 1, e0) {
            None => {
                return Err(Error::ParseError);
            },
            Some(x) => x,
        };
        if sp2 == sp1 + 1 {
            return Err(Error::ParseError);
        }
        if sp2 + 1 >= e0 {
            return Err(Error::ParseError);
        }
        let path = copy_range(buf, sp1 + 1, sp2);
        proof {
            assert(e0 + 2 <= buf@.len());
        }
        match parse_headers(buf, e0 + 2) {
            Err(e) => Err(e),
            Ok((headers, body_start)) => {
                let body = copy_range(buf, body_start, n);
                let req = HttpRequest { method, path, headers, body };
                Ok(req)
            },
        }
    }
}

/// Parsing is deterministic: what a byte sequence denotes is a single value,
/// so repeated parsing of the same bytes yields structurally equal results —
/// two parses that each return what the grammar assigns to `s` agree.
pub proof fn lemma_parse_idempotent(
    s: Seq<u8>,
    r1: Result<RequestView, Error>,
    r2: Result<RequestView, Error>,
)
    requires
        r1 == spec_parse(s),
        r2 == spec_parse(s),
    ensures
        r1 == r2,
{
}


/// A path can stand in a request line when it is non-empty and contains
/// neither a space (which would end it early) nor a carriage return (which
/// could end the line early).
pub open spec fn spec_path_renderable(path: Seq<u8>) -> bool {
    &&& path.len() > 0
    &&& forall|j: int| 0 <= j < path.len() ==> path[j] != SP && path[j] != CR
}

/// A header can stand on a wire line when its name is non-empty and free of
/// colons and carriage returns, its value is free of carriage returns, and
/// its value does not begin with a space (the serializer inserts exactly
/// one, and the parser strips every leading space).
pub open spec fn spec_header_renderable(h: HeaderView) -> bool {
    &&& h.name.len() > 0
    &&& forall|j: int| 0 <= j < h.name.len() ==> h.name[j] != COLON && h.name[j] != CR
    &&& forall|j: int| 0 <= j < h.value.len() ==> h.value[j] != CR
    &&& (h.value.len() == 0 || h.value[0] != SP)
}

/// The version token `"HTTP/1.1"`.
pub open spec fn spec_http11() -> Seq<u8> {
    seq![72u8, 84u8, 84u8, 80u8, 47u8, 49u8, 46u8, 49u8]
}

/// A well-formed wire request assembled from its parts: request line,
/// header lines, empty line, body verbatim.
pub open spec fn spec_render_request(
    m: Method,
    path: Seq<u8>,
    headers: Seq<HeaderView>,
    body: Seq<u8>,
) -> Seq<u8> {
    spec_method_token(m) + seq![SP] + path + seq![SP] + spec_http11() + spec_crlf()
        + spec_header_block(headers) + spec_crlf() + body
}

/// Recognizing the token of a recognized method gives that method back.
proof fn lemma_method_token_roundtrip(m: Method)
    requires
        m != Method::Unknown,
    ensures
        spec_method_of(spec_method_token(m)) == m,
        spec_method_token(m).len() > 0,
        forall|j: int|
            0 <= j < spec_method_token(m).len() ==> spec_method_token(m)[j] != SP
                && spec_method_token(m)[j] != CR,
{
    match m {
        Method::Get => {
            assert(spec_method_of(spec_method_token(m)) == m);
        },
        Method::Post => {
            assert(spec_method_token(Method::Post)[1] != spec_method_token(Method::Get)[1]);
            assert(spec_method_of(spec_method_token(m)) == m);
        },
        Method::Put => {
            assert(spec_method_token(Method::Put)[1] != spec_method_token(Method::Get)[1]);
            assert(spec_method_of(spec_method_token(m)) == m);
        },
        Method::Delete => {
            assert(spec_method_of(spec_method_token(m)) == m);
        },
        Method::Head => {
            assert(spec_method_of(spec_method_token(m)) == m);
        },
        Method::Options => {
            assert(spec_method_of(spec_method_token(m)) == m);
        },
        Method::Patch => {
            assert(spec_method_token(Method::Patch)[1] != spec_method_token(Method::Post)[1]);
            assert(spec_method_token(Method::Patch)[1] != spec_method_token(Method::Put)[1]);
            assert(spec_method_of(spec_method_token(m)) == m);
        },
        Method::Unknown => {},
    }
}

/// The header block of a non-empty list starts with the first header's line.
proof fn lemma_header_block_first(hs: Seq<HeaderView>)
    requires
        hs.len() > 0,
    ensures
        spec_header_block(hs) == spec_header_line(hs[0]) + spec_header_block(hs.drop_first()),
    decreases hs.len(),
{
    if hs.len() == 1 {
        assert(hs.drop_last() =~= Seq::<HeaderView>::empty());
        assert(hs.drop_first() =~= Seq::<HeaderView>::empty());
        assert(spec_header_block(hs) =~= spec_header_line(hs[0]) + spec_header_block(
            hs.drop_first(),
        ));
    } else {
        let dl = hs.drop_last();
        lemma_header_block_first(dl);
        assert(dl[0] == hs[0]);
        assert(dl.drop_first() =~= hs.drop_first().drop_last());
        assert(hs.drop_first().last() == hs.last());
        assert(spec_header_block(hs) == spec_header_block(dl) + spec_header_line(hs.last()));
        assert(spec_header_block(hs.drop_first()) == spec_header_block(hs.drop_first().drop_last())
            + spec_header_line(hs.drop_first().last()));
        assert(spec_header_block(hs) =~= spec_header_line(hs[0]) + spec_header_block(
            hs.drop_first(),
        ));
    }
}

/// Parsing a rendered header block: when the total count fits the capacity
/// the block parses back to exactly its headers, and when it exceeds the
/// capacity parsing fails with `Overflow` — headers are never dropped.
proof fn lemma_parse_rendered_headers(pre: Seq<u8>, hs: Seq<HeaderView>, body: Seq<u8>, count: nat)
    requires
        forall|k: int| 0 <= k < hs.len() ==> spec_header_renderable(#[trigger] hs[k]),
    ensures
        count + hs.len() <= MAX_HEADERS ==> spec_parse_headers(
            pre + spec_header_block(hs) + spec_crlf() + body,
            pre.len() as int,
            count,
        ) == Ok::<_, Error>((hs, (pre.len() + spec_header_block(hs).len() + 2) as int)),
        hs.len() > 0 && count + hs.len() > MAX_HEADERS && count <= MAX_HEADERS
            ==> spec_parse_headers(
            pre + spec_header_block(hs) + spec_crlf() + body,
            pre.len() as int,
            count,
        ) == Err::<(Seq<HeaderView>, int), Error>(Error::Overflow),
    decreases hs.len(),
{
    let s = pre + spec_header_block(hs) + spec_crlf() + body;
    let i = pre.len() as int;
    if hs.len() == 0 {
        assert(spec_header_block(hs).len() == 0);
        assert(s[i] == CR);
        assert(s[i + 1] == LF);
        assert(spec_find_crlf(s, i) == i);
        assert(spec_parse_headers(s, i, count) == Ok::<_, Error>((Seq::<HeaderView>::empty(), i
            + 2)));
        assert(Seq::<HeaderView>::empty() =~= hs);
    } else {
        let h0 = hs[0];
        let hs1 = hs.drop_first();
        let line0 = spec_header_line(h0);
        lemma_header_block_first(hs);
        let nl = h0.name.len() as int;
        let vl = h0.value.len() as int;
        assert(line0.len() == nl + 4 + vl);
        // Where the pieces of the first line sit inside s.
        assert forall|j: int| 0 <= j < line0.len() implies #[trigger] s[i + j] == line0[j] by {
            assert(spec_header_block(hs)[j] == line0[j]);
        }
        assert forall|j: int| 0 <= j < nl implies line0[j] == h0.name[j] by {}
        assert(line0[nl] == COLON);
        assert(line0[nl + 1] == SP);
        assert forall|j: int| 0 <= j < vl implies line0[nl + 2 + j] == h0.value[j] by {}
        assert(line0[nl + 2 + vl] == CR);
        assert(line0[nl + 3 + vl] == LF);
        // The line terminator is the first CRLF: nothing before it is a CR.
        let e = i + nl + 2 + vl;
        assert forall|k: int| i <= k < e implies s[k] != CR by {
            let j = k - i;
            assert(s[k] == line0[j]);
            if j < nl {
                assert(line0[j] == h0.name[j]);
            } else if j >= nl + 2 {
                assert(line0[j] == h0.value[j - nl - 2]);
            }
        }
        assert forall|k: int| i <= k < e implies !((#[trigger] s[k]) == CR && s[k + 1] == LF) by {}
        assert(s[e] == CR);
        assert(s[e + 1] == LF);
        assert(e + 2 <= s.len());
        lemma_find_crlf_at(s, i, e);
        assert(e != i);
        if count >= MAX_HEADERS {
            assert(spec_parse_headers(s, i, count) == Err::<(Seq<HeaderView>, int), Error>(
                Error::Overflow,
            ));
        } else {
            // The first line parses to exactly h0.
            assert forall|k: int| i <= k < i + nl implies s[k] != COLON by {
                assert(s[k] == h0.name[k - i]);
            }
            assert(s[i + nl] == COLON);
            lemma_find_byte_at(s, COLON, i, e, i + nl);
            assert(s[i + nl + 1] == SP);
            if vl == 0 {
                lemma_skip_spaces_at(s, i + nl + 1, e, e);
            } else {
                assert(s[i + nl + 2] == h0.value[0]);
                assert(s[i + nl + 2] != SP);
                lemma_skip_spaces_at(s, i + nl + 1, e, i + nl + 2);
            }
            assert(s.subrange(i, i + nl) =~= h0.name);
            assert(s.subrange(i + nl + 2, e) =~= h0.value);
            assert(spec_parse_header_line(s, i, e) == Ok::<HeaderView, Error>(
                HeaderView { name: h0.name, value: h0.value },
            ));
            assert(HeaderView { name: h0.name, value: h0.value } == h0);
            // The rest of the block parses by induction, over the same bytes.
            let pre1 = pre + line0;
            let s1 = pre1 + spec_header_block(hs1) + spec_crlf() + body;
            assert(s1 =~= s);
            lemma_parse_rendered_headers(pre1, hs1, body, count + 1);
            assert(pre1.len() == e + 2);
            if count + hs.len() <= MAX_HEADERS {
                assert(spec_parse_headers(s, e + 2, count + 1) == Ok::<_, Error>((hs1, (pre1.len()
                    + spec_header_block(hs1).len() + 2) as int)));
                assert(seq![h0] + hs1 =~= hs);
                assert(spec_parse_headers(s, i, count) == Ok::<_, Error>((hs, (pre.len()
                    + spec_header_block(hs).len() + 2) as int)));
            } else {
                assert(hs1.len() > 0 && count + 1 + hs1.len() > MAX_HEADERS);
                assert(spec_parse_headers(s, e + 2, count + 1) == Err::<
                    (Seq<HeaderView>, int),
                    Error,
                >(Error::Overflow));
                assert(spec_parse_headers(s, i, count) == Err::<(Seq<HeaderView>, int), Error>(
                    Error::Overflow,
                ));
            }
        }
    }
}

/// How a rendered request line opens: its prefix up to the header block.
proof fn lemma_parse_rendered_request_line(
    m: Method,
    path: Seq<u8>,
    headers: Seq<HeaderView>,
    body: Seq<u8>,
)
    requires
        m != Method::Unknown,
        spec_path_renderable(path),
    ensures
        ({
            let s = spec_render_request(m, path, headers, body);
            let rl = spec_method_token(m).len() + 1 + path.len() + 1 + spec_http11().len();
            &&& spec_find_crlf(s, 0) == rl
            &&& spec_parse_request_line(s, rl as int) == Ok::<(Method, Seq<u8>), Error>((m, path))
        }),
{
    let s = spec_render_request(m, path, headers, body);
    let tok = spec_method_token(m);
    let tl = tok.len() as int;
    let pl = path.len() as int;
    let rl = tl + 1 + pl + 1 + spec_http11().len();
    lemma_method_token_roundtrip(m);
    assert forall|j: int| 0 <= j < tl implies #[trigger] s[j] == tok[j] by {}
    assert(s[tl] == SP);
    assert forall|j: int| 0 <= j < pl implies #[trigger] s[tl + 1 + j] == path[j] by {}
    assert(s[tl + 1 + pl] == SP);
    assert forall|j: int| 0 <= j < spec_http11().len() implies #[trigger] s[tl + 2 + pl + j]
        == spec_http11()[j] by {}
    assert(s[rl] == CR);
    assert(s[rl + 1] == LF);
    // No CR anywhere in the request line.
    assert forall|k: int| 0 <= k < rl implies s[k] != CR by {
        if k < tl {
            assert(s[k] == tok[k]);
        } else if k == tl {
        } else if k < tl + 1 + pl {
            assert(s[k] == path[k - tl - 1]);
        } else if k == tl + 1 + pl {
        } else {
            assert(s[k] == spec_http11()[k - tl - 2 - pl]);
        }
    }
    assert forall|k: int| 0 <= k < rl implies !((#[trigger] s[k]) == CR && s[k + 1] == LF) by {}
    lemma_find_crlf_at(s, 0, rl);
    // The first space ends the method token.
    assert forall|k: int| 0 <= k < tl implies s[k] != SP by {
        assert(s[k] == tok[k]);
    }
    lemma_find_byte_at(s, SP, 0, rl, tl);
    assert(s.subrange(0, tl) =~= tok);
    // The second space ends the path.
    assert forall|k: int| tl + 1 <= k < tl + 1 + pl implies s[k] != SP by {
        assert(s[k] == path[k - tl - 1]);
    }
    lemma_find_byte_at(s, SP, tl + 1, rl, tl + 1 + pl);
    assert(s.subrange(tl + 1, tl + 1 + pl) =~= path);
    assert(tl + 1 + pl + 1 < rl);
}

/// For every well-formed input assembled as
/// `"<METHOD> <PATH> HTTP/1.1\r\n" + header lines + "\r\n" + body` with a
/// recognized method and at most the fixed header capacity of headers, the
/// parser returns exactly that method, path, header list in original order,
/// and body.
pub proof fn lemma_parse_render(m: Method, path: Seq<u8>, headers: Seq<HeaderView>, body: Seq<u8>)
    requires
        m != Method::Unknown,
        spec_path_renderable(path),
        forall|k: int| 0 <= k < headers.len() ==> spec_header_renderable(#[trigger] headers[k]),
        headers.len() <= MAX_HEADERS,
    ensures
        spec_parse(spec_render_request(m, path, headers, body)) == Ok::<RequestView, Error>(
            RequestView { method: m, path: path, headers: headers, body: body },
        ),
{
    let s = spec_render_request(m, path, headers, body);
    let rl = spec_method_token(m).len() + 1 + path.len() + 1 + spec_http11().len();
    lemma_parse_rendered_request_line(m, path, headers, body);
    let pre = spec_method_token(m) + seq![SP] + path + seq![SP] + spec_http11() + spec_crlf();
    assert(pre.len() == rl + 2);
    let s1 = pre + spec_header_block(headers) + spec_crlf() + body;
    assert(s1 =~= s);
    lemma_parse_rendered_headers(pre, headers, body, 0);
    let b = pre.len() + spec_header_block(headers).len() + 2;
    assert(spec_parse_headers(s, (rl + 2) as int, 0) == Ok::<_, Error>((headers, b as int)));
    assert(s.subrange(b as int, s.len() as int) =~= body);
}

/// For every input assembled as a well-formed request whose header count
/// exceeds the fixed capacity, the parser fails with `Overflow`; it never
/// silently drops headers.
pub proof fn lemma_parse_render_overflow(
    m: Method,
    path: Seq<u8>,
    headers: Seq<HeaderView>,
    body: Seq<u8>,
)
    requires
        m != Method::Unknown,
        spec_path_renderable(path),
        forall|k: int| 0 <= k < headers.len() ==> spec_header_renderable(#[trigger] headers[k]),
        headers.len() > MAX_HEADERS,
    ensures
        spec_parse(spec_render_request(m, path, headers, body)) == Err::<RequestView, Error>(
            Error::Overflow,
        ),
{
    let s = spec_render_request(m, path, headers, body);
    let rl = spec_method_token(m).len() + 1 + path.len() + 1 + spec_http11().len();
    lemma_parse_rendered_request_line(m, path, headers, body);
    let pre = spec_method_token(m) + seq![SP] + path + seq![SP] + spec_http11() + spec_crlf();
    assert(pre.len() == rl + 2);
    let s1 = pre + spec_header_block(headers) + spec_crlf() + body;
    assert(s1 =~= s);
    lemma_parse_rendered_headers(pre, headers, body, 0);
    assert(spec_parse_headers(s, (rl + 2) as int, 0) == Err::<(Seq<HeaderView>, int), Error>(
        Error::Overflow,
    ));
}

} // verus!
