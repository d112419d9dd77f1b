//! The structured response and its serializer.

use crate::error::Error;
use crate::header::{header_items, header_list_len, header_list_get, header_list_new, header_list_push, header_views, HeaderView, HttpHeader};
use crate::scan::push_all;
use crate::status_code::{spec_code, spec_reason, StatusCode};
use crate::MAX_HEADERS;
use vstd::prelude::*;

verus! {

/// A response body: nothing, text, or raw bytes.
#[derive(Debug)]
pub enum ResponseBody {
    Empty,
    Text(Vec<u8>),
    Bytes(Vec<u8>),
}

/// The bytes a body contributes to the serialized response.
pub open spec fn spec_body_bytes(b: ResponseBody) -> Seq<u8> {
    match b {
        ResponseBody::Empty => Seq::empty(),
        ResponseBody::Text(t) => t@,
        ResponseBody::Bytes(t) => t@,
    }
}

/// A structured HTTP response: status, bounded header list, body.
pub struct HttpResponse {
    pub status_code: StatusCode,
    pub headers: heapless::Vec<HttpHeader, MAX_HEADERS>,
    pub body: ResponseBody,
}

impl HttpResponse {
    /// A response is well formed when its header count is within capacity
    /// and every header has a non-empty name.
    pub open spec fn wf(self) -> bool {
        &&& header_items(self.headers).len() <= MAX_HEADERS
        &&& forall|i: int|
            0 <= i < header_items(self.headers).len() ==> header_items(self.headers)[i].wf()
    }

    /// A response with the given status, no headers, and the given body.
    pub fn new(status_code: StatusCode, body: ResponseBody) -> (r: HttpResponse)
        ensures
            r.status_code == status_code,
            header_items(r.headers) == Seq::<HttpHeader>::empty(),
            r.body == body,
            r.wf(),
    {
        HttpResponse { status_code, headers: header_list_new(), body }
    }

    /// Append a header. Fails with `Overflow` when the header capacity is
    /// already reached, leaving the response unchanged.
    pub fn add_header(&mut self, name: Vec<u8>, value: Vec<u8>) -> (r: Result<(), Error>)
        requires
            name@.len() > 0,
        ensures
            final(self).status_code == old(self).status_code,
            final(self).body == old(self).body,
            header_items(old(self).headers).len() < MAX_HEADERS ==> r is Ok
                && header_items(final(self).headers)
                == header_items(old(self).headers).push(HttpHeader { name: name, value: value }),
            header_items(old(self).headers).len() >= MAX_HEADERS
                ==> r == Result::<(), Error>::Err(Error::Overflow)
                && header_items(final(self).headers) == header_items(old(self).headers),
            old(self).wf() ==> final(self).wf(),
    {
        let h = HttpHeader::new(name, value);
        match header_list_push(&mut self.headers, h) {
            Ok(()) => Ok(()),
            Err(_) => Err(Error::Overflow),
        }
    }
}


/// CRLF, the line terminator of the wire format.
pub open spec fn spec_crlf() -> Seq<u8> {
    seq![13u8, 10u8]
}

/// The fixed start of every status line: `"HTTP/1.1 "`.
pub open spec fn spec_status_prefix() -> Seq<u8> {
    seq![72u8, 84u8, 84u8, 80u8, 47u8, 49u8, 46u8, 49u8, 32u8]
}

/// The header name `"Content-Length"`.
pub open spec fn spec_content_length_name() -> Seq<u8> {
    seq![67u8, 111u8, 110u8, 116u8, 101u8, 110u8, 116u8, 45u8, 76u8, 101u8, 110u8, 103u8, 116u8, 104u8]
}

/// The decimal digits of `n`, most significant first, without leading
/// zeros (a lone `0` for zero).
pub open spec fn spec_decimal(n: nat) -> Seq<u8>
    decreases n,
{
    if n < 10 {
        seq![(48 + n) as u8]
    } else {
        spec_decimal(n / 10).push((48 + n % 10) as u8)
    }
}

/// The status line of a response: prefix, code, space, reason phrase, CRLF.
pub open spec fn spec_status_line(s: StatusCode) -> Seq<u8> {
    spec_status_prefix() + spec_decimal(spec_code(s) as nat) + seq![32u8] + spec_reason(s)
        + spec_crlf()
}

/// One serialized header line: `name: value` followed by CRLF.
pub open spec fn spec_header_line(h: HeaderView) -> Seq<u8> {
    h.name + seq![58u8, 32u8] + h.value + spec_crlf()
}

/// The serialized header lines, in insertion order.
pub open spec fn spec_header_block(hs: Seq<HeaderView>) -> Seq<u8>
    decreases hs.len(),
{
    if hs.len() == 0 {
        Seq::empty()
    } else {
        spec_header_block(hs.drop_last()) + spec_header_line(hs.last())
    }
}

/// The `Content-Length` line for a body of `n` bytes.
pub open spec fn spec_content_length_line(n: nat) -> Seq<u8> {
    spec_content_length_name() + seq![58u8, 32u8] + spec_decimal(n) + spec_crlf()
}

/// The full wire form of a response: status line, the headers in insertion
/// order, a Content-Length consistent with the body, a blank line, and the
/// body bytes verbatim.
pub open spec fn spec_response_bytes(status: StatusCode, headers: Seq<HeaderView>, body: Seq<u8>) -> Seq<u8> {
    spec_status_line(status) + spec_header_block(headers) + spec_content_length_line(body.len())
        + spec_crlf() + body
}

/// The decimal digits of `n`, as executable bytes.
pub fn decimal_digits(n: u64) -> (r: Vec<u8>)
    ensures
        r@ == spec_decimal(n as nat),
    decreases n,
{
    if n < 10 {
        let mut v: Vec<u8> = Vec::new();
        v.push(48 + n as u8);
        proof {
            assert(v@ =~= spec_decimal(n as nat));
        }
        v
    } else {
        let mut v = decimal_digits(n / 10);
        v.push(48 + (n % 10) as u8);
        v
    }
}

impl HttpResponse {
    /// The wire form of this response.
    pub open spec fn spec_bytes(self) -> Seq<u8> {
        spec_response_bytes(
            self.status_code,
            header_views(header_items(self.headers)),
            spec_body_bytes(self.body),
        )
    }

    /// Serialize this response, without a size bound.
    fn serialize(&self) -> (r: Vec<u8>)
        ensures
            r@ == self.spec_bytes(),
    {
        let ghost views = header_views(header_items(self.headers));
        let mut out: Vec<u8> = Vec::new();

        // Status line.
        let prefix: [u8; 9] = [72, 84, 84, 80, 47, 49, 46, 49, 32];  // "HTTP/1.1 "
        proof {
            assert(prefix@ =~= spec_status_prefix());
        }
        push_all(&mut out, prefix.as_slice());
        let code = self.status_code.code();
        let digits = decimal_digits(code as u64);
        push_all(&mut out, digits.as_slice());
        out.push(32);
        let reason = self.status_code.reason();
        push_all(&mut out, reason.as_slice());
        out.push(13);
        out.push(10);
        proof {
            assert(out@ =~= spec_status_line(self.status_code));
        }

        // Header lines, in insertion order.
        let n = header_list_len(&self.headers);
        let mut i: usize = 0;
        while i < n
            invariant
                i <= n,
                n == header_items(self.headers).len(),
                views == header_views(header_items(self.headers)),
                views.len() == n,
                out@ == spec_status_line(self.status_code) + spec_header_block(
                    views.take(i as int),
                ),
            decreases n - i,
        {
            let h = header_list_get(&self.headers, i);
            push_all(&mut out, h.name.as_slice());
            out.push(58);
            out.push(32);
            push_all(&mut out, h.value.as_slice());
            out.push(13);
            out.push(10);
            proof {
                assert(views.take(i + 1).drop_last() =~= views.take(i as int));
                assert(views.take(i + 1).last() == views[i as int]);
                assert(out@ =~= spec_status_line(self.status_code) + spec_header_block(
                    views.take(i + 1),
                ));
            }
            i = i + 1;
        }
        proof {
            assert(views.take(n as int) =~= views);
        }

        // Content-Length, blank line, body.
        let clname: [u8; 14] = [67, 111, 110, 116, 101, 110, 116, 45, 76, 101, 110, 103, 116, 104];  // "Content-Length"
        proof {
            assert(clname@ =~= spec_content_length_name());
        }
        push_all(&mut out, clname.as_slice());
        out.push(58);
        out.push(32);
        let blen: usize = match &self.body {
            ResponseBody::Empty => 0,
            ResponseBody::Text(t) => t.len(),
            ResponseBody::Bytes(t) => t.len(),
        };
        let digits = decimal_digits(blen as u64);
        push_all(&mut out, digits.as_slice());
        out.push(13);
        out.push(10);
        out.push(13);
        out.push(10);
        match &self.body {
            ResponseBody::Empty => {},
            ResponseBody::Text(t) => push_all(&mut out, t.as_slice()),
            ResponseBody::Bytes(t) => push_all(&mut out, t.as_slice()),
        }
        proof {
            assert(out@ =~= self.spec_bytes());
        }
        out
    }

    /// Serialize this response into the caller-supplied buffer, replacing
    /// its contents, unless the wire form exceeds `max_size` bytes: then the
    /// call fails closed with `Overflow` and the buffer is left exactly as
    /// it was, so that no truncated response can ever be emitted.
    pub fn build_into(&self, out: &mut Vec<u8>, max_size: usize) -> (r: Result<(), Error>)
        ensures
            self.spec_bytes().len() <= max_size ==> r is Ok && final(out)@ == self.spec_bytes(),
            self.spec_bytes().len() > max_size ==> r == Result::<(), Error>::Err(Error::Overflow)
                && final(out)@ == old(out)@,
    {
        let tmp = self.serialize();
        if tmp.len() > max_size {
            return Err(Error::Overflow);
        }
        out.clear();
        push_all(out, tmp.as_slice());
        proof {
            assert(out@ =~= self.spec_bytes());
        }
        Ok(())
    }

    /// Serialize this response into a fresh buffer of at most `max_size`
    /// bytes; fails closed with `Overflow` when the wire form is larger.
    pub fn build_bytes(&self, max_size: usize) -> (r: Result<Vec<u8>, Error>)
        ensures
            match r {
                Ok(v) => self.spec_bytes().len() <= max_size && v@ == self.spec_bytes(),
                Err(e) => e == Error::Overflow && self.spec_bytes().len() > max_size,
            },
    {
        let mut out: Vec<u8> = Vec::new();
        match self.build_into(&mut out, max_size) {
            Ok(()) => Ok(out),
            Err(e) => Err(e),
        }
    }
}

} // verus!
