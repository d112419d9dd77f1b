//! The closed set of HTTP status codes the engine can emit, with their
//! numeric codes and standard HTTP/1.1 reason phrases (as ASCII byte
//! values).

use vstd::prelude::*;

verus! {

/// A status code of the closed enumeration used in response status lines.
#[derive(Clone, Copy, Debug, PartialEq, Eq, Structural)]
pub enum StatusCode {
    Okay,
    Created,
    NoContent,
    BadRequest,
    Unauthorized,
    Forbidden,
    NotFound,
    MethodNotAllowed,
    InternalServerError,
    NotImplemented,
    ServiceUnavailable,
}

/// The numeric code of a status.
pub open spec fn spec_code(s: StatusCode) -> int {
    match s {
        StatusCode::Okay => 200,
        StatusCode::Created => 201,
        StatusCode::NoContent => 204,
        StatusCode::BadRequest => 400,
        StatusCode::Unauthorized => 401,
        StatusCode::Forbidden => 403,
        StatusCode::NotFound => 404,
        StatusCode::MethodNotAllowed => 405,
        StatusCode::InternalServerError => 500,
        StatusCode::NotImplemented => 501,
        StatusCode::ServiceUnavailable => 503,
    }
}

/// The standard reason phrase of a status, as ASCII bytes.
pub open spec fn spec_reason(s: StatusCode) -> Seq<u8> {
    match s {
        StatusCode::Okay => seq![79u8, 75u8],  // "OK"
        StatusCode::Created => seq![67u8, 114u8, 101u8, 97u8, 116u8, 101u8, 100u8],  // "Created"
        StatusCode::NoContent => seq![78u8, 111u8, 32u8, 67u8, 111u8, 110u8, 116u8, 101u8, 110u8, 116u8],  // "No Content"
        StatusCode::BadRequest => seq![66u8, 97u8, 100u8, 32u8, 82u8, 101u8, 113u8, 117u8, 101u8, 115u8, 116u8],  // "Bad Request"
        StatusCode::Unauthorized => seq![85u8, 110u8, 97u8, 117u8, 116u8, 104u8, 111u8, 114u8, 105u8, 122u8, 101u8, 100u8],  // "Unauthorized"
        StatusCode::Forbidden => seq![70u8, 111u8, 114u8, 98u8, 105u8, 100u8, 100u8, 101u8, 110u8],  // "Forbidden"
        StatusCode::NotFound => seq![78u8, 111u8, 116u8, 32u8, 70u8, 111u8, 117u8, 110u8, 100u8],  // "Not Found"
        StatusCode::MethodNotAllowed => seq![77u8, 101u8, 116u8, 104u8, 111u8, 100u8, 32u8, 78u8, 111u8, 116u8, 32u8, 65u8, 108u8, 108u8, 111u8, 119u8, 101u8, 100u8],  // "Method Not Allowed"
        StatusCode::InternalServerError => seq![73u8, 110u8, 116u8, 101u8, 114u8, 110u8, 97u8, 108u8, 32u8, 83u8, 101u8, 114u8, 118u8, 101u8, 114u8, 32u8, 69u8, 114u8, 114u8, 111u8, 114u8],  // "Internal Server Error"
        StatusCode::NotImplemented => seq![78u8, 111u8, 116u8, 32u8, 73u8, 109u8, 112u8, 108u8, 101u8, 109u8, 101u8, 110u8, 116u8, 101u8, 100u8],  // "Not Implemented"
        StatusCode::ServiceUnavailable => seq![83u8, 101u8, 114u8, 118u8, 105u8, 99u8, 101u8, 32u8, 85u8, 110u8, 97u8, 118u8, 97u8, 105u8, 108u8, 97u8, 98u8, 108u8, 101u8],  // "Service Unavailable"
    }
}

impl StatusCode {
    /// The numeric code, e.g. 200 for `Okay`.
    pub fn code(&self) -> (r: u16)
        ensures
            r as int == spec_code(*self),
    {
        match self {
            StatusCode::Okay => 200,
            StatusCode::Created => 201,
            StatusCode::NoContent => 204,
            StatusCode::BadRequest => 400,
            StatusCode::Unauthorized => 401,
            StatusCode::Forbidden => 403,
            StatusCode::NotFound => 404,
            StatusCode::MethodNotAllowed => 405,
            StatusCode::InternalServerError => 500,
            StatusCode::NotImplemented => 501,
            StatusCode::ServiceUnavailable => 503,
        }
    }

    /// The standard reason phrase, as ASCII bytes.
    pub fn reason(&self) -> (r: Vec<u8>)
        ensures
            r@ == spec_reason(*self),
    {
        let mut r: Vec<u8> = Vec::new();
        match self {
            StatusCode::Okay => {  // "OK"
                r.push(79);
                r.push(75);
            },
            StatusCode::Created => {  // "Created"
                r.push(67);
                r.push(114);
                r.push(101);
                r.push(97);
                r.push(116);
                r.push(101);
                r.push(100);
            },
            StatusCode::NoContent => {  // "No Content"
                r.push(78);
                r.push(111);
                r.push(32);
                r.push(67);
                r.push(111);
                r.push(110);
                r.push(116);
                r.push(101);
                r.push(110);
                r.push(116);
            },
            StatusCode::BadRequest => {  // "Bad Request"
                r.push(66);
                r.push(97);
                r.push(100);
                r.push(32);
                r.push(82);
                r.push(101);
                r.push(113);
                r.push(117);
                r.push(101);
                r.push(115);
                r.push(116);
            },
            StatusCode::Unauthorized => {  // "Unauthorized"
                r.push(85);
                r.push(110);
                r.push(97);
                r.push(117);
                r.push(116);
                r.push(104);
                r.push(111);
                r.push(114);
                r.push(105);
                r.push(122);
                r.push(101);
                r.push(100);
            },
            StatusCode::Forbidden => {  // "Forbidden"
                r.push(70);
                r.push(111);
                r.push(114);
                r.push(98);
                r.push(105);
                r.push(100);
                r.push(100);
                r.push(101);
                r.push(110);
            },
            StatusCode::NotFound => {  // "Not Found"
                r.push(78);
                r.push(111);
                r.push(116);
                r.push(32);
                r.push(70);
                r.push(111);
                r.push(117);
                r.push(110);
                r.push(100);
            },
            StatusCode::MethodNotAllowed => {  // "Method Not Allowed"
                r.push(77);
                r.push(101);
                r.push(116);
                r.push(104);
                r.push(111);
                r.push(100);
                r.push(32);
                r.push(78);
                r.push(111);
                r.push(116);
                r.push(32);
                r.push(65);
                r.push(108);
                r.push(108);
                r.push(111);
                r.push(119);
                r.push(101);
                r.push(100);
            },
            StatusCode::InternalServerError => {  // "Internal Server Error"
                r.push(73);
                r.push(110);
                r.push(116);
                r.push(101);
                r.push(114);
                r.push(110);
                r.push(97);
                r.push(108);
                r.push(32);
                r.push(83);
                r.push(101);
                r.push(114);
                r.push(118);
                r.push(101);
                r.push(114);
                r.push(32);
                r.push(69);
                r.push(114);
                r.push(114);
                r.push(111);
                r.push(114);
            },
            StatusCode::NotImplemented => {  // "Not Implemented"
                r.push(78);
                r.push(111);
                r.push(116);
                r.push(32);
                r.push(73);
                r.push(109);
                r.push(112);
                r.push(108);
                r.push(101);
                r.push(109);
                r.push(101);
                r.push(110);
                r.push(116);
                r.push(101);
                r.push(100);
            },
            StatusCode::ServiceUnavailable => {  // "Service Unavailable"
                r.push(83);
                r.push(101);
                r.push(114);
                r.push(118);
                r.push(105);
                r.push(99);
                r.push(101);
                r.push(32);
                r.push(85);
                r.push(110);
                r.push(97);
                r.push(118);
                r.push(97);
                r.push(105);
                r.push(108);
                r.push(97);
                r.push(98);
                r.push(108);
                r.push(101);
            },
        }
        proof {
            assert(r@ =~= spec_reason(*self));
        }
        r
    }
}

} // verus!
