//! Name/value header pairs with a bounded-count list. The list is a
//! fixed-capacity `heapless::Vec`, kept behind trusted wrappers whose
//! contracts speak of the list's contents as a `Seq`.

use crate::MAX_HEADERS;
use vstd::prelude::*;

verus! {

/// The mathematical value of a header: its name and value as byte sequences.
pub struct HeaderView {
    pub name: Seq<u8>,
    pub value: Seq<u8>,
}

/// One HTTP header: a name and a value, as bounded byte copies.
#[derive(Debug)]
pub struct HttpHeader {
    pub name: Vec<u8>,
    pub value: Vec<u8>,
}

impl View for HttpHeader {
    type V = HeaderView;

    open spec fn view(&self) -> HeaderView {
        HeaderView { name: self.name@, value: self.value@ }
    }
}

impl HttpHeader {
    /// A header is well formed when its name is non-empty.
    pub open spec fn wf(self) -> bool {
        self.name@.len() > 0
    }

    /// Build a header from a name and a value. The name must be non-empty.
    pub fn new(name: Vec<u8>, value: Vec<u8>) -> (r: HttpHeader)
        requires
            name@.len() > 0,
        ensures
            r == (HttpHeader { name: name, value: value }),
            r@.name == name@,
            r@.value == value@,
            r.wf(),
    {
        HttpHeader { name, value }
    }
}

#[verifier::external_type_specification]
#[verifier::external_body]
#[verifier::reject_recursive_types(T)]
pub struct ExHeaplessVec<T, const N: usize>(heapless::Vec<T, N>);

/// The contents of a bounded header list, oldest first.
pub uninterp spec fn header_items(v: heapless::Vec<HttpHeader, MAX_HEADERS>) -> Seq<HttpHeader>;

/// Relies on heapless::Vec::new: a freshly constructed vector holds nothing.
#[verifier::external_body]
pub(crate) fn header_list_new() -> (r: heapless::Vec<HttpHeader, MAX_HEADERS>)
    ensures
        header_items(r) == Seq::<HttpHeader>::empty(),
{
    heapless::Vec::new()
}

/// Relies on heapless::Vec::push: appends when the length is below the
/// capacity `N`, and returns the item unchanged in `Err` when the vector is
/// full, leaving it untouched.
#[verifier::external_body]
pub(crate) fn header_list_push(v: &mut heapless::Vec<HttpHeader, MAX_HEADERS>, h: HttpHeader) -> (r:
    Result<(), HttpHeader>)
    ensures
        (match r {
            Ok(u) => u == () && header_items(*old(v)).len() < MAX_HEADERS && header_items(
                *final(v),
            ) == header_items(*old(v)).push(h),
            Err(x) => x == h && header_items(*old(v)).len() >= MAX_HEADERS && header_items(
                *final(v),
            ) == header_items(*old(v)),
        }),
{
    v.push(h)
}

/// Relies on heapless::Vec::len: the number of items the vector holds.
#[verifier::external_body]
pub(crate) fn header_list_len(v: &heapless::Vec<HttpHeader, MAX_HEADERS>) -> (r: usize)
    ensures
        r == header_items(*v).len(),
{
    v.len()
}

/// Relies on the slice indexing that heapless::Vec derefs to: the item at
/// position `i`.
#[verifier::external_body]
pub(crate) fn header_list_get(v: &heapless::Vec<HttpHeader, MAX_HEADERS>, i: usize) -> (r: &HttpHeader)
    requires
        i < header_items(*v).len(),
    ensures
        *r == header_items(*v)[i as int],
{
    &v[i]
}

/// The views of a list of headers, in order.
pub open spec fn header_views(hs: Seq<HttpHeader>) -> Seq<HeaderView> {
    hs.map_values(|h: HttpHeader| h@)
}

} // verus!
