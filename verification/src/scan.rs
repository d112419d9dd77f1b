//! Byte-level scanning helpers shared by the request parser: finding the
//! first CRLF pair, the first occurrence of a byte, and the end of a run of
//! spaces, each with a spec-level counterpart that the executable search is
//! proved against.

use vstd::prelude::*;

verus! {

/// Carriage return.
pub const CR: u8 = 13;
/// Line feed.
pub const LF: u8 = 10;
/// ASCII space.
pub const SP: u8 = 32;
/// ASCII colon.
pub const COLON: u8 = 58;

/// The index of the first CRLF pair at or after `i`, or -1 if there is none.
pub open spec fn spec_find_crlf(s: Seq<u8>, i: int) -> int
    decreases s.len() - i,
{
    if i < 0 || i + 2 > s.len() {
        -1
    } else if s[i] == CR && s[i + 1] == LF {
        i
    } else {
        spec_find_crlf(s, i + 1)
    }
}

/// The index of the first occurrence of `b` in `s[i..end]`, or -1 if none.
pub open spec fn spec_find_byte(s: Seq<u8>, b: u8, i: int, end: int) -> int
    decreases end - i,
{
    if i < 0 || i >= end || end > s.len() {
        -1
    } else if s[i] == b {
        i
    } else {
        spec_find_byte(s, b, i + 1, end)
    }
}

/// The index of the first byte at or after `i` that is not a space, or `end`
/// if the rest of `s[..end]` is all spaces.
pub open spec fn spec_skip_spaces(s: Seq<u8>, i: int, end: int) -> int
    decreases end - i,
{
    if i < 0 || i >= end || end > s.len() {
        i
    } else if s[i] == SP {
        spec_skip_spaces(s, i + 1, end)
    } else {
        i
    }
}

/// If no CRLF pair starts before `e`, and one starts at `e`, the search from
/// `i` finds exactly `e`.
pub proof fn lemma_find_crlf_at(s: Seq<u8>, i: int, e: int)
    requires
        0 <= i <= e,
        e + 2 <= s.len(),
        s[e] == CR,
        s[e + 1] == LF,
        forall|k: int| i <= k < e ==> !((#[trigger] s[k]) == CR && s[k + 1] == LF),
    ensures
        spec_find_crlf(s, i) == e,
    decreases e - i,
{
    if i < e {
        lemma_find_crlf_at(s, i + 1, e);
    }
}

/// If `b` does not occur in `s[i..e]` and `s[e] == b`, the search finds `e`.
pub proof fn lemma_find_byte_at(s: Seq<u8>, b: u8, i: int, end: int, e: int)
    requires
        0 <= i <= e < end <= s.len(),
        s[e] == b,
        forall|k: int| i <= k < e ==> s[k] != b,
    ensures
        spec_find_byte(s, b, i, end) == e,
    decreases e - i,
{
    if i < e {
        lemma_find_byte_at(s, b, i + 1, end, e);
    }
}

/// The first-index characterization of the space skip: if every byte in
/// `s[i..e]` is a space and either `e == end` or `s[e] != SP`, the skip
/// stops exactly at `e`.
pub proof fn lemma_skip_spaces_at(s: Seq<u8>, i: int, end: int, e: int)
    requires
        0 <= i <= e <= end <= s.len(),
        forall|k: int| i <= k < e ==> s[k] == SP,
        e == end || s[e] != SP,
    ensures
        spec_skip_spaces(s, i, end) == e,
    decreases e - i,
{
    if i < e {
        lemma_skip_spaces_at(s, i + 1, end, e);
    }
}

/// Find the first CRLF pair at or after `from`.
pub fn find_crlf(s: &[u8], from: usize) -> (r: Option<usize>)
    ensures
        match r {
            Some(e) => spec_find_crlf(s@, from as int) == e && from <= e && e + 2 <= s@.len(),
            None => spec_find_crlf(s@, from as int) == -1,
        },
{
    if s.len() < 2 {
        return None;
    }
    let mut i: usize = from;
    while i < s.len() - 1
        invariant
            from <= i,
            s@.len() >= 2,
            spec_find_crlf(s@, from as int) == spec_find_crlf(s@, i as int),
        decreases s@.len() - i,
    {
        if s[i] == CR && s[i + 1] == LF {
            return Some(i);
        }
        i = i + 1;
    }
    None
}

/// Find the first occurrence of `b` in `s[from..end]`.
pub fn find_byte(s: &[u8], b: u8, from: usize, end: usize) -> (r: Option<usize>)
    requires
        end <= s@.len(),
    ensures
        match r {
            Some(e) => spec_find_byte(s@, b, from as int, end as int) == e && from <= e && e
                < end,
            None => spec_find_byte(s@, b, from as int, end as int) == -1,
        },
{
    let mut i: usize = from;
    while i < end
        invariant
            from <= i,
            end <= s@.len(),
            spec_find_byte(s@, b, from as int, end as int) == spec_find_byte(
                s@,
                b,
                i as int,
                end as int,
            ),
        decreases end - i,
    {
        if s[i] == b {
            return Some(i);
        }
        i = i + 1;
    }
    None
}

/// Skip a run of spaces: the first index in `[from, end]` that is not a
/// space, or `end` if all of `s[from..end]` are spaces.
pub fn skip_spaces(s: &[u8], from: usize, end: usize) -> (r: usize)
    requires
        from <= end,
        end <= s@.len(),
    ensures
        r == spec_skip_spaces(s@, from as int, end as int),
        from <= r <= end,
{
    let mut i: usize = from;
    while i < end
        invariant
            from <= i <= end,
            end <= s@.len(),
            spec_skip_spaces(s@, from as int, end as int) == spec_skip_spaces(
                s@,
                i as int,
                end as int,
            ),
        decreases end - i,
    {
        if s[i] != SP {
            return i;
        }
        i = i + 1;
    }
    end
}

/// Copy `s[from..end]` into a fresh vector.
pub fn copy_range(s: &[u8], from: usize, end: usize) -> (r: Vec<u8>)
    requires
        from <= end,
        end <= s@.len(),
    ensures
        r@ == s@.subrange(from as int, end as int),
{
    let mut r: Vec<u8> = Vec::new();
    let mut i: usize = from;
    while i < end
        invariant
            from <= i <= end,
            end <= s@.len(),
            r@ == s@.subrange(from as int, i as int),
        decreases end - i,
    {
        r.push(s[i]);
        i = i + 1;
        proof {
            assert(r@ =~= s@.subrange(from as int, i as int));
        }
    }
    r
}

/// Append all of `s` to `out`.
pub fn push_all(out: &mut Vec<u8>, s: &[u8])
    ensures
        final(out)@ == old(out)@ + s@,
{
    let mut i: usize = 0;
    while i < s.len()
        invariant
            i <= s@.len(),
            out@ == old(out)@ + s@.subrange(0, i as int),
        decreases s@.len() - i,
    {
        out.push(s[i]);
        i = i + 1;
        proof {
            assert(out@ =~= old(out)@ + s@.subrange(0, i as int));
        }
    }
    proof {
        assert(old(out)@ + s@.subrange(0, s@.len() as int) =~= old(out)@ + s@);
    }
}

/// Structural byte equality of two slices.
pub fn bytes_eq(a: &[u8], b: &[u8]) -> (r: bool)
    ensures
        r == (a@ =~= b@),
{
    if a.len() != b.len() {
        return false;
    }
    let mut i: usize = 0;
    while i < a.len()
        invariant
            i <= a@.len(),
            a@.len() == b@.len(),
            forall|k: int| 0 <= k < i ==> a@[k] == b@[k],
        decreases a@.len() - i,
    {
        if a[i] != b[i] {
            return false;
        }
        i = i + 1;
    }
    true
}

} // verus!
