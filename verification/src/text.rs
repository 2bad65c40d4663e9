//! Comparing and searching texts, byte by byte.

use vstd::prelude::*;
use vstd::utf8::encode_utf8_decode_utf8;

verus! {

/// Whether two byte strings are equal.
pub fn bytes_eq(a: &[u8], b: &[u8]) -> (equal: bool)
    ensures
        equal == (a@ == b@),
{
    if a.len() != b.len() {
        return false;
    }
    let mut i: usize = 0;
    while i < a.len()
        invariant
            i <= a@.len(),
            a@.len() == b@.len(),
            a@.subrange(0, i as int) == b@.subrange(0, i as int),
        decreases a@.len() - i,
    {
        if a[i] != b[i] {
            return false;
        }
        assert(a@.subrange(0, i + 1) =~= a@.subrange(0, i as int).push(a@[i as int]));
        assert(b@.subrange(0, i + 1) =~= b@.subrange(0, i as int).push(b@[i as int]));
        i += 1;
    }
    assert(a@ =~= a@.subrange(0, i as int));
    assert(b@ =~= b@.subrange(0, i as int));
    true
}

/// A copy of the bytes `start .. end` of `source`.
pub fn copy_range(source: &[u8], start: usize, end: usize) -> (out: Vec<u8>)
    requires
        start <= end <= source@.len(),
    ensures
        out@ == source@.subrange(start as int, end as int),
{
    let mut out: Vec<u8> = Vec::new();
    let mut i: usize = start;
    while i < end
        invariant
            start <= i <= end <= source@.len(),
            out@ == source@.subrange(start as int, i as int),
        decreases end - i,
    {
        out.push(source[i]);
        i += 1;
    }
    out
}

/// Whether two texts are equal.
pub fn str_eq(a: &str, b: &str) -> (equal: bool)
    ensures
        equal == (a@ == b@),
{
    proof {
        encode_utf8_decode_utf8(a@);
        encode_utf8_decode_utf8(b@);
    }
    bytes_eq(a.as_bytes(), b.as_bytes())
}

/// Whether `pattern` occurs in `text` at the index `at`.
pub open spec fn occurs_at(text: Seq<u8>, pattern: Seq<u8>, at: int) -> bool {
    0 <= at && at + pattern.len() <= text.len() && text.subrange(at, at + pattern.len())
        == pattern
}

/// Whether `pattern` occurs somewhere in `text`.
pub open spec fn occurs_in(text: Seq<u8>, pattern: Seq<u8>) -> bool {
    exists|at: int| occurs_at(text, pattern, at)
}

/// Whether `pattern` occurs in `text` at the index `at`.
fn matches_at(text: &[u8], pattern: &[u8], at: usize) -> (b: bool)
    requires
        at + pattern@.len() <= text@.len(),
    ensures
        b == occurs_at(text@, pattern@, at as int),
{
    let len = text.len();
    let mut i: usize = 0;
    while i < pattern.len()
        invariant
            i <= pattern@.len(),
            at + pattern@.len() <= text@.len(),
            text@.len() == len,
            text@.subrange(at as int, at + i) == pattern@.subrange(0, i as int),
        decreases pattern@.len() - i,
    {
        if text[at + i] != pattern[i] {
            assert(text@.subrange(at as int, at + pattern@.len())[i as int] != pattern@[i as int]);
            return false;
        }
        assert(text@.subrange(at as int, at + i + 1) =~= text@.subrange(at as int, at + i).push(
            text@[at + i],
        ));
        assert(pattern@.subrange(0, i + 1) =~= pattern@.subrange(0, i as int).push(
            pattern@[i as int],
        ));
        i += 1;
    }
    assert(pattern@.subrange(0, i as int) =~= pattern@);
    true
}

/// Whether `pattern` occurs somewhere in `text`.
pub fn contains(text: &[u8], pattern: &[u8]) -> (b: bool)
    ensures
        b == occurs_in(text@, pattern@),
{
    if pattern.len() > text.len() {
        return false;
    }
    let last = text.len() - pattern.len();
    let mut at: usize = 0;
    while at < last
        invariant
            at <= last,
            last + pattern@.len() == text@.len(),
            forall|k: int| 0 <= k < at ==> !occurs_at(text@, pattern@, k),
        decreases last - at,
    {
        if matches_at(text, pattern, at) {
            return true;
        }
        at += 1;
    }
    matches_at(text, pattern, last)
}

/// The byte `b` with an ASCII capital letter made small.
pub open spec fn lower(b: u8) -> u8 {
    if 65 <= b <= 90 {
        (b + 32) as u8
    } else {
        b
    }
}

/// Whether `a` and `b` are the same but for the case of their ASCII letters.
pub open spec fn same_ignoring_case(a: Seq<u8>, b: Seq<u8>) -> bool {
    a.len() == b.len() && forall|i: int| 0 <= i < a.len() ==> lower(a[i]) == lower(b[i])
}

/// The byte `b` with an ASCII capital letter made small.
fn to_lower(b: u8) -> (l: u8)
    ensures
        l == lower(b),
{
    if 65 <= b && b <= 90 {
        b + 32
    } else {
        b
    }
}

/// Whether `a` and `b` are the same but for the case of their ASCII letters.
pub fn eq_ignore_ascii_case(a: &[u8], b: &[u8]) -> (equal: bool)
    ensures
        equal == same_ignoring_case(a@, b@),
{
    if a.len() != b.len() {
        return false;
    }
    let mut i: usize = 0;
    while i < a.len()
        invariant
            i <= a@.len(),
            a@.len() == b@.len(),
            forall|k: int| 0 <= k < i ==> lower(a@[k]) == lower(b@[k]),
        decreases a@.len() - i,
    {
        if to_lower(a[i]) != to_lower(b[i]) {
            return false;
        }
        i += 1;
    }
    true
}

/// `str::replace`: `text` with `to` in place of each `from`.
#[verifier::external_body]
pub(crate) fn replace_char(text: &str, from: char, to: char) -> (out: String)
    ensures
        out@ == Seq::new(
            text@.len(),
            |i: int|
                if text@[i] == from {
                    to
                } else {
                    text@[i]
                },
        ),
{
    text.replace(from, to.encode_utf8(&mut [0u8; 4]))
}

} // verus!
