//! Text conversions at the native boundary.
//!
//! The platform speaks null-terminated UTF-16 for names and titles, and the
//! driver hands diagnostic text back as bytes that are not guaranteed to be
//! valid UTF-8.

use vstd::prelude::*;

verus! {

/// Whether every character of a sequence is ASCII.
pub open spec fn all_ascii_chars(s: Seq<char>) -> bool {
    forall|i: int| 0 <= i < s.len() ==> (s[i] as u32) < 128
}

/// Whether every byte of a sequence is ASCII.
pub open spec fn all_ascii_bytes(bytes: Seq<u8>) -> bool {
    forall|i: int| 0 <= i < bytes.len() ==> bytes[i] < 128
}

/// What the UTF-16 encoding of a character sequence is.
pub uninterp spec fn utf16_of(s: Seq<char>) -> Seq<u16>;

/// Relies on `str::encode_utf16`: the code units depend on the characters
/// alone; ASCII characters encode to one code unit each with the same value.
#[verifier::external_body]
fn utf16_units(s: &str) -> (r: Vec<u16>)
    ensures
        r@ == utf16_of(s@),
        s@.len() == 0 ==> r@.len() == 0,
        all_ascii_chars(s@) ==> r@.len() == s@.len(),
        all_ascii_chars(s@) ==> forall|i: int| 0 <= i < s@.len() ==> r@[i] as u32 == s@[i] as u32,
{
    s.encode_utf16().collect()
}

/// Turns a string slice into a null-terminated UTF-16 vector.
pub fn wide_null(s: &str) -> (r: Vec<u16>)
    ensures
        r@ == utf16_of(s@).push(0u16),
        r@.len() >= 1,
        r@[r@.len() - 1] == 0u16,
{
    let mut v = utf16_units(s);
    v.push(0);
    v
}

/// Takes the bytes before the first zero byte.
///
/// The output excludes the zero byte itself; if no byte is zero, the whole
/// input is returned.
pub fn gather_null_terminated_bytes(bytes: &Vec<u8>) -> (r: Vec<u8>)
    ensures
        r@.len() <= bytes@.len(),
        r@ =~= bytes@.take(r@.len() as int),
        forall|i: int| 0 <= i < r@.len() ==> bytes@[i] != 0,
        r@.len() < bytes@.len() ==> bytes@[r@.len() as int] == 0,
{
    let mut v: Vec<u8> = Vec::new();
    let mut i: usize = 0;
    while i < bytes.len()
        invariant
            i <= bytes@.len(),
            v@ =~= bytes@.take(i as int),
            forall|j: int| 0 <= j < i ==> bytes@[j] != 0,
        decreases bytes@.len() - i,
    {
        let b = bytes[i];
        if b == 0 {
            return v;
        }
        v.push(b);
        proof {
            assert(v@ =~= bytes@.take(i + 1 as int));
        }
        i = i + 1;
    }
    v
}

/// What the lossy UTF-8 decoding of a byte sequence reads as.
pub uninterp spec fn utf8_lossy_of(bytes: Seq<u8>) -> Seq<char>;

/// Relies on `String::from_utf8_lossy`: decodes UTF-8, replacing invalid
/// sequences with the replacement character; the result depends on the bytes
/// alone, and ASCII bytes decode to their own characters.
#[verifier::external_body]
fn utf8_lossy(bytes: &Vec<u8>) -> (r: String)
    ensures
        r@ == utf8_lossy_of(bytes@),
        bytes@.len() == 0 ==> r@.len() == 0,
        all_ascii_bytes(bytes@) ==> r@.len() == bytes@.len(),
        all_ascii_bytes(bytes@) ==> forall|i: int| 0 <= i < bytes@.len() ==> r@[i] as u32
            == bytes@[i] as u32,
{
    String::from_utf8_lossy(bytes).into_owned()
}

/// Converts driver-produced bytes into text for humans, replacing invalid
/// UTF-8 sequences rather than failing: diagnostic text is advisory only.
pub fn min_alloc_lossy_into_string(bytes: Vec<u8>) -> (r: String)
    ensures
        r@ == utf8_lossy_of(bytes@),
        bytes@.len() == 0 ==> r@.len() == 0,
{
    utf8_lossy(&bytes)
}

/// Whether `needle` stands in `haystack` beginning at position `pos`.
pub open spec fn spec_contains_at(haystack: Seq<char>, needle: Seq<char>, pos: int) -> bool {
    &&& 0 <= pos
    &&& pos + needle.len() <= haystack.len()
    &&& haystack.subrange(pos, pos + needle.len()) == needle
}

/// Whether `needle` stands anywhere in `haystack`.
pub open spec fn spec_contains(haystack: Seq<char>, needle: Seq<char>) -> bool {
    exists|pos: int| spec_contains_at(haystack, needle, pos)
}

/// Whether `needle` stands in `haystack` at this one position.
fn matches_at(haystack: &str, needle: &str, pos: usize, hl: usize, nl: usize) -> (r: bool)
    requires
        hl == haystack@.len(),
        nl == needle@.len(),
        pos + nl <= hl,
    ensures
        r == spec_contains_at(haystack@, needle@, pos as int),
{
    let mut j: usize = 0;
    while j < nl
        invariant
            hl == haystack@.len(),
            nl == needle@.len(),
            pos + nl <= hl,
            j <= nl,
            forall|q: int| 0 <= q < j ==> haystack@[pos + q] == needle@[q],
        decreases nl - j,
    {
        let hc = haystack.get_char(pos + j);
        let nc = needle.get_char(j);
        if hc != nc {
            proof {
                if spec_contains_at(haystack@, needle@, pos as int) {
                    assert(haystack@.subrange(pos as int, pos as int + nl as int)[j as int]
                        == needle@[j as int]);
                }
            }
            return false;
        }
        j = j + 1;
    }
    proof {
        assert(haystack@.subrange(pos as int, pos as int + nl as int) =~= needle@);
    }
    true
}

/// Whether one string contains another, as the extension-string membership
/// tests need it.
pub fn contains_substring(haystack: &str, needle: &str) -> (r: bool)
    ensures
        r == spec_contains(haystack@, needle@),
{
    let hl = haystack.unicode_len();
    let nl = needle.unicode_len();
    if nl == 0 {
        proof {
            assert(haystack@.subrange(0, 0) =~= needle@);
            assert(spec_contains_at(haystack@, needle@, 0));
        }
        return true;
    }
    if nl > hl {
        return false;
    }
    let mut pos: usize = 0;
    while pos <= hl - nl
        invariant
            0 < nl <= hl,
            hl == haystack@.len(),
            nl == needle@.len(),
            pos <= hl - nl + 1,
            forall|p: int| 0 <= p < pos ==> !spec_contains_at(haystack@, needle@, p),
        decreases hl - nl + 1 - pos,
    {
        if matches_at(haystack, needle, pos, hl, nl) {
            return true;
        }
        pos = pos + 1;
    }
    proof {
        assert forall|p: int| !spec_contains_at(haystack@, needle@, p) by {
            if 0 <= p && p + needle@.len() <= haystack@.len() {
                assert(p < pos);
            }
        }
    }
    false
}

} // verus!
