//! Text helpers over UTF-8: lossy decoding of request bytes, byte-level
//! prefixes and substrings cut at character boundaries.
use vstd::prelude::*;
use vstd::utf8::*;
use vstd::string::StringSliceAdditionalSpecFns;

verus! {

broadcast use vstd::utf8::group_utf8_lib;

/// The characters that `String::from_utf8_lossy` makes of `bytes`.
pub uninterp spec fn utf8_lossy(bytes: Seq<u8>) -> Seq<char>;

/// Decodes `bytes` as UTF-8, replacing each invalid sequence by U+FFFD.
///
/// Trusted: calls std's `String::from_utf8_lossy`. The contract claims that the
/// result is a function of the bytes alone (`utf8_lossy`) and, as std documents,
/// that well-formed UTF-8 comes back decoded unchanged. What the replacement does
/// to malformed input is left unsaid.
#[verifier::external_body]
pub(crate) fn decode_lossy(bytes: &[u8]) -> (s: String)
    ensures
        s@ == utf8_lossy(bytes@),
        valid_utf8(bytes@) ==> s@ == decode_utf8(bytes@),
{
    String::from_utf8_lossy(bytes).into_owned()
}

/// `prefix` is the beginning of `bytes`.
pub open spec fn has_prefix(bytes: Seq<u8>, prefix: Seq<u8>) -> bool {
    prefix.len() <= bytes.len() && bytes.subrange(0, prefix.len() as int) == prefix
}

/// Whether `bytes` begins with `prefix`.
pub fn starts_with(bytes: &[u8], prefix: &[u8]) -> (r: bool)
    ensures
        r == has_prefix(bytes@, prefix@),
{
    if prefix.len() > bytes.len() {
        return false;
    }
    let mut i: usize = 0;
    while i < prefix.len()
        invariant
            prefix@.len() <= bytes@.len(),
            i <= prefix@.len(),
            forall|j: int| 0 <= j < i ==> bytes@[j] == prefix@[j],
        decreases prefix@.len() - i,
    {
        if bytes[i] != prefix[i] {
            assert(bytes@.subrange(0, prefix@.len() as int)[i as int] != prefix@[i as int]);
            return false;
        }
        i = i + 1;
    }
    assert(bytes@.subrange(0, prefix@.len() as int) =~= prefix@);
    true
}

/// A character boundary of valid UTF-8 stays one, shifted, in any suffix that
/// starts at a character boundary.
pub proof fn lemma_boundary_in_suffix(bytes: Seq<u8>, start: int, index: int)
    requires
        valid_utf8(bytes),
        0 <= start <= index <= bytes.len(),
        is_char_boundary(bytes, start),
        is_char_boundary(bytes, index),
    ensures
        valid_utf8(bytes.subrange(start, bytes.len() as int)),
        is_char_boundary(bytes.subrange(start, bytes.len() as int), index - start),
{
    let tail = bytes.subrange(start, bytes.len() as int);
    valid_utf8_split(bytes, start);
    if index == bytes.len() {
        is_char_boundary_start_end_of_seq(tail);
    } else {
        is_char_boundary_iff_not_is_continuation_byte(bytes, index);
        is_char_boundary_iff_not_is_continuation_byte(tail, index - start);
    }
}

/// The text of `s` between byte offsets `start` and `end` (`&s[start..end]`).
pub fn substring(s: &str, start: usize, end: usize) -> (r: String)
    requires
        start <= end <= s.spec_bytes().len(),
        is_char_boundary(s.spec_bytes(), start as int),
        is_char_boundary(s.spec_bytes(), end as int),
    ensures
        r@ == decode_utf8(s.spec_bytes().subrange(start as int, end as int)),
{
    let ghost bytes = s.spec_bytes();
    proof {
        lemma_boundary_in_suffix(bytes, start as int, end as int);
    }
    let (_, tail) = s.split_at(start);
    let (middle, _) = tail.split_at(end - start);
    proof {
        assert(middle.spec_bytes() =~= bytes.subrange(start as int, end as int));
    }
    middle.to_owned()
}

} // verus!
