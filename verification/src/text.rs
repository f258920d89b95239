//! Small operations on strings that the rest of the crate builds on.
//!
//! Strings are compared through their UTF-8 bytes; the contracts speak of
//! their characters.

use vstd::prelude::*;
use vstd::utf8::{
    decode_utf8, decode_utf8_split, encode_utf8, encode_utf8_decode_utf8, encode_utf8_valid_utf8,
    is_char_boundary, is_char_boundary_iff_not_is_continuation_byte,
    is_char_boundary_start_end_of_seq,
};

verus! {

/// `suffix` is the tail of `text`.
pub open spec fn is_suffix<T>(suffix: Seq<T>, text: Seq<T>) -> bool {
    &&& suffix.len() <= text.len()
    &&& text.subrange(text.len() - suffix.len(), text.len() as int) == suffix
}

/// The characters of an optional string.
pub open spec fn option_text(value: Option<String>) -> Option<Seq<char>> {
    match value {
        Some(text) => Some(text@),
        None => None,
    }
}

/// The characters of each string of a list.
pub open spec fn texts(values: Seq<String>) -> Seq<Seq<char>> {
    Seq::new(values.len(), |i: int| values[i]@)
}

/// The bytes of two texts one after the other are the bytes of the first
/// followed by the bytes of the second.
pub proof fn lemma_encode_concat(first: Seq<char>, second: Seq<char>)
    ensures
        encode_utf8(first + second) == encode_utf8(first) + encode_utf8(second),
    decreases first.len(),
{
    if first.len() == 0 {
        assert(first + second =~= second);
        assert(encode_utf8(first) + encode_utf8(second) =~= encode_utf8(second));
    } else {
        lemma_encode_concat(first.drop_first(), second);
        assert((first + second).drop_first() =~= first.drop_first() + second);
        assert(encode_utf8(first + second) =~= encode_utf8(first) + encode_utf8(second));
    }
}

/// A text ends with another exactly when its bytes end with the bytes of the
/// other.
pub proof fn lemma_suffix_by_bytes(suffix: Seq<char>, text: Seq<char>)
    ensures
        is_suffix(suffix, text) <==> is_suffix(encode_utf8(suffix), encode_utf8(text)),
{
    let tail = encode_utf8(suffix);
    let bytes = encode_utf8(text);
    encode_utf8_valid_utf8(suffix);
    encode_utf8_valid_utf8(text);
    encode_utf8_decode_utf8(suffix);
    encode_utf8_decode_utf8(text);
    if is_suffix(suffix, text) {
        let front = text.subrange(0, text.len() - suffix.len());
        assert(text =~= front + suffix);
        lemma_encode_concat(front, suffix);
        assert(bytes.subrange(bytes.len() - tail.len(), bytes.len() as int) =~= tail);
    }
    if is_suffix(tail, bytes) {
        let at = bytes.len() - tail.len();
        assert(is_char_boundary(bytes, at)) by {
            if tail.len() == 0 {
                is_char_boundary_start_end_of_seq(bytes);
            } else {
                is_char_boundary_start_end_of_seq(tail);
                is_char_boundary_iff_not_is_continuation_byte(tail, 0);
                assert(bytes[at] == bytes.subrange(at, bytes.len() as int)[0]);
                is_char_boundary_iff_not_is_continuation_byte(bytes, at);
            }
        }
        decode_utf8_split(bytes, at);
        let front = decode_utf8(bytes.subrange(0, at));
        assert(text =~= front + suffix);
        assert(text.subrange(text.len() - suffix.len(), text.len() as int) =~= suffix);
    }
}

/// Whether two string slices hold the same characters.
pub fn str_eq(a: &str, b: &str) -> (same: bool)
    ensures
        same == (a@ == b@),
{
    let x = a.as_bytes();
    let y = b.as_bytes();
    proof {
        encode_utf8_decode_utf8(a@);
        encode_utf8_decode_utf8(b@);
    }
    if x.len() != y.len() {
        return false;
    }
    let mut i: usize = 0;
    while i < x.len()
        invariant
            x@ == encode_utf8(a@),
            y@ == encode_utf8(b@),
            x@.len() == y@.len(),
            i <= x@.len(),
            forall|j: int| 0 <= j < i ==> x@[j] == y@[j],
        decreases x@.len() - i,
    {
        if x[i] != y[i] {
            return false;
        }
        i += 1;
    }
    assert(x@ =~= y@);
    true
}

/// Whether `text` ends with `suffix`.
pub fn ends_with(text: &str, suffix: &str) -> (ends: bool)
    ensures
        ends == is_suffix(suffix@, text@),
{
    let bytes = text.as_bytes();
    let tail = suffix.as_bytes();
    proof {
        lemma_suffix_by_bytes(suffix@, text@);
    }
    if tail.len() > bytes.len() {
        return false;
    }
    let start = bytes.len() - tail.len();
    let mut i: usize = 0;
    while i < tail.len()
        invariant
            bytes@ == encode_utf8(text@),
            tail@ == encode_utf8(suffix@),
            is_suffix(suffix@, text@) <==> is_suffix(tail@, bytes@),
            bytes@.len() <= usize::MAX,
            start + tail@.len() == bytes@.len(),
            i <= tail@.len(),
            forall|j: int| 0 <= j < i ==> bytes@[start + j] == tail@[j],
        decreases tail@.len() - i,
    {
        if bytes[start + i] != tail[i] {
            assert(bytes@.subrange(start as int, bytes@.len() as int)[i as int] != tail@[i as int]);
            return false;
        }
        i += 1;
    }
    assert(bytes@.subrange(start as int, bytes@.len() as int) =~= tail@);
    true
}

} // verus!
