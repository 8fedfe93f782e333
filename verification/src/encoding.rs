//! Spec-level helpers relating character sequences to their UTF-8 encoding,
//! and a verified textual equality test.
//!
//! Positional operations on the owned wrapper (insert, remove, split) take
//! byte offsets, while the wrapper's view is a sequence of characters. The
//! functions here name the two character sequences that a byte offset cuts a
//! text into, and prove the facts about them that those operations need.

use vstd::prelude::*;
use vstd::utf8::decode_utf8;
use vstd::utf8::decode_utf8_encode_utf8;
use vstd::utf8::encode_utf8;
use vstd::utf8::encode_utf8_decode_utf8;
use vstd::utf8::encode_utf8_valid_utf8;
use vstd::utf8::decode_utf8_split;
use vstd::utf8::valid_utf8_split;
use vstd::utf8::is_char_boundary;
use vstd::utf8::length_of_first_scalar;
use vstd::utf8::pop_first_scalar;
use vstd::utf8::valid_utf8;
use vstd::utf8::is_ascii_chars;
use vstd::utf8::is_ascii_chars_encode_utf8;
use vstd::utf8::is_ascii_chars_nat_bound;
use vstd::utf8::is_leading_byte_width_1;

verus! {

/// True when `c` lies in the US-ASCII range (code point at most 0x7f).
pub open spec fn char_is_ascii(c: char) -> bool {
    '\0' <= c <= '\u{7f}'
}

/// The characters of `s` whose encoding lies before byte offset `at`.
pub open spec fn prefix_chars(s: Seq<char>, at: int) -> Seq<char> {
    decode_utf8(encode_utf8(s).subrange(0, at))
}

/// The characters of `s` whose encoding lies at or after byte offset `at`.
pub open spec fn suffix_chars(s: Seq<char>, at: int) -> Seq<char> {
    decode_utf8(encode_utf8(s).subrange(at, encode_utf8(s).len() as int))
}

/// The UTF-8 encoding of a concatenation is the concatenation of the
/// encodings. In particular, appending text appends bytes.
pub proof fn lemma_encode_utf8_concat(a: Seq<char>, b: Seq<char>)
    ensures
        encode_utf8(a + b) == encode_utf8(a) + encode_utf8(b),
    decreases a.len(),
{
    if a.len() == 0 {
        assert(a + b =~= b);
        assert(encode_utf8(a) + encode_utf8(b) =~= encode_utf8(b));
    } else {
        lemma_encode_utf8_concat(a.drop_first(), b);
        assert((a + b).drop_first() =~= a.drop_first() + b);
        assert(encode_utf8(a + b) =~= encode_utf8(a) + encode_utf8(b));
    }
}

/// Unwrapping a wrapper into its plain buffer and re-wrapping that buffer
/// unchecked reproduces the same bytes: each step preserves the character
/// content, and equal content encodes to equal bytes.
pub proof fn lemma_rewrap_reproduces_bytes(wrapped: Seq<char>, plain: Seq<char>, again: Seq<char>)
    requires
        plain == wrapped,
        again == plain,
    ensures
        again == wrapped,
        encode_utf8(again) == encode_utf8(wrapped),
{
}

/// Splitting a text's UTF-8 encoding at a character boundary cuts its
/// character sequence in two: the whole text is the prefix before the
/// boundary followed by the suffix after it, and each part encodes back to
/// exactly its half of the bytes.
pub proof fn lemma_split_chars_at_boundary(s: Seq<char>, at: int)
    requires
        is_char_boundary(encode_utf8(s), at),
    ensures
        s == prefix_chars(s, at) + suffix_chars(s, at),
        encode_utf8(prefix_chars(s, at)) == encode_utf8(s).subrange(0, at),
        encode_utf8(suffix_chars(s, at)) == encode_utf8(s).subrange(
            at,
            encode_utf8(s).len() as int,
        ),
{
    let bytes = encode_utf8(s);
    encode_utf8_valid_utf8(s);
    encode_utf8_decode_utf8(s);
    valid_utf8_split(bytes, at);
    decode_utf8_split(bytes, at);
    decode_utf8_encode_utf8(bytes.subrange(0, at));
    decode_utf8_encode_utf8(bytes.subrange(at, bytes.len() as int));
}

/// In ASCII-only content, characters and bytes coincide one to one, so every
/// byte offset up to the length lies on a character boundary: all positional
/// operations are available at every index while the soft constraint holds.
pub proof fn lemma_ascii_every_offset_is_boundary(s: Seq<char>, at: int)
    requires
        is_ascii_chars(s),
        0 <= at <= s.len(),
    ensures
        encode_utf8(s).len() == s.len(),
        is_char_boundary(encode_utf8(s), at),
    decreases at,
{
    is_ascii_chars_encode_utf8(s);
    is_ascii_chars_nat_bound(s);
    encode_utf8_valid_utf8(s);
    let bytes = encode_utf8(s);
    if at == 0 {
        assert(is_char_boundary(bytes, 0));
    } else {
        assert(is_leading_byte_width_1(bytes[0]));
        assert(length_of_first_scalar(bytes) == 1);
        let tail = s.drop_first();
        assert(is_ascii_chars(tail));
        lemma_ascii_every_offset_is_boundary(tail, at - 1);
        assert(pop_first_scalar(bytes) =~= encode_utf8(tail));
        assert(is_char_boundary(bytes, at));
    }
}

/// The characters of `s` whose encoding lies between byte offsets `from`
/// (inclusive) and `to` (exclusive).
pub open spec fn range_chars(s: Seq<char>, from: int, to: int) -> Seq<char> {
    decode_utf8(encode_utf8(s).subrange(from, to))
}

/// A character boundary before another character boundary is still a
/// character boundary of the prefix cut at the second one.
pub proof fn lemma_char_boundary_in_prefix(bytes: Seq<u8>, from: int, to: int)
    requires
        valid_utf8(bytes),
        is_char_boundary(bytes, from),
        is_char_boundary(bytes, to),
        from <= to,
    ensures
        is_char_boundary(bytes.subrange(0, to), from),
    decreases bytes.len(),
{
    reveal_with_fuel(is_char_boundary, 2);
    assert(0 <= to <= bytes.len());
    valid_utf8_split(bytes, to);
    if from == 0 {
        assert(is_char_boundary(bytes.subrange(0, to), 0));
    } else {
        assert(0 < from <= to <= bytes.len());
        let len = length_of_first_scalar(bytes);
        let tail = pop_first_scalar(bytes);
        assert(valid_utf8(tail));
        assert(is_char_boundary(tail, from - len));
        assert(from >= len);
        let cut = bytes.subrange(0, to);
        assert(valid_utf8(cut));
        assert(length_of_first_scalar(cut) == len);
        lemma_char_boundary_in_prefix(tail, from - len, to - len);
        assert(pop_first_scalar(cut) =~= tail.subrange(0, to - len));
        assert(is_char_boundary(cut, from));
    }
}

/// Compares two byte slices for element-wise equality.
pub(crate) fn bytes_eq(a: &[u8], b: &[u8]) -> (r: bool)
    ensures
        r == (a@ == b@),
{
    if a.len() != b.len() {
        return false;
    }
    let n: usize = a.len();
    let mut i: usize = 0;
    while i < n
        invariant
            n == a@.len(),
            a@.len() == b@.len(),
            0 <= i <= n,
            forall|j: int| 0 <= j < i ==> a@[j] == b@[j],
        decreases n - i,
    {
        if a[i] != b[i] {
            return false;
        }
        i = i + 1;
    }
    proof {
        assert(a@ =~= b@);
    }
    true
}

/// Compares two string slices for textual equality, character by character.
pub fn str_eq(a: &str, b: &str) -> (r: bool)
    ensures
        r == (a@ == b@),
{
    let r = bytes_eq(a.as_bytes(), b.as_bytes());
    proof {
        if encode_utf8(a@) == encode_utf8(b@) {
            encode_utf8_decode_utf8(a@);
            encode_utf8_decode_utf8(b@);
        }
    }
    r
}

} // verus!
