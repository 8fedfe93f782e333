//! An owned, growable string tagged as "expected US-ASCII".

use vstd::prelude::*;
use vstd::string::StrSliceExecFns;
use vstd::string::StringExecFns;
use vstd::string::StringExecFnsIsAscii;
use vstd::utf8::encode_utf8;
use vstd::utf8::encode_utf8_decode_utf8;
use vstd::utf8::is_ascii_chars;
use vstd::utf8::is_char_boundary;

use crate::encoding::lemma_char_boundary_in_prefix;
use crate::encoding::lemma_split_chars_at_boundary;
use crate::encoding::prefix_chars;
use crate::encoding::range_chars;
use crate::encoding::str_eq;
use crate::encoding::suffix_chars;
use crate::error::FromSourceError;
use crate::error::StringFromStrError;
use crate::soft_char::SoftAsciiChar;
use crate::soft_str::SoftAsciiStr;

verus! {

/// Relies on `String::with_capacity`: creates a new, empty `String` with at
/// least the given capacity.
pub assume_specification[ String::with_capacity ](capacity: usize) -> (r: String)
    ensures
        r@ == Seq::<char>::empty(),
;

/// Relies on `String::push`: appends the given character to the end of the
/// string.
pub assume_specification[ String::push ](s: &mut String, ch: char)
    ensures
        final(s)@ == old(s)@.push(ch),
;

/// Relies on `String::pop`: removes the last character from the string and
/// returns it, or returns `None` when the string is empty.
pub assume_specification[ String::pop ](s: &mut String) -> (r: Option<char>)
    ensures
        old(s)@.len() == 0 ==> r is None && final(s)@ == old(s)@,
        old(s)@.len() > 0 ==> r == Some(old(s)@.last()) && final(s)@ == old(s)@.drop_last(),
;

/// Relies on `String::into_bytes`: consumes the string and returns its UTF-8
/// bytes as a vector.
pub assume_specification[ String::into_bytes ](s: String) -> (r: Vec<u8>)
    ensures
        r@ == encode_utf8(s@),
;

/// Relies on `String::into_boxed_str`: consumes the string and returns a
/// boxed slice of the same text.
pub assume_specification[ String::into_boxed_str ](s: String) -> (r: Box<str>)
    ensures
        r@ == s@,
;

/// Relies on `String::capacity`: returns the buffer's capacity in bytes,
/// which is never less than its length.
pub assume_specification[ String::capacity ](s: &String) -> (r: usize)
    ensures
        encode_utf8(s@).len() <= r as nat,
;

/// Relies on `String::reserve`: grows the capacity without changing the
/// content.
pub assume_specification[ String::reserve ](s: &mut String, additional: usize)
    ensures
        final(s)@ == old(s)@,
;

/// Relies on `String::reserve_exact`: grows the capacity without changing
/// the content.
pub assume_specification[ String::reserve_exact ](s: &mut String, additional: usize)
    ensures
        final(s)@ == old(s)@,
;

/// Relies on `String::shrink_to_fit`: drops excess capacity without changing
/// the content.
pub assume_specification[ String::shrink_to_fit ](s: &mut String)
    ensures
        final(s)@ == old(s)@,
;

/// A `String` wrapper with an additional "is us-ascii" soft constraint.
///
/// The constraint is *soft*: it is expected, not enforced. Checked
/// construction validates the whole source; unchecked construction and
/// direct access to the inner buffer may leave non-ASCII content behind,
/// and [`SoftAsciiString::revalidate_soft_constraint`] is the way to regain
/// confidence afterwards.
#[derive(Debug, Clone, Eq, PartialOrd, Ord, Hash)]
pub struct SoftAsciiString(String);

impl View for SoftAsciiString {
    type V = Seq<char>;

    closed spec fn view(&self) -> Seq<char> {
        self.0@
    }
}

impl SoftAsciiString {
    /// Wraps an owned string without validating it; the caller takes
    /// responsibility for the soft constraint.
    pub fn from_unchecked(s: String) -> (r: Self)
        ensures
            r@ == s@,
    {
        SoftAsciiString(s)
    }

    /// Wraps an owned string after validating every character, failing if
    /// and only if some character lies outside the US-ASCII range; the error
    /// returns the unmodified source to the caller.
    pub fn from_string(source: String) -> (r: Result<Self, FromSourceError<String>>)
        ensures
            r is Ok <==> is_ascii_chars(source@),
            r matches Ok(s) ==> s@ == source@,
            r matches Err(e) ==> e.source_spec() == source && e.source_spec()@ == source@,
    {
        if source.is_ascii() {
            Ok(SoftAsciiString(source))
        } else {
            Err(FromSourceError::new(source))
        }
    }

    /// Validates a plain string slice and copies it into a new wrapper,
    /// failing if and only if some character lies outside the US-ASCII
    /// range. This is the parsing entry point; the error carries no payload.
    pub fn from_text(s: &str) -> (r: Result<Self, StringFromStrError>)
        ensures
            r is Ok <==> is_ascii_chars(s@),
            r matches Ok(w) ==> w@ == s@,
    {
        if s.is_ascii() {
            Ok(SoftAsciiString(String::from_str(s)))
        } else {
            Err(StringFromStrError)
        }
    }

    /// An empty wrapper; vacuously US-ASCII.
    pub fn new() -> (r: Self)
        ensures
            r@ == Seq::<char>::empty(),
    {
        SoftAsciiString(String::new())
    }

    /// An empty wrapper whose buffer pre-reserves the given capacity.
    pub fn with_capacity(cap: usize) -> (r: Self)
        ensures
            r@ == Seq::<char>::empty(),
    {
        SoftAsciiString(String::with_capacity(cap))
    }

    /// Re-scans the whole current buffer. On success the wrapper is handed
    /// back re-affirmed; on failure the raw buffer is returned, untagged and
    /// unchanged, so the caller regains a plain value.
    pub fn revalidate_soft_constraint(self) -> (r: Result<SoftAsciiString, String>)
        ensures
            r is Ok <==> is_ascii_chars(self@),
            r matches Ok(s) ==> s@ == self@,
            r matches Err(raw) ==> raw@ == self@,
    {
        if self.0.is_ascii() {
            Ok(self)
        } else {
            Err(self.0)
        }
    }

    /// Borrows the inner plain string.
    pub fn inner_string(&self) -> (r: &String)
        ensures
            r@ == self@,
    {
        &self.0
    }

    /// Mutably borrows the inner plain string. This is the sanctioned escape
    /// hatch: writing through the returned reference may break the soft
    /// constraint, which only revalidation can re-affirm.
    pub fn inner_string_mut(&mut self) -> (r: &mut String)
        ensures
            r@ == old(self)@,
            final(self)@ == final(r)@,
    {
        &mut self.0
    }

    /// Appends a checked-typed character; total, no re-validation.
    pub fn push(&mut self, ch: SoftAsciiChar)
        ensures
            final(self)@ == old(self)@.push(ch@),
    {
        self.0.push(ch.to_char());
    }

    /// Appends a checked-typed slice; total, no re-validation.
    pub fn push_str(&mut self, other: &SoftAsciiStr<'_>)
        ensures
            final(self)@ == old(self)@ + other@,
    {
        self.0.append(other.as_str());
    }

    /// Removes the last character, if any, and returns it re-wrapped
    /// without re-validation.
    pub fn pop(&mut self) -> (r: Option<SoftAsciiChar>)
        ensures
            old(self)@.len() == 0 ==> r is None && final(self)@ == old(self)@,
            old(self)@.len() > 0 ==> (r matches Some(c) && c@ == old(self)@.last()
                && final(self)@ == old(self)@.drop_last()),
    {
        match self.0.pop() {
            Some(c) => Some(SoftAsciiChar::from_unchecked(c)),
            None => None,
        }
    }

    /// Removes the character whose encoding starts at byte offset `idx` and
    /// returns it re-wrapped without re-validation.
    pub fn remove(&mut self, idx: usize) -> (r: SoftAsciiChar)
        requires
            is_char_boundary(encode_utf8(old(self)@), idx as int),
            (idx as int) < encode_utf8(old(self)@).len(),
        ensures
            suffix_chars(old(self)@, idx as int).len() > 0,
            r@ == suffix_chars(old(self)@, idx as int)[0],
            final(self)@ == prefix_chars(old(self)@, idx as int) + suffix_chars(
                old(self)@,
                idx as int,
            ).drop_first(),
    {
        let ghost orig: Seq<char> = self@;
        proof {
            lemma_split_chars_at_boundary(orig, idx as int);
        }
        let pair = self.0.as_str().split_at(idx);
        let left = pair.0;
        let right = pair.1;
        proof {
            encode_utf8_decode_utf8(left@);
            encode_utf8_decode_utf8(right@);
            assert(left@ == prefix_chars(orig, idx as int));
            assert(right@ == suffix_chars(orig, idx as int));
            if right@.len() == 0 {
                assert(encode_utf8(right@) =~= Seq::<u8>::empty());
            }
        }
        let c = right.get_char(0);
        let rlen = right.unicode_len();
        let rest = right.substring_char(1, rlen);
        let mut buf = left.to_owned();
        buf.append(rest);
        proof {
            assert(rest@ =~= right@.drop_first());
        }
        self.0 = buf;
        SoftAsciiChar::from_unchecked(c)
    }

    /// Inserts a checked-typed character at byte offset `idx`; total apart
    /// from the offset having to lie on a character boundary.
    pub fn insert(&mut self, idx: usize, ch: SoftAsciiChar)
        requires
            is_char_boundary(encode_utf8(old(self)@), idx as int),
        ensures
            final(self)@ == prefix_chars(old(self)@, idx as int) + seq![ch@] + suffix_chars(
                old(self)@,
                idx as int,
            ),
    {
        let ghost orig: Seq<char> = self@;
        proof {
            lemma_split_chars_at_boundary(orig, idx as int);
        }
        let pair = self.0.as_str().split_at(idx);
        proof {
            encode_utf8_decode_utf8(pair.0@);
            encode_utf8_decode_utf8(pair.1@);
        }
        let mut buf = pair.0.to_owned();
        buf.push(ch.to_char());
        buf.append(pair.1);
        proof {
            assert(buf@ =~= prefix_chars(orig, idx as int) + seq![ch@] + suffix_chars(
                orig,
                idx as int,
            ));
        }
        self.0 = buf;
    }

    /// Inserts a checked-typed slice at byte offset `idx`; total apart from
    /// the offset having to lie on a character boundary.
    pub fn insert_str(&mut self, idx: usize, string: &SoftAsciiStr<'_>)
        requires
            is_char_boundary(encode_utf8(old(self)@), idx as int),
        ensures
            final(self)@ == prefix_chars(old(self)@, idx as int) + string@ + suffix_chars(
                old(self)@,
                idx as int,
            ),
    {
        let ghost orig: Seq<char> = self@;
        proof {
            lemma_split_chars_at_boundary(orig, idx as int);
        }
        let pair = self.0.as_str().split_at(idx);
        proof {
            encode_utf8_decode_utf8(pair.0@);
            encode_utf8_decode_utf8(pair.1@);
        }
        let mut buf = pair.0.to_owned();
        buf.append(string.as_str());
        buf.append(pair.1);
        proof {
            assert(buf@ =~= prefix_chars(orig, idx as int) + string@ + suffix_chars(
                orig,
                idx as int,
            ));
        }
        self.0 = buf;
    }

    /// Splits the buffer at byte offset `at`: this wrapper keeps the bytes
    /// before the offset, the returned wrapper owns the bytes at and after
    /// it, and together the halves are exactly the original content.
    pub fn split_off(&mut self, at: usize) -> (r: SoftAsciiString)
        requires
            is_char_boundary(encode_utf8(old(self)@), at as int),
        ensures
            final(self)@ == prefix_chars(old(self)@, at as int),
            r@ == suffix_chars(old(self)@, at as int),
            old(self)@ == final(self)@ + r@,
            encode_utf8(final(self)@) == encode_utf8(old(self)@).subrange(0, at as int),
            encode_utf8(r@) == encode_utf8(old(self)@).subrange(
                at as int,
                encode_utf8(old(self)@).len() as int,
            ),
    {
        let ghost orig: Seq<char> = self@;
        proof {
            lemma_split_chars_at_boundary(orig, at as int);
        }
        let pair = self.0.as_str().split_at(at);
        proof {
            encode_utf8_decode_utf8(pair.0@);
            encode_utf8_decode_utf8(pair.1@);
        }
        let left = pair.0.to_owned();
        let right = pair.1.to_owned();
        self.0 = left;
        SoftAsciiString(right)
    }

    /// Shortens the buffer to `new_len` bytes when that offset lies on a
    /// character boundary; offsets past the end leave the buffer unchanged.
    pub fn truncate(&mut self, new_len: usize)
        requires
            is_char_boundary(encode_utf8(old(self)@), new_len as int) || (new_len as int)
                >= encode_utf8(old(self)@).len(),
        ensures
            is_char_boundary(encode_utf8(old(self)@), new_len as int) ==> final(self)@
                == prefix_chars(old(self)@, new_len as int),
            !is_char_boundary(encode_utf8(old(self)@), new_len as int) ==> final(self)@ == old(
                self,
            )@,
    {
        let ghost orig: Seq<char> = self@;
        if self.0.as_str().is_char_boundary(new_len) {
            proof {
                lemma_split_chars_at_boundary(orig, new_len as int);
            }
            let pair = self.0.as_str().split_at(new_len);
            proof {
                encode_utf8_decode_utf8(pair.0@);
            }
            let left = pair.0.to_owned();
            self.0 = left;
        }
    }

    /// Empties the buffer.
    pub fn clear(&mut self)
        ensures
            final(self)@ == Seq::<char>::empty(),
    {
        self.0 = String::new();
    }

    /// A borrowed soft-ASCII view of the whole buffer, with no re-check.
    pub fn as_soft_ascii_str<'a>(&'a self) -> (r: SoftAsciiStr<'a>)
        ensures
            r@ == self@,
    {
        SoftAsciiStr::from_unchecked(self.0.as_str())
    }

    /// A borrowed soft-ASCII view of the bytes between offsets `from`
    /// (inclusive) and `to` (exclusive), reinterpreted with no re-check.
    pub fn index_range<'a>(&'a self, from: usize, to: usize) -> (r: SoftAsciiStr<'a>)
        requires
            from <= to,
            is_char_boundary(encode_utf8(self@), from as int),
            is_char_boundary(encode_utf8(self@), to as int),
        ensures
            r@ == range_chars(self@, from as int, to as int),
    {
        proof {
            vstd::utf8::encode_utf8_valid_utf8(self@);
            lemma_char_boundary_in_prefix(encode_utf8(self@), from as int, to as int);
        }
        let head = self.0.as_str().split_at(to).0;
        let mid = head.split_at(from).1;
        proof {
            assert(encode_utf8(mid@) =~= encode_utf8(self@).subrange(from as int, to as int));
            encode_utf8_decode_utf8(mid@);
        }
        SoftAsciiStr::from_unchecked(mid)
    }

    /// The plain text of the buffer.
    pub fn as_str(&self) -> (r: &str)
        ensures
            r@ == self@,
    {
        self.0.as_str()
    }

    /// The raw bytes of the buffer, with no added check.
    pub fn as_bytes(&self) -> (r: &[u8])
        ensures
            r@ == encode_utf8(self@),
    {
        self.0.as_str().as_bytes()
    }

    /// The length of the buffer, in bytes.
    pub fn len(&self) -> (r: usize)
        ensures
            r == encode_utf8(self@).len() as usize,
    {
        self.0.as_str().len()
    }

    /// True when the buffer is empty.
    pub fn is_empty(&self) -> (r: bool)
        ensures
            r == (self@.len() == 0),
    {
        self.0.as_str().is_empty()
    }

    /// True when byte offset `at` lies on a character boundary of the
    /// buffer, as the positional operations require.
    pub fn is_char_boundary(&self, at: usize) -> (r: bool)
        ensures
            r == is_char_boundary(encode_utf8(self@), at as int),
    {
        self.0.as_str().is_char_boundary(at)
    }

    /// Unwraps into the plain inner string; total and lossless.
    pub fn into_string(self) -> (r: String)
        ensures
            r@ == self@,
    {
        self.0
    }

    /// Consumes the wrapper and returns the buffer's UTF-8 bytes.
    pub fn into_bytes(self) -> (r: Vec<u8>)
        ensures
            r@ == encode_utf8(self@),
    {
        self.0.into_bytes()
    }

    /// Consumes the wrapper and returns the buffer as a boxed plain slice.
    pub fn into_boxed_str(self) -> (r: Box<str>)
        ensures
            r@ == self@,
    {
        self.0.into_boxed_str()
    }

    /// True when the whole current buffer really is US-ASCII.
    pub fn is_ascii(&self) -> (r: bool)
        ensures
            r == is_ascii_chars(self@),
    {
        self.0.is_ascii()
    }

    /// The buffer's capacity in bytes; at least its length.
    pub fn capacity(&self) -> (r: usize)
        ensures
            encode_utf8(self@).len() <= r as nat,
    {
        self.0.capacity()
    }

    /// Reserves room for at least `additional` more bytes; pure delegation,
    /// the content is unchanged.
    pub fn reserve(&mut self, additional: usize)
        ensures
            final(self)@ == old(self)@,
    {
        self.0.reserve(additional);
    }

    /// Reserves room for exactly `additional` more bytes; pure delegation,
    /// the content is unchanged.
    pub fn reserve_exact(&mut self, additional: usize)
        ensures
            final(self)@ == old(self)@,
    {
        self.0.reserve_exact(additional);
    }

    /// Drops excess capacity; pure delegation, the content is unchanged.
    pub fn shrink_to_fit(&mut self)
        ensures
            final(self)@ == old(self)@,
    {
        self.0.shrink_to_fit();
    }

    /// Appends every character of `chars`, in order; total, no
    /// re-validation.
    pub fn extend(&mut self, chars: &Vec<SoftAsciiChar>)
        ensures
            final(self)@ == old(self)@ + chars@.map_values(|c: SoftAsciiChar| c@),
    {
        self.reserve(chars.len());
        let n: usize = chars.len();
        let mut i: usize = 0;
        while i < n
            invariant
                n == chars@.len(),
                0 <= i <= n,
                self@ == old(self)@ + chars@.subrange(0, i as int).map_values(
                    |c: SoftAsciiChar| c@,
                ),
            decreases n - i,
        {
            self.push(chars[i]);
            proof {
                assert(chars@.subrange(0, i + 1 as int).map_values(|c: SoftAsciiChar| c@)
                    =~= chars@.subrange(0, i as int).map_values(|c: SoftAsciiChar| c@).push(
                    chars@[i as int]@,
                ));
                assert(self@ =~= old(self)@ + chars@.subrange(0, i + 1 as int).map_values(
                    |c: SoftAsciiChar| c@,
                ));
            }
            i = i + 1;
        }
        proof {
            assert(chars@.subrange(0, n as int) =~= chars@);
        }
    }

    /// Builds a wrapper from a sequence of checked-typed characters, in
    /// order; total, no re-validation.
    pub fn from_chars(chars: &Vec<SoftAsciiChar>) -> (r: Self)
        ensures
            r@ == chars@.map_values(|c: SoftAsciiChar| c@),
    {
        let mut buf = SoftAsciiString::new();
        buf.extend(chars);
        proof {
            assert(buf@ =~= chars@.map_values(|c: SoftAsciiChar| c@));
        }
        buf
    }
}

impl Default for SoftAsciiString {
    /// An empty wrapper, as [`SoftAsciiString::new`] builds it.
    fn default() -> (r: Self)
        ensures
            r@ == Seq::<char>::empty(),
    {
        SoftAsciiString::new()
    }
}

impl PartialEq for SoftAsciiString {
    fn eq(&self, other: &SoftAsciiString) -> bool {
        self.0 == other.0
    }
}

impl vstd::std_specs::cmp::PartialEqSpecImpl for SoftAsciiString {
    open spec fn obeys_eq_spec() -> bool {
        true
    }

    open spec fn eq_spec(&self, other: &SoftAsciiString) -> bool {
        self@ == other@
    }
}

impl PartialEq<String> for SoftAsciiString {
    fn eq(&self, other: &String) -> bool {
        str_eq(self.0.as_str(), other.as_str())
    }
}

impl vstd::std_specs::cmp::PartialEqSpecImpl<String> for SoftAsciiString {
    open spec fn obeys_eq_spec() -> bool {
        true
    }

    open spec fn eq_spec(&self, other: &String) -> bool {
        self@ == other@
    }
}

impl PartialEq<SoftAsciiString> for String {
    fn eq(&self, other: &SoftAsciiString) -> bool {
        str_eq(self.as_str(), other.as_str())
    }
}

impl vstd::std_specs::cmp::PartialEqSpecImpl<SoftAsciiString> for String {
    open spec fn obeys_eq_spec() -> bool {
        true
    }

    open spec fn eq_spec(&self, other: &SoftAsciiString) -> bool {
        self@ == other@
    }
}

impl<'a> PartialEq<&'a str> for SoftAsciiString {
    fn eq(&self, other: &&'a str) -> bool {
        str_eq(self.0.as_str(), *other)
    }
}

impl<'a> vstd::std_specs::cmp::PartialEqSpecImpl<&'a str> for SoftAsciiString {
    open spec fn obeys_eq_spec() -> bool {
        true
    }

    open spec fn eq_spec(&self, other: &&'a str) -> bool {
        self@ == other@
    }
}

impl<'a> PartialEq<SoftAsciiString> for &'a str {
    fn eq(&self, other: &SoftAsciiString) -> bool {
        str_eq(*self, other.as_str())
    }
}

impl<'a> vstd::std_specs::cmp::PartialEqSpecImpl<SoftAsciiString> for &'a str {
    open spec fn obeys_eq_spec() -> bool {
        true
    }

    open spec fn eq_spec(&self, other: &SoftAsciiString) -> bool {
        self@ == other@
    }
}

impl<'a> PartialEq<SoftAsciiStr<'a>> for SoftAsciiString {
    fn eq(&self, other: &SoftAsciiStr<'a>) -> bool {
        str_eq(self.0.as_str(), other.as_str())
    }
}

impl<'a> vstd::std_specs::cmp::PartialEqSpecImpl<SoftAsciiStr<'a>> for SoftAsciiString {
    open spec fn obeys_eq_spec() -> bool {
        true
    }

    open spec fn eq_spec(&self, other: &SoftAsciiStr<'a>) -> bool {
        self@ == other@
    }
}

impl<'a> PartialEq<SoftAsciiString> for SoftAsciiStr<'a> {
    fn eq(&self, other: &SoftAsciiString) -> bool {
        str_eq(self.as_str(), other.as_str())
    }
}

impl<'a> vstd::std_specs::cmp::PartialEqSpecImpl<SoftAsciiString> for SoftAsciiStr<'a> {
    open spec fn obeys_eq_spec() -> bool {
        true
    }

    open spec fn eq_spec(&self, other: &SoftAsciiString) -> bool {
        self@ == other@
    }
}

impl core::str::FromStr for SoftAsciiString {
    type Err = StringFromStrError;

    fn from_str(s: &str) -> Result<SoftAsciiString, StringFromStrError> {
        SoftAsciiString::from_text(s)
    }
}

} // verus!
