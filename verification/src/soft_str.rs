//! A borrowed string slice tagged as "expected US-ASCII".

use vstd::prelude::*;
use vstd::string::StrSliceExecFns;
use vstd::utf8::encode_utf8;
use vstd::utf8::is_ascii_chars;

use crate::encoding::str_eq;
use crate::error::FromSourceError;
use crate::soft_string::SoftAsciiString;

verus! {

/// A `&str` wrapper with an additional "is us-ascii" soft constraint.
///
/// It never owns its text: it is a view into a plain string slice or into an
/// owned wrapper's buffer, tagged with the soft expectation. Like the owned
/// wrapper, it carries no validity flag: the checked constructor validates,
/// the unchecked one trusts the caller.
#[derive(Debug, Clone, Copy)]
pub struct SoftAsciiStr<'a> {
    inner: &'a str,
}

impl<'a> View for SoftAsciiStr<'a> {
    type V = Seq<char>;

    closed spec fn view(&self) -> Seq<char> {
        self.inner@
    }
}

impl<'a> SoftAsciiStr<'a> {
    /// Reinterprets a plain string slice without validating it; the caller
    /// takes responsibility for the soft constraint.
    pub fn from_unchecked(s: &'a str) -> (r: Self)
        ensures
            r@ == s@,
    {
        SoftAsciiStr { inner: s }
    }

    /// Reinterprets a plain string slice after validating every character,
    /// failing if and only if some character lies outside the US-ASCII
    /// range; the error returns the rejected slice to the caller.
    pub fn from_str(s: &'a str) -> (r: Result<Self, FromSourceError<&'a str>>)
        ensures
            r is Ok <==> is_ascii_chars(s@),
            r matches Ok(ss) ==> ss@ == s@,
            r matches Err(e) ==> e.source_spec() == s && e.source_spec()@ == s@,
    {
        if s.is_ascii() {
            Ok(SoftAsciiStr { inner: s })
        } else {
            Err(FromSourceError::new(s))
        }
    }

    /// The plain string slice this wrapper views; total and lossless.
    pub fn as_str(&self) -> (r: &'a str)
        ensures
            r@ == self@,
    {
        self.inner
    }

    /// The raw bytes of the viewed text, with no added check.
    pub fn as_bytes(&self) -> (r: &'a [u8])
        ensures
            r@ == encode_utf8(self@),
    {
        self.inner.as_bytes()
    }

    /// The length of the viewed text, in bytes.
    pub fn len(&self) -> (r: usize)
        ensures
            r == encode_utf8(self@).len() as usize,
    {
        self.inner.len()
    }

    /// True when the viewed text is empty.
    pub fn is_empty(&self) -> (r: bool)
        ensures
            r == (self@.len() == 0),
    {
        self.inner.is_empty()
    }

    /// The character at character position `i`, re-wrapped without
    /// revalidation.
    pub fn char_at(&self, i: usize) -> (r: crate::soft_char::SoftAsciiChar)
        requires
            i < self@.len(),
        ensures
            r@ == self@[i as int],
    {
        crate::soft_char::SoftAsciiChar::from_unchecked(self.inner.get_char(i))
    }

    /// True when the whole viewed text really is US-ASCII.
    pub fn is_ascii(&self) -> (r: bool)
        ensures
            r == is_ascii_chars(self@),
    {
        self.inner.is_ascii()
    }

    /// Materializes an owned wrapper holding a copy of the viewed text,
    /// without re-validation.
    pub fn to_soft_ascii_string(&self) -> (r: SoftAsciiString)
        ensures
            r@ == self@,
    {
        SoftAsciiString::from_unchecked(self.inner.to_owned())
    }
}

impl<'a, 'b> PartialEq<SoftAsciiStr<'b>> for SoftAsciiStr<'a> {
    fn eq(&self, other: &SoftAsciiStr<'b>) -> bool {
        str_eq(self.inner, other.inner)
    }
}

impl<'a, 'b> vstd::std_specs::cmp::PartialEqSpecImpl<SoftAsciiStr<'b>> for SoftAsciiStr<'a> {
    open spec fn obeys_eq_spec() -> bool {
        true
    }

    open spec fn eq_spec(&self, other: &SoftAsciiStr<'b>) -> bool {
        self@ == other@
    }
}

impl<'a> PartialEq<&'a str> for SoftAsciiStr<'a> {
    fn eq(&self, other: &&'a str) -> bool {
        str_eq(self.inner, *other)
    }
}

impl<'a> vstd::std_specs::cmp::PartialEqSpecImpl<&'a str> for SoftAsciiStr<'a> {
    open spec fn obeys_eq_spec() -> bool {
        true
    }

    open spec fn eq_spec(&self, other: &&'a str) -> bool {
        self@ == other@
    }
}

impl<'a> PartialEq<SoftAsciiStr<'a>> for &'a str {
    fn eq(&self, other: &SoftAsciiStr<'a>) -> bool {
        str_eq(*self, other.inner)
    }
}

impl<'a> vstd::std_specs::cmp::PartialEqSpecImpl<SoftAsciiStr<'a>> for &'a str {
    open spec fn obeys_eq_spec() -> bool {
        true
    }

    open spec fn eq_spec(&self, other: &SoftAsciiStr<'a>) -> bool {
        self@ == other@
    }
}

} // verus!
