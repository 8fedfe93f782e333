//! A single character tagged as "expected US-ASCII".

use vstd::prelude::*;

use crate::encoding::char_is_ascii;
use crate::error::FromSourceError;

verus! {

/// A `char` wrapper with an additional "is us-ascii" soft constraint.
///
/// The constraint is carried by the type alone: values built through
/// [`SoftAsciiChar::from_char`] are validated, values built through
/// [`SoftAsciiChar::from_unchecked`] are not.
#[derive(Debug, Clone, Copy, PartialEq, Eq, Structural, PartialOrd, Ord, Hash)]
pub struct SoftAsciiChar(char);

impl View for SoftAsciiChar {
    type V = char;

    closed spec fn view(&self) -> char {
        self.0
    }
}

impl SoftAsciiChar {
    /// Wraps a character without validating it; the caller takes
    /// responsibility for the soft constraint.
    pub fn from_unchecked(c: char) -> (r: Self)
        ensures
            r@ == c,
    {
        SoftAsciiChar(c)
    }

    /// Wraps a character after validating it, failing if and only if the
    /// character lies outside the US-ASCII range; the error returns the
    /// rejected character to the caller.
    pub fn from_char(c: char) -> (r: Result<Self, FromSourceError<char>>)
        ensures
            r is Ok <==> char_is_ascii(c),
            r matches Ok(sc) ==> sc@ == c,
            r matches Err(e) ==> e.source_spec() == c,
    {
        if (c as u32) <= 0x7f {
            Ok(SoftAsciiChar(c))
        } else {
            Err(FromSourceError::new(c))
        }
    }

    /// Unwraps back to the plain character; total and lossless.
    pub fn to_char(self) -> (r: char)
        ensures
            r == self@,
    {
        self.0
    }

    /// True when the wrapped character really lies in the US-ASCII range.
    pub fn is_ascii(&self) -> (r: bool)
        ensures
            r == char_is_ascii(self@),
    {
        (self.0 as u32) <= 0x7f
    }
}

} // verus!
