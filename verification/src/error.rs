//! The two failure carriers of the checked conversion paths.

use vstd::prelude::*;

verus! {

/// Error of a checked conversion whose source was not US-ASCII.
///
/// It keeps ownership of the rejected source value, so the caller can
/// recover it unchanged and fall back to treating it as plain data.
#[derive(Debug, Clone)]
pub struct FromSourceError<S> {
    source: S,
}

impl<S> FromSourceError<S> {
    /// The rejected source value carried by this error.
    pub closed spec fn source_spec(&self) -> S {
        self.source
    }

    /// Wraps a rejected source value.
    pub fn new(source: S) -> (r: Self)
        ensures
            r.source_spec() == source,
    {
        FromSourceError { source }
    }

    /// Borrows the rejected source value.
    pub fn source(&self) -> (r: &S)
        ensures
            *r == self.source_spec(),
    {
        &self.source
    }

    /// Returns the rejected source value to the caller, unchanged.
    pub fn into_source(self) -> (r: S)
        ensures
            r == self.source_spec(),
    {
        self.source
    }
}

/// Error of parsing plain text into an owned wrapper: the text contained a
/// character outside the US-ASCII range. Carries no payload.
#[derive(Debug, Clone, Copy, PartialEq, Eq, Structural)]
pub struct StringFromStrError;

} // verus!
