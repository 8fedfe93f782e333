//! String and character types carrying a *soft* "is us-ascii" constraint.
//!
//! The types here wrap plain text values and tag them as *expected* to be
//! US-ASCII. The expectation is not enforced at every step: checked
//! constructors validate the whole source and fail with the source preserved,
//! unchecked constructors trust the caller, and direct access to the inner
//! buffer is the sanctioned way to break the expectation. A wrapper can be
//! asked to revalidate itself at any time, yielding either the still-valid
//! wrapper or the raw buffer.

mod encoding;
mod error;
mod soft_char;
mod soft_str;
mod soft_string;

pub use encoding::char_is_ascii;
pub use encoding::prefix_chars;
pub use encoding::range_chars;
pub use encoding::suffix_chars;
pub use encoding::lemma_ascii_every_offset_is_boundary;
pub use encoding::lemma_char_boundary_in_prefix;
pub use encoding::lemma_encode_utf8_concat;
pub use encoding::lemma_rewrap_reproduces_bytes;
pub use encoding::lemma_split_chars_at_boundary;
pub use error::FromSourceError;
pub use error::StringFromStrError;
pub use soft_char::SoftAsciiChar;
pub use soft_str::SoftAsciiStr;
pub use soft_string::SoftAsciiString;
