//! The closed set of failures that can arise while shaping arguments for a
//! host call. The host primitives themselves are trusted to accept any
//! correctly encoded call, so these are the only errors the binding reports.

use vstd::prelude::*;

verus! {

/// A failure detected while marshaling arguments for the foreign boundary.
#[derive(Clone, Copy, Debug, PartialEq, Eq, Structural)]
pub enum Tic80Error {
    /// A color-key collection was longer than the host's count field admits.
    WidthOverflow,
    /// A text argument contained a null byte, which would terminate the
    /// marshaled C string before its intended end.
    NulCStringError,
}

impl Tic80Error {
    /// A short diagnostic text, suitable for the host console.
    pub fn describe(&self) -> (r: &'static str)
        ensures
            r@ == (match self {
                Tic80Error::WidthOverflow => "color-key count exceeds the host's field width"@,
                Tic80Error::NulCStringError => "text contains an embedded null byte"@,
            }),
    {
        match self {
            Tic80Error::WidthOverflow => "color-key count exceeds the host's field width",
            Tic80Error::NulCStringError => "text contains an embedded null byte",
        }
    }
}

} // verus!
