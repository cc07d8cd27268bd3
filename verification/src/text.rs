//! Text marshaling for the foreign boundary.
//!
//! The host reads text arguments as C strings: a pointer to bytes ending
//! at the first null byte. A text argument is therefore shaped into its
//! UTF-8 bytes followed by one terminating null. Input that already holds
//! a null byte would be cut short at the boundary, so it is rejected with
//! an embedded-terminator error and no call is made.

use vstd::prelude::*;
use vstd::string::StringSliceAdditionalSpecFns;

use crate::error::Tic80Error;

verus! {

/// Whether the byte sequence holds a null byte anywhere.
pub open spec fn has_nul(bytes: Seq<u8>) -> bool {
    exists|i: int| 0 <= i < bytes.len() && bytes[i] == 0u8
}

/// What text encoding yields: the input bytes with one terminating null
/// appended, or an embedded-terminator error if the input already holds
/// a null byte.
pub open spec fn spec_encode_text(bytes: Seq<u8>) -> Result<Seq<u8>, Tic80Error> {
    if has_nul(bytes) {
        Err(Tic80Error::NulCStringError)
    } else {
        Ok(bytes.push(0u8))
    }
}

/// Shapes raw text bytes into a null-terminated byte sequence. Succeeds
/// exactly when the input holds no null byte; the output then equals the
/// input plus one terminating null.
pub fn encode_text_bytes(text: &[u8]) -> (r: Result<Vec<u8>, Tic80Error>)
    ensures
        match r {
            Ok(out) => !has_nul(text@) && out@ == text@.push(0u8),
            Err(err) => has_nul(text@) && err == Tic80Error::NulCStringError,
        },
{
    let mut out: Vec<u8> = Vec::new();
    let mut i: usize = 0;
    while i < text.len()
        invariant
            0 <= i <= text@.len(),
            out@ == text@.subrange(0, i as int),
            forall|j: int| 0 <= j < i ==> text@[j] != 0u8,
        decreases text@.len() - i,
    {
        let b = text[i];
        if b == 0u8 {
            return Err(Tic80Error::NulCStringError);
        }
        out.push(b);
        i += 1;
        proof {
            assert(out@ =~= text@.subrange(0, i as int));
        }
    }
    out.push(0u8);
    proof {
        assert(text@.subrange(0, text@.len() as int) =~= text@);
        assert(out@ =~= text@.push(0u8));
    }
    Ok(out)
}

/// Shapes a string into the null-terminated byte sequence the host reads,
/// working over the string's UTF-8 bytes.
pub fn encode_text(text: &str) -> (r: Result<Vec<u8>, Tic80Error>)
    ensures
        match r {
            Ok(out) => !has_nul(text.spec_bytes()) && out@ == text.spec_bytes().push(0u8),
            Err(err) => has_nul(text.spec_bytes()) && err == Tic80Error::NulCStringError,
        },
{
    encode_text_bytes(text.as_bytes())
}

} // verus!
