//! Sentinel encoding for optional parameters.
//!
//! The host has no optional types: a parameter the caller leaves out is
//! passed as a reserved in-range sentinel instead, `-1` for the integer
//! fields of every primitive. Booleans have no absent sentinel and are
//! always passed explicitly, as the 0/1 flag the host reads.

use vstd::prelude::*;

verus! {

/// The sentinel an absent 32-bit integer parameter encodes to.
pub open spec fn spec_sentinel_i32(v: Option<i32>) -> i32 {
    match v {
        Some(x) => x,
        None => -1i32,
    }
}

/// Resolves an optional 32-bit parameter to its value, or to the host's
/// `-1` sentinel when absent.
pub fn sentinel_i32(v: Option<i32>) -> (r: i32)
    ensures
        r == spec_sentinel_i32(v),
{
    match v {
        Some(x) => x,
        None => -1,
    }
}

/// The sentinel an absent 8-bit integer parameter encodes to.
pub open spec fn spec_sentinel_i8(v: Option<i8>) -> i8 {
    match v {
        Some(x) => x,
        None => -1i8,
    }
}

/// Resolves an optional 8-bit parameter to its value, or to the host's
/// `-1` sentinel when absent.
pub fn sentinel_i8(v: Option<i8>) -> (r: i8)
    ensures
        r == spec_sentinel_i8(v),
{
    match v {
        Some(x) => x,
        None => -1,
    }
}

/// The 0/1 flag a boolean parameter encodes to.
pub open spec fn spec_bool_flag(v: bool) -> i8 {
    if v {
        1i8
    } else {
        0i8
    }
}

/// Encodes a boolean parameter as the 0/1 flag the host reads.
pub fn bool_flag(v: bool) -> (r: i8)
    ensures
        r == spec_bool_flag(v),
{
    if v {
        1
    } else {
        0
    }
}

/// An absent boolean falls back to the primitive's documented default
/// rather than to a sentinel, since every boolean must be passed.
pub open spec fn spec_bool_or(v: Option<bool>, default: bool) -> bool {
    match v {
        Some(x) => x,
        None => default,
    }
}

/// Resolves an optional boolean to its value, or to the primitive's
/// documented default when absent.
pub fn bool_or(v: Option<bool>, default: bool) -> (r: bool)
    ensures
        r == spec_bool_or(v, default),
{
    match v {
        Some(x) => x,
        None => default,
    }
}

} // verus!
