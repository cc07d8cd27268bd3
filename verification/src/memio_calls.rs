//! Descriptors for the raw-memory and persistence primitives: bit-width
//! aware peek and poke, block fill, the persistent-memory slot, and the
//! flush to durable cartridge storage.

use vstd::prelude::*;

use crate::sentinel::{bool_flag, sentinel_i32, sentinel_i8, spec_bool_flag, spec_sentinel_i32,
    spec_sentinel_i8};

verus! {

/// The flat arguments of the variable-width read primitive: an address
/// and the number of bits to read, where the sentinel also means the
/// default 8-bit width.
#[derive(Clone, Copy, Debug, PartialEq, Eq, Structural)]
pub struct PeekArgs {
    pub address: i32,
    pub bits: i8,
}

/// Arguments for a variable-width read; an absent width falls back to
/// the documented default of 8 bits.
pub fn peek_args(address: i32, bits: Option<i8>) -> (r: PeekArgs)
    ensures
        r == (PeekArgs {
            address,
            bits: match bits {
                Some(b) => b,
                None => 8i8,
            },
        }),
{
    PeekArgs {
        address,
        bits: match bits {
            Some(b) => b,
            None => 8,
        },
    }
}

/// Arguments for a byte-wide read, by passing the sentinel in the width
/// field.
pub fn peek8_args(address: i32) -> (r: PeekArgs)
    ensures
        r == (PeekArgs { address, bits: -1i8 }),
{
    PeekArgs { address, bits: -1 }
}

/// The flat arguments of the variable-width write primitive.
#[derive(Clone, Copy, Debug, PartialEq, Eq, Structural)]
pub struct PokeArgs {
    pub address: i32,
    pub value: i8,
    pub bits: i8,
}

/// Arguments for a variable-width write; an absent width falls back to
/// the documented default of 8 bits.
pub fn poke_args(address: i32, value: i8, bits: Option<i8>) -> (r: PokeArgs)
    ensures
        r == (PokeArgs {
            address,
            value,
            bits: match bits {
                Some(b) => b,
                None => 8i8,
            },
        }),
{
    PokeArgs {
        address,
        value,
        bits: match bits {
            Some(b) => b,
            None => 8,
        },
    }
}

/// Arguments for a byte-wide write, by passing the sentinel in the width
/// field.
pub fn poke8_args(address: i32, value: i8) -> (r: PokeArgs)
    ensures
        r == (PokeArgs { address, value, bits: -1i8 }),
{
    PokeArgs { address, value, bits: -1 }
}

/// The flat arguments of the block-fill primitive. The fill byte is
/// widened to the 32-bit field the host reads.
#[derive(Clone, Copy, Debug, PartialEq, Eq, Structural)]
pub struct MemsetArgs {
    pub address: i32,
    pub value: i32,
    pub length: u32,
}

/// Arguments for filling a block of RAM with one byte value.
pub fn memset_args(address: i32, value: u8, length: u32) -> (r: MemsetArgs)
    ensures
        r == (MemsetArgs { address, value: value as i32, length }),
{
    MemsetArgs { address, value: value as i32, length }
}

/// The flat arguments of the persistent-memory primitive: a slot index
/// and the value to store, where the `-1` sentinel disables writing and
/// makes the call a pure read.
#[derive(Clone, Copy, Debug, PartialEq, Eq, Structural)]
pub struct PmemArgs {
    pub index: i32,
    pub value: i64,
}

/// Arguments for reading a persistent slot without modifying it.
pub fn pmem_get_args(index: i32) -> (r: PmemArgs)
    ensures
        r == (PmemArgs { index, value: -1i64 }),
{
    PmemArgs { index, value: -1 }
}

/// Arguments for storing a value in a persistent slot; the call returns
/// the slot's prior value.
pub fn pmem_set_args(index: i32, value: i64) -> (r: PmemArgs)
    ensures
        r == (PmemArgs { index, value }),
{
    PmemArgs { index, value }
}

/// The flat arguments of the flush primitive, exactly as the raw
/// primitive reads them.
#[derive(Clone, Copy, Debug, PartialEq, Eq, Structural)]
pub struct SyncArgs {
    pub mask: i32,
    pub bank: i8,
    pub to_cart: i8,
}

/// Arguments for flushing modified regions between RAM and durable
/// cartridge storage: an absent section mask or bank falls back to the
/// `-1` sentinel, and the direction flag is encoded as 0/1.
pub fn sync_args(mask: Option<i32>, bank: Option<i8>, to_cart: bool) -> (r: SyncArgs)
    ensures
        r == (SyncArgs {
            mask: spec_sentinel_i32(mask),
            bank: spec_sentinel_i8(bank),
            to_cart: spec_bool_flag(to_cart),
        }),
{
    SyncArgs { mask: sentinel_i32(mask), bank: sentinel_i8(bank), to_cart: bool_flag(to_cart) }
}

} // verus!
