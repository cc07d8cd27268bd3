//! Color-key lists and their flat `(pointer, count)` encoding.
//!
//! A blit primitive takes its transparent palette indices as a raw pointer
//! and a count byte. The host supports at most [`MAX_COLOR_KEYS`]
//! simultaneous transparent colors, so a longer list cannot be encoded and
//! is reported as a width overflow instead of being truncated.

use vstd::prelude::*;
use vstd::slice::slice_to_vec;

use crate::error::Tic80Error;

verus! {

/// The most transparent colors one blit call can name.
pub const MAX_COLOR_KEYS: usize = 15;

#[verifier::external_type_specification]
#[verifier::external_body]
#[verifier::reject_recursive_types(T)]
pub struct ExHeaplessVec<T, const N: usize>(heapless::Vec<T, N>);

/// What a bounded color-key store holds, front to back.
pub uninterp spec fn color_store_contents(v: heapless::Vec<u8, 15>) -> Seq<u8>;

/// Relies on heapless::Vec::new: a freshly constructed vector is empty.
#[verifier::external_body]
fn store_new() -> (r: heapless::Vec<u8, 15>)
    ensures
        color_store_contents(r) == Seq::<u8>::empty(),
{
    heapless::Vec::new()
}

/// Relies on heapless::Vec::push: appends the item while the vector is
/// below its capacity of 15, and otherwise hands the item back and leaves
/// the vector unchanged.
#[verifier::external_body]
fn store_push(v: &mut heapless::Vec<u8, 15>, value: u8) -> (r: bool)
    ensures
        r == (color_store_contents(*old(v)).len() < 15),
        r ==> color_store_contents(*final(v)) == color_store_contents(*old(v)).push(value),
        !r ==> color_store_contents(*final(v)) == color_store_contents(*old(v)),
{
    v.push(value).is_ok()
}

/// Relies on heapless::Vec::as_slice: a borrow of the entire contents.
#[verifier::external_body]
fn store_as_slice(v: &heapless::Vec<u8, 15>) -> (s: &[u8])
    ensures
        s@ == color_store_contents(*v),
{
    v.as_slice()
}

/// A bounded collection of transparent palette indices ("color keys"),
/// capped at the host's limit of [`MAX_COLOR_KEYS`] simultaneous keys.
pub struct Colors {
    colors: heapless::Vec<u8, 15>,
}

impl View for Colors {
    type V = Seq<u8>;

    closed spec fn view(&self) -> Seq<u8> {
        color_store_contents(self.colors)
    }
}

impl Colors {
    /// An empty color-key list: no color is treated as transparent.
    pub fn new() -> (r: Colors)
        ensures
            r@ == Seq::<u8>::empty(),
    {
        Colors { colors: store_new() }
    }

    /// A list holding the single key `value`.
    pub fn with_color(value: u8) -> (r: Colors)
        ensures
            r@ == seq![value],
    {
        let mut colors = store_new();
        store_push(&mut colors, value);
        proof {
            assert(color_store_contents(colors) =~= seq![value]);
        }
        Colors { colors }
    }

    /// Appends one more key. A key pushed past the host's limit of 15 is
    /// discarded and the list is left as it was.
    pub fn and_color(self, value: u8) -> (r: Colors)
        ensures
            self@.len() < MAX_COLOR_KEYS ==> r@ == self@.push(value),
            self@.len() >= MAX_COLOR_KEYS ==> r@ == self@,
    {
        let mut colors = self.colors;
        store_push(&mut colors, value);
        Colors { colors }
    }

    /// The keys as a plain slice, front to back.
    pub fn as_slice(&self) -> (s: &[u8])
        ensures
            s@ == self@,
    {
        store_as_slice(&self.colors)
    }

    /// How many keys the list holds.
    pub fn len(&self) -> (n: usize)
        ensures
            n == self@.len(),
    {
        self.as_slice().len()
    }

    /// Builds a list from a plain slice of keys. Succeeds exactly when
    /// the slice fits the host's cap of 15 keys; a longer slice is
    /// rejected with a width overflow.
    pub fn from_slice(keys: &[u8]) -> (r: Result<Colors, Tic80Error>)
        ensures
            keys@.len() <= MAX_COLOR_KEYS ==> (r matches Ok(c) && c@ == keys@),
            keys@.len() > MAX_COLOR_KEYS ==> r == Err::<Colors, Tic80Error>(
                Tic80Error::WidthOverflow,
            ),
    {
        if keys.len() > MAX_COLOR_KEYS {
            return Err(Tic80Error::WidthOverflow);
        }
        let mut colors = store_new();
        let mut i: usize = 0;
        while i < keys.len()
            invariant
                0 <= i <= keys@.len(),
                keys@.len() <= MAX_COLOR_KEYS,
                color_store_contents(colors) == keys@.subrange(0, i as int),
            decreases keys@.len() - i,
        {
            store_push(&mut colors, keys[i]);
            i += 1;
            proof {
                assert(color_store_contents(colors) =~= keys@.subrange(0, i as int));
            }
        }
        proof {
            assert(keys@.subrange(0, keys@.len() as int) =~= keys@);
        }
        Ok(Colors { colors })
    }
}

/// The flat encoding of a color-key list for a raw call: the bytes the
/// pointer will address and the count field, where an empty list stands
/// for a null pointer with a zero count.
#[derive(Clone, Debug, PartialEq, Eq)]
pub struct EncodedColors {
    /// The bytes behind the pointer argument. Empty means a null pointer.
    pub bytes: Vec<u8>,
    /// The count argument, in the host's 8-bit count width.
    pub count: i8,
}

impl EncodedColors {
    /// The count field agrees with the data and respects the host's cap.
    pub open spec fn well_formed(&self) -> bool {
        &&& self.count == self.bytes@.len()
        &&& self.bytes@.len() <= MAX_COLOR_KEYS
    }

    /// Whether the pointer argument will be null.
    pub open spec fn is_null(&self) -> bool {
        self.bytes@.len() == 0
    }
}

/// What encoding a color-key list yields: the keys with their count when
/// they fit the host's cap, and a width overflow otherwise.
pub open spec fn spec_encode_color_keys(keys: Seq<u8>) -> Result<(Seq<u8>, i8), Tic80Error> {
    if keys.len() <= MAX_COLOR_KEYS {
        Ok((keys, keys.len() as i8))
    } else {
        Err(Tic80Error::WidthOverflow)
    }
}

/// The exec encoding `e` realizes the model `m`.
pub open spec fn encoded_colors_match(e: EncodedColors, m: (Seq<u8>, i8)) -> bool {
    e.bytes@ == m.0 && e.count == m.1
}

/// Shapes a color-key list into its `(pointer, count)` pair. Succeeds
/// exactly when the list fits the host's cap of 15 keys; a longer list is
/// rejected with a width overflow and nothing is encoded.
pub fn encode_color_keys(keys: &[u8]) -> (r: Result<EncodedColors, Tic80Error>)
    ensures
        match r {
            Ok(e) => {
                &&& spec_encode_color_keys(keys@) matches Ok(m) && encoded_colors_match(e, m)
                &&& e.well_formed()
            },
            Err(err) => spec_encode_color_keys(keys@) matches Err(e2) && err == e2,
        },
{
    if keys.len() > MAX_COLOR_KEYS {
        return Err(Tic80Error::WidthOverflow);
    }
    let bytes = slice_to_vec(keys);
    let count = keys.len() as i8;
    Ok(EncodedColors { bytes, count })
}

} // verus!
