//! Descriptors for the digital-input primitives: current button and key
//! state, and their edge-triggered variants with hold and repeat control.
//!
//! Each raw call takes flat integer arguments; the builders here
//! accumulate field overrides and resolve every unset field to its
//! sentinel when finalized, while the flat functions take each optional
//! parameter directly. Both forms yield the same encoded arguments.

use vstd::prelude::*;

use crate::sentinel::{sentinel_i32, spec_sentinel_i32};

verus! {

/// The flat argument of one current-frame button query: a button id, or
/// `-1` to ask for the bit mask of every button at once.
#[derive(Clone, Copy, Debug, PartialEq, Eq, Structural)]
pub struct BtnArgs {
    pub id: i32,
}

/// Arguments for querying one button's current state.
pub fn btn_args(id: i32) -> (r: BtnArgs)
    ensures
        r == (BtnArgs { id }),
{
    BtnArgs { id }
}

/// Arguments for querying every button at once as a bit mask.
pub fn btn_bits_args() -> (r: BtnArgs)
    ensures
        r == (BtnArgs { id: -1i32 }),
{
    BtnArgs { id: -1 }
}

/// The flat argument of one current-frame keyboard query: a keycode, or
/// `-1` to ask for the bit form.
#[derive(Clone, Copy, Debug, PartialEq, Eq, Structural)]
pub struct KeyArgs {
    pub keycode: i32,
}

/// Arguments for querying one key's current state.
pub fn key_args(keycode: i32) -> (r: KeyArgs)
    ensures
        r == (KeyArgs { keycode }),
{
    KeyArgs { keycode }
}

/// Arguments for querying the keyboard's bit form.
pub fn key_bit_args() -> (r: KeyArgs)
    ensures
        r == (KeyArgs { keycode: -1i32 }),
{
    KeyArgs { keycode: -1 }
}

/// Decodes a boolean-like host return code: the host reports a positive
/// count of pressed bits, and any non-positive value (including the `-1`
/// sentinel) means not pressed.
pub fn decode_pressed(raw: i32) -> (r: bool)
    ensures
        r == (raw > 0),
{
    raw > 0
}

/// The flat arguments of one edge-triggered button query, exactly as the
/// raw primitive reads them.
#[derive(Clone, Copy, Debug, PartialEq, Eq, Structural)]
pub struct BtnpArgs {
    pub id: i32,
    pub hold: i32,
    pub period: i32,
}

/// An incrementally configured edge-triggered button query. Unset fields
/// resolve to the `-1` sentinel when the request is finalized.
#[derive(Clone, Copy, Debug, PartialEq, Eq, Structural)]
pub struct Btnp {
    pub id: Option<i32>,
    pub hold: Option<i32>,
    pub period: Option<i32>,
}

impl Btnp {
    /// What finalizing this request encodes.
    pub open spec fn spec_build(self) -> BtnpArgs {
        BtnpArgs {
            id: spec_sentinel_i32(self.id),
            hold: spec_sentinel_i32(self.hold),
            period: spec_sentinel_i32(self.period),
        }
    }

    /// A request with every field unset.
    pub fn new() -> (r: Btnp)
        ensures
            r == (Btnp { id: None, hold: None, period: None }),
    {
        Btnp { id: None, hold: None, period: None }
    }

    /// Sets the button id to query.
    pub fn id(self, id: i32) -> (r: Btnp)
        ensures
            r == (Btnp { id: Some(id), ..self }),
    {
        Btnp { id: Some(id), ..self }
    }

    /// Sets the hold delay, in frames, before the repeat fires.
    pub fn hold(self, hold: i32) -> (r: Btnp)
        ensures
            r == (Btnp { hold: Some(hold), ..self }),
    {
        Btnp { hold: Some(hold), ..self }
    }

    /// Sets the repeat period, in frames.
    pub fn period(self, period: i32) -> (r: Btnp)
        ensures
            r == (Btnp { period: Some(period), ..self }),
    {
        Btnp { period: Some(period), ..self }
    }

    /// Finalizes the request into the raw call's flat arguments.
    pub fn btnp(&self) -> (r: BtnpArgs)
        ensures
            r == self.spec_build(),
    {
        BtnpArgs {
            id: sentinel_i32(self.id),
            hold: sentinel_i32(self.hold),
            period: sentinel_i32(self.period),
        }
    }

    /// Finalizes the request into the bit-mask form, which queries every
    /// button at once by passing the `-1` id sentinel.
    pub fn btnp_bits(self) -> (r: BtnpArgs)
        ensures
            r == (BtnpArgs { id: -1i32, ..self.spec_build() }),
    {
        BtnpArgs { id: -1, hold: sentinel_i32(self.hold), period: sentinel_i32(self.period) }
    }
}

impl Default for Btnp {
    /// A request with every field unset.
    fn default() -> (r: Btnp)
        ensures
            r == (Btnp { id: None, hold: None, period: None }),
    {
        Btnp { id: None, hold: None, period: None }
    }
}

/// What the flat call form encodes, per optional parameter.
pub open spec fn spec_btnp_args(id: Option<i32>, hold: Option<i32>, period: Option<i32>) -> BtnpArgs {
    BtnpArgs {
        id: spec_sentinel_i32(id),
        hold: spec_sentinel_i32(hold),
        period: spec_sentinel_i32(period),
    }
}

/// The flat call form of the edge-triggered button query: every optional
/// parameter in one call, each absent one encoding to its sentinel.
pub fn btnp_args(id: Option<i32>, hold: Option<i32>, period: Option<i32>) -> (r: BtnpArgs)
    ensures
        r == spec_btnp_args(id, hold, period),
{
    BtnpArgs {
        id: sentinel_i32(id),
        hold: sentinel_i32(hold),
        period: sentinel_i32(period),
    }
}

/// For every choice of optional parameters, the flat call form and the
/// incremental request form encode the same flat arguments.
pub proof fn lemma_btnp_forms_agree(id: Option<i32>, hold: Option<i32>, period: Option<i32>)
    ensures
        (Btnp { id, hold, period }).spec_build() == spec_btnp_args(id, hold, period),
{
}

/// The flat arguments of one edge-triggered keyboard query, exactly as
/// the raw primitive reads them.
#[derive(Clone, Copy, Debug, PartialEq, Eq, Structural)]
pub struct KeypArgs {
    pub id: i32,
    pub hold: i32,
    pub period: i32,
}

/// An incrementally configured edge-triggered keyboard query. Unset
/// fields resolve to the `-1` sentinel when the request is finalized.
#[derive(Clone, Copy, Debug, PartialEq, Eq, Structural)]
pub struct Keyp {
    pub id: Option<i32>,
    pub hold: Option<i32>,
    pub period: Option<i32>,
}

impl Keyp {
    /// What finalizing this request encodes.
    pub open spec fn spec_build(self) -> KeypArgs {
        KeypArgs {
            id: spec_sentinel_i32(self.id),
            hold: spec_sentinel_i32(self.hold),
            period: spec_sentinel_i32(self.period),
        }
    }

    /// A request with every field unset.
    pub fn new() -> (r: Keyp)
        ensures
            r == (Keyp { id: None, hold: None, period: None }),
    {
        Keyp { id: None, hold: None, period: None }
    }

    /// Sets the keycode to query.
    pub fn id(self, id: i32) -> (r: Keyp)
        ensures
            r == (Keyp { id: Some(id), ..self }),
    {
        Keyp { id: Some(id), ..self }
    }

    /// Sets the hold delay, in frames, before the repeat fires.
    pub fn hold(self, hold: i32) -> (r: Keyp)
        ensures
            r == (Keyp { hold: Some(hold), ..self }),
    {
        Keyp { hold: Some(hold), ..self }
    }

    /// Sets the repeat period, in frames.
    pub fn period(self, period: i32) -> (r: Keyp)
        ensures
            r == (Keyp { period: Some(period), ..self }),
    {
        Keyp { period: Some(period), ..self }
    }

    /// Finalizes the request into the raw call's flat arguments.
    pub fn keyp(&self) -> (r: KeypArgs)
        ensures
            r == self.spec_build(),
    {
        KeypArgs {
            id: sentinel_i32(self.id),
            hold: sentinel_i32(self.hold),
            period: sentinel_i32(self.period),
        }
    }

    /// Finalizes the request into the bit form, which queries the whole
    /// keyboard by passing the `-1` id sentinel.
    pub fn keyp_bit(self) -> (r: KeypArgs)
        ensures
            r == (KeypArgs { id: -1i32, ..self.spec_build() }),
    {
        KeypArgs { id: -1, hold: sentinel_i32(self.hold), period: sentinel_i32(self.period) }
    }
}

/// What the flat call form encodes, per optional parameter.
pub open spec fn spec_keyp_args(id: Option<i32>, hold: Option<i32>, period: Option<i32>) -> KeypArgs {
    KeypArgs {
        id: spec_sentinel_i32(id),
        hold: spec_sentinel_i32(hold),
        period: spec_sentinel_i32(period),
    }
}

/// The flat call form of the edge-triggered keyboard query.
pub fn keyp_args(id: Option<i32>, hold: Option<i32>, period: Option<i32>) -> (r: KeypArgs)
    ensures
        r == spec_keyp_args(id, hold, period),
{
    KeypArgs {
        id: sentinel_i32(id),
        hold: sentinel_i32(hold),
        period: sentinel_i32(period),
    }
}

/// For every choice of optional parameters, the flat call form and the
/// incremental request form encode the same flat arguments.
pub proof fn lemma_keyp_forms_agree(id: Option<i32>, hold: Option<i32>, period: Option<i32>)
    ensures
        (Keyp { id, hold, period }).spec_build() == spec_keyp_args(id, hold, period),
{
}

/// The record the mouse primitive fills: pointer position, per-frame
/// scroll, and one flag per button.
#[derive(Clone, Copy, Debug, PartialEq, Eq, Structural)]
pub struct MouseData {
    pub x: i16,
    pub y: i16,
    pub scrollx: i8,
    pub scrolly: i8,
    pub left: bool,
    pub middle: bool,
    pub right: bool,
}

impl Default for MouseData {
    /// The all-zero record the mouse primitive expects to overwrite.
    fn default() -> (r: MouseData)
        ensures
            r == (MouseData {
                x: 0,
                y: 0,
                scrollx: 0,
                scrolly: 0,
                left: false,
                middle: false,
                right: false,
            }),
    {
        MouseData { x: 0, y: 0, scrollx: 0, scrolly: 0, left: false, middle: false, right: false }
    }
}

} // verus!
