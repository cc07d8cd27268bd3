//! Descriptors for the screen-wide drawing and console primitives:
//! clearing, single pixels, the clipping region, plain text rendering,
//! and console diagnostics.

use vstd::prelude::*;
use vstd::string::StringSliceAdditionalSpecFns;

use crate::error::Tic80Error;
use crate::sentinel::{
    bool_flag, sentinel_i32, sentinel_i8, spec_bool_flag, spec_bool_or, spec_sentinel_i32,
    spec_sentinel_i8,
};
use crate::text::{encode_text, spec_encode_text};

verus! {

/// The flat argument of a screen clear: the fill color, or `-1` for the
/// host's default.
#[derive(Clone, Copy, Debug, PartialEq, Eq, Structural)]
pub struct ClsArgs {
    pub color: i8,
}

/// Arguments for clearing the screen with the given color.
pub fn cls_args(color: i8) -> (r: ClsArgs)
    ensures
        r == (ClsArgs { color }),
{
    ClsArgs { color }
}

/// Arguments for clearing the screen with the host's default color.
pub fn cls_default_args() -> (r: ClsArgs)
    ensures
        r == (ClsArgs { color: -1i8 }),
{
    ClsArgs { color: -1 }
}

/// The flat arguments of the pixel primitive: a position and either a
/// color to write or the `-1` sentinel to read the current color.
#[derive(Clone, Copy, Debug, PartialEq, Eq, Structural)]
pub struct PixArgs {
    pub x: i32,
    pub y: i32,
    pub color: i8,
}

/// Arguments for writing one pixel.
pub fn pix_set_args(x: i32, y: i32, color: i8) -> (r: PixArgs)
    ensures
        r == (PixArgs { x, y, color }),
{
    PixArgs { x, y, color }
}

/// Arguments for reading one pixel's color, by passing the sentinel in
/// the color field.
pub fn pix_get_args(x: i32, y: i32) -> (r: PixArgs)
    ensures
        r == (PixArgs { x, y, color: -1i8 }),
{
    PixArgs { x, y, color: -1 }
}

/// The flat arguments of the clipping-region primitive, exactly as the
/// raw primitive reads them.
#[derive(Clone, Copy, Debug, PartialEq, Eq, Structural)]
pub struct ClipArgs {
    pub x: i32,
    pub y: i32,
    pub w: i32,
    pub h: i32,
}

/// An incrementally configured clipping-region request. Unset fields
/// resolve to the `-1` sentinel when the request is finalized.
#[derive(Clone, Copy, Debug, PartialEq, Eq, Structural)]
pub struct Clip {
    pub x: Option<i32>,
    pub y: Option<i32>,
    pub w: Option<i32>,
    pub h: Option<i32>,
}

impl Clip {
    /// What finalizing this request encodes.
    pub open spec fn spec_build(self) -> ClipArgs {
        ClipArgs {
            x: spec_sentinel_i32(self.x),
            y: spec_sentinel_i32(self.y),
            w: spec_sentinel_i32(self.w),
            h: spec_sentinel_i32(self.h),
        }
    }

    /// A request with every field unset.
    pub fn new() -> (r: Clip)
        ensures
            r == (Clip { x: None, y: None, w: None, h: None }),
    {
        Clip { x: None, y: None, w: None, h: None }
    }

    /// Sets the region's left edge.
    pub fn x(self, x: i32) -> (r: Clip)
        ensures
            r == (Clip { x: Some(x), ..self }),
    {
        Clip { x: Some(x), ..self }
    }

    /// Sets the region's top edge.
    pub fn y(self, y: i32) -> (r: Clip)
        ensures
            r == (Clip { y: Some(y), ..self }),
    {
        Clip { y: Some(y), ..self }
    }

    /// Sets the region's width.
    pub fn w(self, w: i32) -> (r: Clip)
        ensures
            r == (Clip { w: Some(w), ..self }),
    {
        Clip { w: Some(w), ..self }
    }

    /// Sets the region's height.
    pub fn h(self, h: i32) -> (r: Clip)
        ensures
            r == (Clip { h: Some(h), ..self }),
    {
        Clip { h: Some(h), ..self }
    }

    /// Finalizes the request into the raw call's flat arguments.
    pub fn clip(&self) -> (r: ClipArgs)
        ensures
            r == self.spec_build(),
    {
        ClipArgs {
            x: sentinel_i32(self.x),
            y: sentinel_i32(self.y),
            w: sentinel_i32(self.w),
            h: sentinel_i32(self.h),
        }
    }
}

/// Arguments that unset the clipping region: every field is the sentinel,
/// which the host reads as "the whole screen".
pub fn clip_reset_args() -> (r: ClipArgs)
    ensures
        r == (ClipArgs { x: -1i32, y: -1i32, w: -1i32, h: -1i32 }),
{
    ClipArgs { x: -1, y: -1, w: -1, h: -1 }
}

/// What the flat call form encodes, per optional parameter.
pub open spec fn spec_clip_args(
    x: Option<i32>,
    y: Option<i32>,
    w: Option<i32>,
    h: Option<i32>,
) -> ClipArgs {
    ClipArgs {
        x: spec_sentinel_i32(x),
        y: spec_sentinel_i32(y),
        w: spec_sentinel_i32(w),
        h: spec_sentinel_i32(h),
    }
}

/// The flat call form of the clipping-region primitive.
pub fn clip_args(x: Option<i32>, y: Option<i32>, w: Option<i32>, h: Option<i32>) -> (r: ClipArgs)
    ensures
        r == spec_clip_args(x, y, w, h),
{
    ClipArgs {
        x: sentinel_i32(x),
        y: sentinel_i32(y),
        w: sentinel_i32(w),
        h: sentinel_i32(h),
    }
}

/// For every choice of optional parameters, the flat call form and the
/// incremental request form encode the same flat arguments.
pub proof fn lemma_clip_forms_agree(x: Option<i32>, y: Option<i32>, w: Option<i32>, h: Option<i32>)
    ensures
        (Clip { x, y, w, h }).spec_build() == spec_clip_args(x, y, w, h),
{
}

/// The flat arguments of the console diagnostic primitive: the marshaled
/// text and a console color.
#[derive(Clone, Debug, PartialEq, Eq)]
pub struct TraceArgs {
    /// The null-terminated text the pointer argument will address.
    pub text: Vec<u8>,
    pub color: i8,
}

/// Shapes a console diagnostic message: the text is marshaled as a null-
/// terminated byte sequence and an absent color falls back to the `-1`
/// sentinel. Fails with an embedded-terminator error, and encodes
/// nothing, exactly when the text holds a null byte.
pub fn trace_args(text: &str, color: Option<i8>) -> (r: Result<TraceArgs, Tic80Error>)
    ensures
        match r {
            Ok(a) => {
                &&& spec_encode_text(text.spec_bytes()) matches Ok(t) && a.text@ == t
                &&& a.color == spec_sentinel_i8(color)
            },
            Err(err) => spec_encode_text(text.spec_bytes()) matches Err(e2) && err == e2,
        },
{
    let encoded = encode_text(text)?;
    Ok(TraceArgs { text: encoded, color: sentinel_i8(color) })
}

/// The flat arguments of the text-rendering primitive, exactly as the
/// raw primitive reads them.
#[derive(Clone, Debug, PartialEq, Eq)]
pub struct PrintArgs {
    /// The null-terminated text the pointer argument will address.
    pub text: Vec<u8>,
    pub x: i32,
    pub y: i32,
    pub color: i8,
    pub fixed: i8,
    pub scale: i8,
    pub smallfont: i8,
}

/// The value of a marshaled text-rendering call, with the text as the
/// byte sequence the pointer will address.
pub struct PrintShape {
    pub text: Seq<u8>,
    pub x: i32,
    pub y: i32,
    pub color: i8,
    pub fixed: i8,
    pub scale: i8,
    pub smallfont: i8,
}

/// The shape an encoded text-rendering call realizes.
pub open spec fn print_args_model(a: PrintArgs) -> PrintShape {
    PrintShape {
        text: a.text@,
        x: a.x,
        y: a.y,
        color: a.color,
        fixed: a.fixed,
        scale: a.scale,
        smallfont: a.smallfont,
    }
}

/// An incrementally configured text-rendering request. Unset integer
/// fields resolve to the `-1` sentinel; the boolean fields have no absent
/// sentinel and default to false.
#[derive(Clone, Copy, Debug, PartialEq, Eq, Structural)]
pub struct Print {
    pub x: Option<i32>,
    pub y: Option<i32>,
    pub color: Option<i8>,
    pub fixed: Option<bool>,
    pub scale: Option<i8>,
    pub smallfont: Option<bool>,
}

impl Print {
    /// What finalizing this request with the given text bytes encodes.
    pub open spec fn spec_build(self, text: Seq<u8>) -> Result<PrintShape, Tic80Error> {
        match spec_encode_text(text) {
            Ok(t) => Ok(
                PrintShape {
                    text: t,
                    x: spec_sentinel_i32(self.x),
                    y: spec_sentinel_i32(self.y),
                    color: spec_sentinel_i8(self.color),
                    fixed: spec_bool_flag(spec_bool_or(self.fixed, false)),
                    scale: spec_sentinel_i8(self.scale),
                    smallfont: spec_bool_flag(spec_bool_or(self.smallfont, false)),
                },
            ),
            Err(e) => Err(e),
        }
    }

    /// A request with every field unset.
    pub fn new() -> (r: Print)
        ensures
            r == (Print {
                x: None,
                y: None,
                color: None,
                fixed: None,
                scale: None,
                smallfont: None,
            }),
    {
        Print { x: None, y: None, color: None, fixed: None, scale: None, smallfont: None }
    }

    /// Sets the text position's x coordinate.
    pub fn x(self, x: i32) -> (r: Print)
        ensures
            r == (Print { x: Some(x), ..self }),
    {
        Print { x: Some(x), ..self }
    }

    /// Sets the text position's y coordinate.
    pub fn y(self, y: i32) -> (r: Print)
        ensures
            r == (Print { y: Some(y), ..self }),
    {
        Print { y: Some(y), ..self }
    }

    /// Sets the text color.
    pub fn color(self, color: i8) -> (r: Print)
        ensures
            r == (Print { color: Some(color), ..self }),
    {
        Print { color: Some(color), ..self }
    }

    /// Sets fixed-width rendering.
    pub fn fixed(self, fixed: bool) -> (r: Print)
        ensures
            r == (Print { fixed: Some(fixed), ..self }),
    {
        Print { fixed: Some(fixed), ..self }
    }

    /// Sets the text scale.
    pub fn scale(self, scale: i8) -> (r: Print)
        ensures
            r == (Print { scale: Some(scale), ..self }),
    {
        Print { scale: Some(scale), ..self }
    }

    /// Sets rendering with the small font.
    pub fn smallfont(self, smallfont: bool) -> (r: Print)
        ensures
            r == (Print { smallfont: Some(smallfont), ..self }),
    {
        Print { smallfont: Some(smallfont), ..self }
    }

    /// Finalizes the request for the given text. Succeeds, with the text
    /// marshaled null-terminated and every unset field at its sentinel or
    /// default, exactly when the text holds no null byte.
    pub fn print(&self, text: &str) -> (r: Result<PrintArgs, Tic80Error>)
        ensures
            match r {
                Ok(a) => self.spec_build(text.spec_bytes()) matches Ok(m) && print_args_model(a)
                    == m,
                Err(err) => self.spec_build(text.spec_bytes()) matches Err(e2) && err == e2,
            },
    {
        let encoded = encode_text(text)?;
        Ok(
            PrintArgs {
                text: encoded,
                x: sentinel_i32(self.x),
                y: sentinel_i32(self.y),
                color: sentinel_i8(self.color),
                fixed: bool_flag(match self.fixed {
                    Some(b) => b,
                    None => false,
                }),
                scale: sentinel_i8(self.scale),
                smallfont: bool_flag(match self.smallfont {
                    Some(b) => b,
                    None => false,
                }),
            },
        )
    }
}

impl Default for Print {
    /// A request with every field unset.
    fn default() -> (r: Print)
        ensures
            r == (Print {
                x: None,
                y: None,
                color: None,
                fixed: None,
                scale: None,
                smallfont: None,
            }),
    {
        Print { x: None, y: None, color: None, fixed: None, scale: None, smallfont: None }
    }
}

/// What the flat call form encodes, per optional parameter.
pub open spec fn spec_print_args(
    text: Seq<u8>,
    x: Option<i32>,
    y: Option<i32>,
    color: Option<i8>,
    fixed: Option<bool>,
    scale: Option<i8>,
    smallfont: Option<bool>,
) -> Result<PrintShape, Tic80Error> {
    match spec_encode_text(text) {
        Ok(t) => Ok(
            PrintShape {
                text: t,
                x: spec_sentinel_i32(x),
                y: spec_sentinel_i32(y),
                color: spec_sentinel_i8(color),
                fixed: spec_bool_flag(spec_bool_or(fixed, false)),
                scale: spec_sentinel_i8(scale),
                smallfont: spec_bool_flag(spec_bool_or(smallfont, false)),
            },
        ),
        Err(e) => Err(e),
    }
}

/// The flat call form of the text-rendering primitive.
pub fn print_args(
    text: &str,
    x: Option<i32>,
    y: Option<i32>,
    color: Option<i8>,
    fixed: Option<bool>,
    scale: Option<i8>,
    smallfont: Option<bool>,
) -> (r: Result<PrintArgs, Tic80Error>)
    ensures
        match r {
            Ok(a) => spec_print_args(text.spec_bytes(), x, y, color, fixed, scale, smallfont)
                matches Ok(m) && print_args_model(a) == m,
            Err(err) => spec_print_args(text.spec_bytes(), x, y, color, fixed, scale, smallfont)
                matches Err(e2) && err == e2,
        },
{
    let encoded = encode_text(text)?;
    Ok(
        PrintArgs {
            text: encoded,
            x: sentinel_i32(x),
            y: sentinel_i32(y),
            color: sentinel_i8(color),
            fixed: bool_flag(match fixed {
                Some(b) => b,
                None => false,
            }),
            scale: sentinel_i8(scale),
            smallfont: bool_flag(match smallfont {
                Some(b) => b,
                None => false,
            }),
        },
    )
}

/// For every choice of optional parameters and every text, the flat call
/// form and the incremental request form encode the same arguments.
pub proof fn lemma_print_forms_agree(
    text: Seq<u8>,
    x: Option<i32>,
    y: Option<i32>,
    color: Option<i8>,
    fixed: Option<bool>,
    scale: Option<i8>,
    smallfont: Option<bool>,
)
    ensures
        (Print { x, y, color, fixed, scale, smallfont }).spec_build(text) == spec_print_args(
            text,
            x,
            y,
            color,
            fixed,
            scale,
            smallfont,
        ),
{
}

} // verus!
