//! Descriptors for the blit primitives: sprite, tile-map, spritesheet
//! font, and the textured triangle. Each takes a color-key list encoded
//! as a pointer and count, and small integer enumerations for flip,
//! rotation and the texture source.

use vstd::prelude::*;
use vstd::slice::slice_to_vec;
use vstd::string::StringSliceAdditionalSpecFns;

use crate::colors::{encode_color_keys, spec_encode_color_keys, EncodedColors};
use crate::error::Tic80Error;
use crate::sentinel::{
    sentinel_i32, sentinel_i8, spec_bool_or, spec_sentinel_i32, spec_sentinel_i8,
};
use crate::text::{encode_text, spec_encode_text};

verus! {

/// How a blit mirrors its source, as the host's small integer code.
#[derive(Clone, Copy, Debug, PartialEq, Eq, Structural)]
pub enum Flip {
    No,
    Horizontal,
    Vertical,
    Both,
}

/// The integer code a flip encodes to.
pub open spec fn spec_flip_code(f: Flip) -> i32 {
    match f {
        Flip::No => 0i32,
        Flip::Horizontal => 1i32,
        Flip::Vertical => 2i32,
        Flip::Both => 3i32,
    }
}

/// Encodes a flip as the raw primitive's integer code.
pub fn flip_code(f: Flip) -> (r: i32)
    ensures
        r == spec_flip_code(f),
{
    match f {
        Flip::No => 0,
        Flip::Horizontal => 1,
        Flip::Vertical => 2,
        Flip::Both => 3,
    }
}

/// An absent flip encodes to the `-1` sentinel.
pub open spec fn spec_flip_sentinel(f: Option<Flip>) -> i32 {
    match f {
        Some(x) => spec_flip_code(x),
        None => -1i32,
    }
}

/// Resolves an optional flip to its code, or to the sentinel when absent.
pub fn flip_sentinel(f: Option<Flip>) -> (r: i32)
    ensures
        r == spec_flip_sentinel(f),
{
    match f {
        Some(x) => flip_code(x),
        None => -1,
    }
}

/// A blit's clockwise rotation, as the host's small integer code.
#[derive(Clone, Copy, Debug, PartialEq, Eq, Structural)]
pub enum Rotation {
    Deg0,
    Deg90,
    Deg180,
    Deg270,
}

/// The integer code a rotation encodes to.
pub open spec fn spec_rotation_code(r: Rotation) -> i32 {
    match r {
        Rotation::Deg0 => 0i32,
        Rotation::Deg90 => 1i32,
        Rotation::Deg180 => 2i32,
        Rotation::Deg270 => 3i32,
    }
}

/// Encodes a rotation as the raw primitive's integer code.
pub fn rotation_code(rot: Rotation) -> (r: i32)
    ensures
        r == spec_rotation_code(rot),
{
    match rot {
        Rotation::Deg0 => 0,
        Rotation::Deg90 => 1,
        Rotation::Deg180 => 2,
        Rotation::Deg270 => 3,
    }
}

/// An absent rotation encodes to the `-1` sentinel.
pub open spec fn spec_rotation_sentinel(r: Option<Rotation>) -> i32 {
    match r {
        Some(x) => spec_rotation_code(x),
        None => -1i32,
    }
}

/// Resolves an optional rotation to its code, or to the sentinel when
/// absent.
pub fn rotation_sentinel(rot: Option<Rotation>) -> (r: i32)
    ensures
        r == spec_rotation_sentinel(rot),
{
    match rot {
        Some(x) => rotation_code(x),
        None => -1,
    }
}

/// The flat arguments of a sprite blit, exactly as the raw primitive
/// reads them.
#[derive(Clone, Debug, PartialEq, Eq)]
pub struct SprArgs {
    pub id: i32,
    pub x: i32,
    pub y: i32,
    pub transparent_colors: EncodedColors,
    pub scale: i32,
    pub flip: i32,
    pub rotate: i32,
    pub width: i32,
    pub height: i32,
}

/// The value of a marshaled sprite blit, with the color keys as the byte
/// sequence the pointer will address.
pub struct SprShape {
    pub id: i32,
    pub x: i32,
    pub y: i32,
    pub keys: Seq<u8>,
    pub count: i8,
    pub scale: i32,
    pub flip: i32,
    pub rotate: i32,
    pub width: i32,
    pub height: i32,
}

/// The shape an encoded sprite blit realizes.
pub open spec fn spr_args_model(a: SprArgs) -> SprShape {
    SprShape {
        id: a.id,
        x: a.x,
        y: a.y,
        keys: a.transparent_colors.bytes@,
        count: a.transparent_colors.count,
        scale: a.scale,
        flip: a.flip,
        rotate: a.rotate,
        width: a.width,
        height: a.height,
    }
}

/// An incrementally configured sprite blit. Unset fields resolve to the
/// `-1` sentinel, and color keys left unset encode as a null pointer
/// with a zero count.
#[derive(Clone, Debug, PartialEq, Eq)]
pub struct Spr {
    pub transparent_colors: Vec<u8>,
    pub scale: Option<i32>,
    pub flip: Option<Flip>,
    pub rotate: Option<Rotation>,
    pub width: Option<i32>,
    pub height: Option<i32>,
}

impl Spr {
    /// What finalizing this request encodes: a width overflow if the
    /// color-key list is over the host's cap, and the flat arguments
    /// otherwise.
    pub open spec fn spec_build(self, id: i32, x: i32, y: i32) -> Result<SprShape, Tic80Error> {
        match spec_encode_color_keys(self.transparent_colors@) {
            Ok(m) => Ok(
                SprShape {
                    id,
                    x,
                    y,
                    keys: m.0,
                    count: m.1,
                    scale: spec_sentinel_i32(self.scale),
                    flip: spec_flip_sentinel(self.flip),
                    rotate: spec_rotation_sentinel(self.rotate),
                    width: spec_sentinel_i32(self.width),
                    height: spec_sentinel_i32(self.height),
                },
            ),
            Err(e) => Err(e),
        }
    }

    /// A request with every field unset.
    pub fn new() -> (r: Spr)
        ensures
            r.transparent_colors@ == Seq::<u8>::empty(),
            r.scale is None,
            r.flip is None,
            r.rotate is None,
            r.width is None,
            r.height is None,
    {
        Spr {
            transparent_colors: Vec::new(),
            scale: None,
            flip: None,
            rotate: None,
            width: None,
            height: None,
        }
    }

    /// Sets the color keys treated as transparent.
    pub fn transparent_colors(self, keys: &[u8]) -> (r: Spr)
        ensures
            r == (Spr { transparent_colors: r.transparent_colors, ..self }),
            r.transparent_colors@ == keys@,
    {
        Spr { transparent_colors: slice_to_vec(keys), ..self }
    }

    /// Sets the integer scale factor.
    pub fn scale(self, scale: i32) -> (r: Spr)
        ensures
            r == (Spr { scale: Some(scale), ..self }),
    {
        Spr { scale: Some(scale), ..self }
    }

    /// Sets how the sprite is mirrored.
    pub fn flip(self, flip: Flip) -> (r: Spr)
        ensures
            r == (Spr { flip: Some(flip), ..self }),
    {
        Spr { flip: Some(flip), ..self }
    }

    /// Sets the sprite's clockwise rotation.
    pub fn rotate(self, rotate: Rotation) -> (r: Spr)
        ensures
            r == (Spr { rotate: Some(rotate), ..self }),
    {
        Spr { rotate: Some(rotate), ..self }
    }

    /// Sets the blit's width in 8-pixel cells.
    pub fn width(self, width: i32) -> (r: Spr)
        ensures
            r == (Spr { width: Some(width), ..self }),
    {
        Spr { width: Some(width), ..self }
    }

    /// Sets the blit's height in 8-pixel cells.
    pub fn height(self, height: i32) -> (r: Spr)
        ensures
            r == (Spr { height: Some(height), ..self }),
    {
        Spr { height: Some(height), ..self }
    }

    /// Finalizes the request for the given sprite id and position.
    /// Succeeds exactly when the color-key list fits the host's cap; a
    /// longer list is rejected with a width overflow and nothing is
    /// encoded.
    pub fn spr(self, id: i32, x: i32, y: i32) -> (r: Result<SprArgs, Tic80Error>)
        ensures
            match r {
                Ok(a) => {
                    &&& self.spec_build(id, x, y) matches Ok(m) && spr_args_model(a) == m
                    &&& a.transparent_colors.well_formed()
                },
                Err(err) => self.spec_build(id, x, y) matches Err(e2) && err == e2,
            },
    {
        let keys = encode_color_keys(self.transparent_colors.as_slice())?;
        Ok(
            SprArgs {
                id,
                x,
                y,
                transparent_colors: keys,
                scale: sentinel_i32(self.scale),
                flip: flip_sentinel(self.flip),
                rotate: rotation_sentinel(self.rotate),
                width: sentinel_i32(self.width),
                height: sentinel_i32(self.height),
            },
        )
    }
}

impl Default for Spr {
    /// A request with every field unset.
    fn default() -> (r: Spr)
        ensures
            r.transparent_colors@ == Seq::<u8>::empty(),
            r.scale is None,
            r.flip is None,
            r.rotate is None,
            r.width is None,
            r.height is None,
    {
        Spr {
            transparent_colors: Vec::new(),
            scale: None,
            flip: None,
            rotate: None,
            width: None,
            height: None,
        }
    }
}

/// What the flat call form encodes, per optional parameter.
pub open spec fn spec_spr_args(
    id: i32,
    x: i32,
    y: i32,
    keys: Seq<u8>,
    scale: Option<i32>,
    flip: Option<Flip>,
    rotate: Option<Rotation>,
    width: Option<i32>,
    height: Option<i32>,
) -> Result<SprShape, Tic80Error> {
    match spec_encode_color_keys(keys) {
        Ok(m) => Ok(
            SprShape {
                id,
                x,
                y,
                keys: m.0,
                count: m.1,
                scale: spec_sentinel_i32(scale),
                flip: spec_flip_sentinel(flip),
                rotate: spec_rotation_sentinel(rotate),
                width: spec_sentinel_i32(width),
                height: spec_sentinel_i32(height),
            },
        ),
        Err(e) => Err(e),
    }
}

/// The flat call form of the sprite blit.
pub fn spr_args(
    id: i32,
    x: i32,
    y: i32,
    keys: &[u8],
    scale: Option<i32>,
    flip: Option<Flip>,
    rotate: Option<Rotation>,
    width: Option<i32>,
    height: Option<i32>,
) -> (r: Result<SprArgs, Tic80Error>)
    ensures
        match r {
            Ok(a) => {
                &&& spec_spr_args(id, x, y, keys@, scale, flip, rotate, width, height)
                    matches Ok(m) && spr_args_model(a) == m
                &&& a.transparent_colors.well_formed()
            },
            Err(err) => spec_spr_args(id, x, y, keys@, scale, flip, rotate, width, height)
                matches Err(e2) && err == e2,
        },
{
    let encoded = encode_color_keys(keys)?;
    Ok(
        SprArgs {
            id,
            x,
            y,
            transparent_colors: encoded,
            scale: sentinel_i32(scale),
            flip: flip_sentinel(flip),
            rotate: rotation_sentinel(rotate),
            width: sentinel_i32(width),
            height: sentinel_i32(height),
        },
    )
}

/// For every choice of optional parameters and color keys, the flat call
/// form and the incremental request form encode the same arguments.
pub proof fn lemma_spr_forms_agree(b: Spr, id: i32, x: i32, y: i32)
    ensures
        b.spec_build(id, x, y) == spec_spr_args(
            id,
            x,
            y,
            b.transparent_colors@,
            b.scale,
            b.flip,
            b.rotate,
            b.width,
            b.height,
        ),
{
}

/// The flat arguments of a tile-map blit, exactly as the raw primitive
/// reads them.
#[derive(Clone, Debug, PartialEq, Eq)]
pub struct MapArgs {
    pub x: i32,
    pub y: i32,
    pub w: i32,
    pub h: i32,
    pub sx: i32,
    pub sy: i32,
    pub transparent_colors: EncodedColors,
    pub scale: i8,
    pub remap: i32,
}

/// The value of a marshaled tile-map blit.
pub struct MapShape {
    pub x: i32,
    pub y: i32,
    pub w: i32,
    pub h: i32,
    pub sx: i32,
    pub sy: i32,
    pub keys: Seq<u8>,
    pub count: i8,
    pub scale: i8,
    pub remap: i32,
}

/// The shape an encoded tile-map blit realizes.
pub open spec fn map_args_model(a: MapArgs) -> MapShape {
    MapShape {
        x: a.x,
        y: a.y,
        w: a.w,
        h: a.h,
        sx: a.sx,
        sy: a.sy,
        keys: a.transparent_colors.bytes@,
        count: a.transparent_colors.count,
        scale: a.scale,
        remap: a.remap,
    }
}

/// An incrementally configured tile-map blit. Unset fields resolve to
/// the `-1` sentinel, and color keys left unset encode as a null pointer
/// with a zero count.
#[derive(Clone, Debug, PartialEq, Eq)]
pub struct MapBlit {
    pub x: Option<i32>,
    pub y: Option<i32>,
    pub w: Option<i32>,
    pub h: Option<i32>,
    pub sx: Option<i32>,
    pub sy: Option<i32>,
    pub transparent_colors: Vec<u8>,
    pub scale: Option<i8>,
    pub remap: Option<i32>,
}

impl MapBlit {
    /// What finalizing this request encodes.
    pub open spec fn spec_build(self) -> Result<MapShape, Tic80Error> {
        match spec_encode_color_keys(self.transparent_colors@) {
            Ok(m) => Ok(
                MapShape {
                    x: spec_sentinel_i32(self.x),
                    y: spec_sentinel_i32(self.y),
                    w: spec_sentinel_i32(self.w),
                    h: spec_sentinel_i32(self.h),
                    sx: spec_sentinel_i32(self.sx),
                    sy: spec_sentinel_i32(self.sy),
                    keys: m.0,
                    count: m.1,
                    scale: spec_sentinel_i8(self.scale),
                    remap: spec_sentinel_i32(self.remap),
                },
            ),
            Err(e) => Err(e),
        }
    }

    /// A request with every field unset.
    pub fn new() -> (r: MapBlit)
        ensures
            r.x is None,
            r.y is None,
            r.w is None,
            r.h is None,
            r.sx is None,
            r.sy is None,
            r.transparent_colors@ == Seq::<u8>::empty(),
            r.scale is None,
            r.remap is None,
    {
        MapBlit {
            x: None,
            y: None,
            w: None,
            h: None,
            sx: None,
            sy: None,
            transparent_colors: Vec::new(),
            scale: None,
            remap: None,
        }
    }

    /// Sets the map cell column where the blit starts.
    pub fn x(self, x: i32) -> (r: MapBlit)
        ensures
            r == (MapBlit { x: Some(x), ..self }),
    {
        MapBlit { x: Some(x), ..self }
    }

    /// Sets the map cell row where the blit starts.
    pub fn y(self, y: i32) -> (r: MapBlit)
        ensures
            r == (MapBlit { y: Some(y), ..self }),
    {
        MapBlit { y: Some(y), ..self }
    }

    /// Sets how many cell columns to draw.
    pub fn w(self, w: i32) -> (r: MapBlit)
        ensures
            r == (MapBlit { w: Some(w), ..self }),
    {
        MapBlit { w: Some(w), ..self }
    }

    /// Sets how many cell rows to draw.
    pub fn h(self, h: i32) -> (r: MapBlit)
        ensures
            r == (MapBlit { h: Some(h), ..self }),
    {
        MapBlit { h: Some(h), ..self }
    }

    /// Sets the screen x coordinate where the blit lands.
    pub fn sx(self, sx: i32) -> (r: MapBlit)
        ensures
            r == (MapBlit { sx: Some(sx), ..self }),
    {
        MapBlit { sx: Some(sx), ..self }
    }

    /// Sets the screen y coordinate where the blit lands.
    pub fn sy(self, sy: i32) -> (r: MapBlit)
        ensures
            r == (MapBlit { sy: Some(sy), ..self }),
    {
        MapBlit { sy: Some(sy), ..self }
    }

    /// Sets the color keys treated as transparent.
    pub fn transparent_colors(self, keys: &[u8]) -> (r: MapBlit)
        ensures
            r == (MapBlit { transparent_colors: r.transparent_colors, ..self }),
            r.transparent_colors@ == keys@,
    {
        MapBlit { transparent_colors: slice_to_vec(keys), ..self }
    }

    /// Sets the integer scale factor.
    pub fn scale(self, scale: i8) -> (r: MapBlit)
        ensures
            r == (MapBlit { scale: Some(scale), ..self }),
    {
        MapBlit { scale: Some(scale), ..self }
    }

    /// Sets the tile-remap callback index.
    pub fn remap(self, remap: i32) -> (r: MapBlit)
        ensures
            r == (MapBlit { remap: Some(remap), ..self }),
    {
        MapBlit { remap: Some(remap), ..self }
    }

    /// Finalizes the request into the raw call's flat arguments.
    /// Succeeds exactly when the color-key list fits the host's cap.
    pub fn map(self) -> (r: Result<MapArgs, Tic80Error>)
        ensures
            match r {
                Ok(a) => {
                    &&& self.spec_build() matches Ok(m) && map_args_model(a) == m
                    &&& a.transparent_colors.well_formed()
                },
                Err(err) => self.spec_build() matches Err(e2) && err == e2,
            },
    {
        let keys = encode_color_keys(self.transparent_colors.as_slice())?;
        Ok(
            MapArgs {
                x: sentinel_i32(self.x),
                y: sentinel_i32(self.y),
                w: sentinel_i32(self.w),
                h: sentinel_i32(self.h),
                sx: sentinel_i32(self.sx),
                sy: sentinel_i32(self.sy),
                transparent_colors: keys,
                scale: sentinel_i8(self.scale),
                remap: sentinel_i32(self.remap),
            },
        )
    }
}

/// Arguments that draw the whole map with every parameter at its
/// default: each field at its sentinel and no transparency, encoded as a
/// null pointer with a zero count.
pub fn map_default_args() -> (r: MapArgs)
    ensures
        map_args_model(r) == (MapShape {
            x: -1i32,
            y: -1i32,
            w: -1i32,
            h: -1i32,
            sx: -1i32,
            sy: -1i32,
            keys: Seq::<u8>::empty(),
            count: 0i8,
            scale: -1i8,
            remap: -1i32,
        }),
        r.transparent_colors.well_formed(),
        r.transparent_colors.is_null(),
{
    let r = MapArgs {
        x: -1,
        y: -1,
        w: -1,
        h: -1,
        sx: -1,
        sy: -1,
        transparent_colors: EncodedColors { bytes: Vec::new(), count: 0 },
        scale: -1,
        remap: -1,
    };
    r
}

/// The default-map arguments equal a request finalized with every field
/// left unset: the two ways of asking for the default blit agree.
pub proof fn lemma_map_default_agrees(b: MapBlit)
    requires
        b.x is None,
        b.y is None,
        b.w is None,
        b.h is None,
        b.sx is None,
        b.sy is None,
        b.transparent_colors@ == Seq::<u8>::empty(),
        b.scale is None,
        b.remap is None,
    ensures
        b.spec_build() == Ok::<MapShape, Tic80Error>(
            MapShape {
                x: -1i32,
                y: -1i32,
                w: -1i32,
                h: -1i32,
                sx: -1i32,
                sy: -1i32,
                keys: Seq::<u8>::empty(),
                count: 0i8,
                scale: -1i8,
                remap: -1i32,
            },
        ),
{
}

/// The flat arguments of the spritesheet-font primitive, exactly as the
/// raw primitive reads them. The trailing `alt` flag selects the
/// alternate glyph page and is always passed false by this binding.
#[derive(Clone, Debug, PartialEq, Eq)]
pub struct FontArgs {
    /// The null-terminated text the pointer argument will address.
    pub text: Vec<u8>,
    pub x: i32,
    pub y: i32,
    pub transparent_colors: EncodedColors,
    pub width: i8,
    pub height: i8,
    pub fixed: bool,
    pub scale: i8,
    pub alt: bool,
}

/// The value of a marshaled spritesheet-font call.
pub struct FontShape {
    pub text: Seq<u8>,
    pub x: i32,
    pub y: i32,
    pub keys: Seq<u8>,
    pub count: i8,
    pub width: i8,
    pub height: i8,
    pub fixed: bool,
    pub scale: i8,
    pub alt: bool,
}

/// The shape an encoded spritesheet-font call realizes.
pub open spec fn font_args_model(a: FontArgs) -> FontShape {
    FontShape {
        text: a.text@,
        x: a.x,
        y: a.y,
        keys: a.transparent_colors.bytes@,
        count: a.transparent_colors.count,
        width: a.width,
        height: a.height,
        fixed: a.fixed,
        scale: a.scale,
        alt: a.alt,
    }
}

/// An incrementally configured spritesheet-font request. Unset integer
/// fields resolve to the `-1` sentinel; the fixed flag has no absent
/// sentinel and defaults to false.
#[derive(Clone, Debug, PartialEq, Eq)]
pub struct Font {
    pub transparent_colors: Vec<u8>,
    pub width: Option<i8>,
    pub height: Option<i8>,
    pub fixed: Option<bool>,
    pub scale: Option<i8>,
}

impl Font {
    /// What finalizing this request with the given text bytes encodes.
    /// The text is checked before the color keys, so text with an
    /// embedded null is reported even when the key list is also too
    /// long.
    pub open spec fn spec_build(self, text: Seq<u8>, x: i32, y: i32) -> Result<
        FontShape,
        Tic80Error,
    > {
        match spec_encode_text(text) {
            Ok(t) => match spec_encode_color_keys(self.transparent_colors@) {
                Ok(m) => Ok(
                    FontShape {
                        text: t,
                        x,
                        y,
                        keys: m.0,
                        count: m.1,
                        width: spec_sentinel_i8(self.width),
                        height: spec_sentinel_i8(self.height),
                        fixed: spec_bool_or(self.fixed, false),
                        scale: spec_sentinel_i8(self.scale),
                        alt: false,
                    },
                ),
                Err(e) => Err(e),
            },
            Err(e) => Err(e),
        }
    }

    /// A request with every field unset.
    pub fn new() -> (r: Font)
        ensures
            r.transparent_colors@ == Seq::<u8>::empty(),
            r.width is None,
            r.height is None,
            r.fixed is None,
            r.scale is None,
    {
        Font { transparent_colors: Vec::new(), width: None, height: None, fixed: None, scale: None }
    }

    /// Sets the color keys treated as transparent.
    pub fn transparent_colors(self, keys: &[u8]) -> (r: Font)
        ensures
            r == (Font { transparent_colors: r.transparent_colors, ..self }),
            r.transparent_colors@ == keys@,
    {
        Font { transparent_colors: slice_to_vec(keys), ..self }
    }

    /// Sets the glyph width.
    pub fn width(self, width: i8) -> (r: Font)
        ensures
            r == (Font { width: Some(width), ..self }),
    {
        Font { width: Some(width), ..self }
    }

    /// Sets the glyph height.
    pub fn height(self, height: i8) -> (r: Font)
        ensures
            r == (Font { height: Some(height), ..self }),
    {
        Font { height: Some(height), ..self }
    }

    /// Sets fixed-width rendering.
    pub fn fixed(self, fixed: bool) -> (r: Font)
        ensures
            r == (Font { fixed: Some(fixed), ..self }),
    {
        Font { fixed: Some(fixed), ..self }
    }

    /// Sets the glyph scale.
    pub fn scale(self, scale: i8) -> (r: Font)
        ensures
            r == (Font { scale: Some(scale), ..self }),
    {
        Font { scale: Some(scale), ..self }
    }

    /// Finalizes the request for the given text and position. Succeeds
    /// exactly when the text holds no null byte and the color-key list
    /// fits the host's cap; otherwise the first failure in that order is
    /// reported and nothing is encoded.
    pub fn font(self, text: &str, x: i32, y: i32) -> (r: Result<FontArgs, Tic80Error>)
        ensures
            match r {
                Ok(a) => {
                    &&& self.spec_build(text.spec_bytes(), x, y) matches Ok(m) && font_args_model(a)
                        == m
                    &&& a.transparent_colors.well_formed()
                },
                Err(err) => self.spec_build(text.spec_bytes(), x, y) matches Err(e2) && err == e2,
            },
    {
        let encoded_text = encode_text(text)?;
        let keys = encode_color_keys(self.transparent_colors.as_slice())?;
        Ok(
            FontArgs {
                text: encoded_text,
                x,
                y,
                transparent_colors: keys,
                width: sentinel_i8(self.width),
                height: sentinel_i8(self.height),
                fixed: match self.fixed {
                    Some(b) => b,
                    None => false,
                },
                scale: sentinel_i8(self.scale),
                alt: false,
            },
        )
    }
}

/// What the flat call form encodes, per optional parameter.
pub open spec fn spec_font_args(
    text: Seq<u8>,
    x: i32,
    y: i32,
    keys: Seq<u8>,
    width: Option<i8>,
    height: Option<i8>,
    fixed: Option<bool>,
    scale: Option<i8>,
) -> Result<FontShape, Tic80Error> {
    match spec_encode_text(text) {
        Ok(t) => match spec_encode_color_keys(keys) {
            Ok(m) => Ok(
                FontShape {
                    text: t,
                    x,
                    y,
                    keys: m.0,
                    count: m.1,
                    width: spec_sentinel_i8(width),
                    height: spec_sentinel_i8(height),
                    fixed: spec_bool_or(fixed, false),
                    scale: spec_sentinel_i8(scale),
                    alt: false,
                },
            ),
            Err(e) => Err(e),
        },
        Err(e) => Err(e),
    }
}

/// The flat call form of the spritesheet-font primitive.
pub fn font_args(
    text: &str,
    x: i32,
    y: i32,
    keys: &[u8],
    width: Option<i8>,
    height: Option<i8>,
    fixed: Option<bool>,
    scale: Option<i8>,
) -> (r: Result<FontArgs, Tic80Error>)
    ensures
        match r {
            Ok(a) => {
                &&& spec_font_args(text.spec_bytes(), x, y, keys@, width, height, fixed, scale)
                    matches Ok(m) && font_args_model(a) == m
                &&& a.transparent_colors.well_formed()
            },
            Err(err) => spec_font_args(text.spec_bytes(), x, y, keys@, width, height, fixed, scale)
                matches Err(e2) && err == e2,
        },
{
    let encoded_text = encode_text(text)?;
    let encoded_keys = encode_color_keys(keys)?;
    Ok(
        FontArgs {
            text: encoded_text,
            x,
            y,
            transparent_colors: encoded_keys,
            width: sentinel_i8(width),
            height: sentinel_i8(height),
            fixed: match fixed {
                Some(b) => b,
                None => false,
            },
            scale: sentinel_i8(scale),
            alt: false,
        },
    )
}

/// For every choice of optional parameters, color keys and text, the
/// flat call form and the incremental request form encode the same
/// arguments.
pub proof fn lemma_font_forms_agree(b: Font, text: Seq<u8>, x: i32, y: i32)
    ensures
        b.spec_build(text, x, y) == spec_font_args(
            text,
            x,
            y,
            b.transparent_colors@,
            b.width,
            b.height,
            b.fixed,
            b.scale,
        ),
{
}

/// Where the textured triangle reads its texels from.
#[derive(Clone, Copy, Debug, PartialEq, Eq, Structural)]
pub enum TextureSource {
    Sprites,
    TileMap,
}

/// The integer code a texture source encodes to.
pub open spec fn spec_texture_source_code(t: TextureSource) -> i32 {
    match t {
        TextureSource::Sprites => 0i32,
        TextureSource::TileMap => 1i32,
    }
}

/// Encodes a texture source as the raw primitive's integer code.
pub fn texture_source_code(t: TextureSource) -> (r: i32)
    ensures
        r == spec_texture_source_code(t),
{
    match t {
        TextureSource::Sprites => 0,
        TextureSource::TileMap => 1,
    }
}

/// The integer-encodable arguments of a textured-triangle call: the
/// texture source code, the color keys, and the depth flag. The vertex
/// coordinates and depth values are floating point and travel beside
/// this descriptor, outside the verified marshaling.
#[derive(Clone, Debug, PartialEq, Eq)]
pub struct TtriArgs {
    pub texture_src: i32,
    pub transparent_colors: EncodedColors,
    /// Whether any per-vertex depth value was supplied; the host then
    /// reads the three depth arguments.
    pub depth: bool,
}

/// The value of a marshaled textured-triangle call.
pub struct TtriShape {
    pub texture_src: i32,
    pub keys: Seq<u8>,
    pub count: i8,
    pub depth: bool,
}

/// The shape an encoded textured-triangle call realizes.
pub open spec fn ttri_args_model(a: TtriArgs) -> TtriShape {
    TtriShape {
        texture_src: a.texture_src,
        keys: a.transparent_colors.bytes@,
        count: a.transparent_colors.count,
        depth: a.depth,
    }
}

/// What the textured-triangle call form encodes.
pub open spec fn spec_ttri_args(
    texture_src: TextureSource,
    keys: Seq<u8>,
    z1_given: bool,
    z2_given: bool,
    z3_given: bool,
) -> Result<TtriShape, Tic80Error> {
    match spec_encode_color_keys(keys) {
        Ok(m) => Ok(
            TtriShape {
                texture_src: spec_texture_source_code(texture_src),
                keys: m.0,
                count: m.1,
                depth: z1_given || z2_given || z3_given,
            },
        ),
        Err(e) => Err(e),
    }
}

/// Shapes the integer-encodable arguments of a textured triangle: the
/// texture source code, the color keys, and the depth flag, which is set
/// exactly when some per-vertex depth value was supplied. Succeeds
/// exactly when the color-key list fits the host's cap.
pub fn ttri_args(
    texture_src: TextureSource,
    keys: &[u8],
    z1_given: bool,
    z2_given: bool,
    z3_given: bool,
) -> (r: Result<TtriArgs, Tic80Error>)
    ensures
        match r {
            Ok(a) => {
                &&& spec_ttri_args(texture_src, keys@, z1_given, z2_given, z3_given)
                    matches Ok(m) && ttri_args_model(a) == m
                &&& a.transparent_colors.well_formed()
            },
            Err(err) => spec_ttri_args(texture_src, keys@, z1_given, z2_given, z3_given)
                matches Err(e2) && err == e2,
        },
{
    let encoded = encode_color_keys(keys)?;
    Ok(
        TtriArgs {
            texture_src: texture_source_code(texture_src),
            transparent_colors: encoded,
            depth: z1_given || z2_given || z3_given,
        },
    )
}

} // verus!
