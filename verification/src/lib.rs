//! Guest-side binding layer for a TIC-80 style fantasy console.
//!
//! The host runtime owns the screen, audio mixer, input polling, and the
//! memory-mapped hardware regions; guest code talks to it through a flat
//! foreign call surface with sentinel-encoded optional parameters. This
//! library is the marshaling layer for that boundary: it shapes idiomatic
//! arguments into the exact flat encodings the host expects, models the
//! memory map, the edge-triggered input semantics, and the per-frame demo
//! logic, and reports boundary failures (oversized color-key lists, text
//! with embedded null bytes) instead of crossing with corrupt arguments.

use vstd::prelude::*;

pub mod audio_calls;
pub mod blit_calls;
pub mod colors;
pub mod draw_calls;
pub mod error;
pub mod game;
pub mod input_calls;
pub mod input_edge;
pub mod memio_calls;
pub mod memmap;
pub mod sentinel;
pub mod text;

pub use colors::{Colors, EncodedColors, MAX_COLOR_KEYS};
pub use error::Tic80Error;

verus! {

/// Screen width in pixels.
pub const WIDTH: u32 = 240;

/// Screen height in pixels.
pub const HEIGHT: u32 = 136;

pub fn screen_size() -> (r: (u32, u32))
    ensures
        r.0 == WIDTH,
        r.1 == HEIGHT,
{
    (WIDTH, HEIGHT)
}

} // verus!
