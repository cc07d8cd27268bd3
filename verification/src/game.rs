//! The demo cartridge's frame logic, as a pure state machine.
//!
//! The host drives the guest through two entry points: a boot call made
//! exactly once after load, and a frame call made once per rendered
//! frame. All guest state lives in a [`Game`] value that the boot call
//! creates and each frame call updates; the frame call returns the
//! marshaled host calls it wants performed, in order, instead of
//! crossing the boundary itself. The thin foreign shim that the host
//! links against performs them after each frame, so no call is ever
//! issued before boot completes.

use vstd::prelude::*;
use vstd::string::StringSliceAdditionalSpecFns;

use crate::blit_calls::{
    map_args_model, map_default_args, MapArgs, MapShape, Spr, SprArgs, SprShape, spr_args_model,
};
use crate::colors::Colors;
use crate::draw_calls::{
    cls_args, ClsArgs, Print, PrintArgs, PrintShape, print_args_model, trace_args, TraceArgs,
};
use crate::error::Tic80Error;
use crate::text::has_nul;

verus! {

/// The hold delay, in frames, the demo passes to its edge-triggered
/// button queries.
pub const DEMO_HOLD: i32 = 6;

/// The repeat period, in frames, the demo passes to its edge-triggered
/// button queries.
pub const DEMO_PERIOD: i32 = 30;

/// How far one pressed direction moves the player, in pixels.
pub const MOVE_STEP: i32 = 16;

/// The color the demo clears the screen with.
pub const CLEAR_COLOR: i8 = 13;

/// The palette index the demo's sprite treats as transparent.
pub const TRANSPARENT_KEY: u8 = 14;

/// The player's starting x position.
pub const START_X: i32 = 96;

/// The player's starting y position.
pub const START_Y: i32 = 24;

/// The player's screen position.
#[derive(Clone, Copy, Debug, PartialEq, Eq, Structural)]
pub struct Player {
    pub x: i32,
    pub y: i32,
}

/// The guest-owned frame state: a frame counter and the player. It is
/// created by the boot call and belongs exclusively to the guest; the
/// host only ever observes it through the calls a frame returns.
#[derive(Clone, Copy, Debug, PartialEq, Eq, Structural)]
pub struct Game {
    pub tic: i32,
    pub player: Player,
}

impl Game {
    /// The frame counter never goes negative: it starts at zero and
    /// wraps to zero.
    pub open spec fn well_formed(&self) -> bool {
        self.tic >= 0
    }
}

/// The edge-triggered results for the four direction buttons on one
/// frame, as the host's edge-press query reports them with the demo's
/// hold and period.
#[derive(Clone, Copy, Debug, PartialEq, Eq, Structural)]
pub struct PadPresses {
    pub up: bool,
    pub down: bool,
    pub left: bool,
    pub right: bool,
}

/// One marshaled host call a frame asks for, carrying the exact flat
/// arguments the raw primitive reads.
#[derive(Clone, Debug, PartialEq, Eq)]
pub enum Command {
    Trace(TraceArgs),
    Cls(ClsArgs),
    TileMap(MapArgs),
    Sprite(SprArgs),
    Print(PrintArgs),
}

/// Moving one step toward larger coordinates, stopping at the numeric
/// ceiling instead of wrapping.
pub open spec fn spec_step_up(v: i32) -> i32 {
    if v + MOVE_STEP <= i32::MAX {
        (v + MOVE_STEP) as i32
    } else {
        i32::MAX
    }
}

/// Moving one step toward smaller coordinates, stopping at the numeric
/// floor instead of wrapping.
pub open spec fn spec_step_down(v: i32) -> i32 {
    if v - MOVE_STEP >= i32::MIN {
        (v - MOVE_STEP) as i32
    } else {
        i32::MIN
    }
}

fn step_up(v: i32) -> (r: i32)
    ensures
        r == spec_step_up(v),
{
    if v <= i32::MAX - MOVE_STEP {
        v + MOVE_STEP
    } else {
        i32::MAX
    }
}

fn step_down(v: i32) -> (r: i32)
    ensures
        r == spec_step_down(v),
{
    if v >= i32::MIN + MOVE_STEP {
        v - MOVE_STEP
    } else {
        i32::MIN
    }
}

/// Where the player stands after one frame of the demo's movement rule:
/// each pressed direction moves one step, vertical before horizontal.
pub open spec fn spec_step_player(p: Player, pad: PadPresses) -> Player {
    let y1 = if pad.up {
        spec_step_down(p.y)
    } else {
        p.y
    };
    let y2 = if pad.down {
        spec_step_up(y1)
    } else {
        y1
    };
    let x1 = if pad.left {
        spec_step_down(p.x)
    } else {
        p.x
    };
    let x2 = if pad.right {
        spec_step_up(x1)
    } else {
        x1
    };
    Player { x: x2, y: y2 }
}

/// The frame counter after one frame: one more, wrapping to zero at the
/// numeric ceiling.
pub open spec fn spec_next_tic(t: i32) -> i32 {
    if t == i32::MAX {
        0
    } else {
        (t + 1) as i32
    }
}

/// The sprite the demo shows on frame `t`: it alternates between two
/// 2x2 sprites every 30 frames.
pub open spec fn spec_sprite_id(t: int) -> int {
    1 + t % 60 / 30 * 2
}

/// One where pressed, zero where not.
pub open spec fn b2i(b: bool) -> int {
    if b {
        1int
    } else {
        0int
    }
}

/// How many direction buttons the pad reports pressed.
pub open spec fn count_pressed(pad: PadPresses) -> int {
    b2i(pad.up) + b2i(pad.down) + b2i(pad.left) + b2i(pad.right)
}

/// The command is a console diagnostic with exactly this text, marshaled
/// null-terminated, and the default color.
pub open spec fn spec_trace_cmd(c: Command, text: Seq<u8>) -> bool {
    c matches Command::Trace(a) && a.text@ == text.push(0u8) && a.color == -1i8
}

/// None of the demo's fixed texts holds a null byte, so marshaling them
/// always succeeds.
proof fn lemma_demo_texts()
    ensures
        !has_nul("btn 0".spec_bytes()),
        !has_nul("btn 1".spec_bytes()),
        !has_nul("btn 2".spec_bytes()),
        !has_nul("btn 3".spec_bytes()),
        !has_nul("HELLO WORLD FROM RUST!".spec_bytes()),
{
    reveal_strlit("btn 0");
    vstd::string::is_ascii_spec_bytes("btn 0");
    assert forall|i: int| 0 <= i < "btn 0".spec_bytes().len() implies "btn 0".spec_bytes()[i]
        != 0u8 by {
        assert("btn 0"@[i] != '\0');
    }
    reveal_strlit("btn 1");
    vstd::string::is_ascii_spec_bytes("btn 1");
    assert forall|i: int| 0 <= i < "btn 1".spec_bytes().len() implies "btn 1".spec_bytes()[i]
        != 0u8 by {
        assert("btn 1"@[i] != '\0');
    }
    reveal_strlit("btn 2");
    vstd::string::is_ascii_spec_bytes("btn 2");
    assert forall|i: int| 0 <= i < "btn 2".spec_bytes().len() implies "btn 2".spec_bytes()[i]
        != 0u8 by {
        assert("btn 2"@[i] != '\0');
    }
    reveal_strlit("btn 3");
    vstd::string::is_ascii_spec_bytes("btn 3");
    assert forall|i: int| 0 <= i < "btn 3".spec_bytes().len() implies "btn 3".spec_bytes()[i]
        != 0u8 by {
        assert("btn 3"@[i] != '\0');
    }
    reveal_strlit("HELLO WORLD FROM RUST!");
    vstd::string::is_ascii_spec_bytes("HELLO WORLD FROM RUST!");
    assert forall|i: int|
        0 <= i < "HELLO WORLD FROM RUST!".spec_bytes().len() implies "HELLO WORLD FROM RUST!".spec_bytes()[i]
        != 0u8 by {
        assert("HELLO WORLD FROM RUST!"@[i] != '\0');
    }
}

/// First-time setup of the frame state, run exactly once before any
/// frame call. It issues no host call.
pub fn boot() -> (r: Game)
    ensures
        r == (Game { tic: 0i32, player: Player { x: START_X, y: START_Y } }),
        r.well_formed(),
{
    Game { tic: 0, player: Player { x: START_X, y: START_Y } }
}

/// One frame of the demo: advances the frame counter, moves the player
/// one step per pressed direction, and returns the marshaled host calls
/// for the frame, in order — one diagnostic per pressed button, then the
/// screen clear, the default tile-map blit, the player sprite, and the
/// greeting text. Every text and color-key list the demo uses marshals
/// cleanly, so the frame always succeeds.
pub fn tic(game: &mut Game, pad: &PadPresses) -> (r: Result<Vec<Command>, Tic80Error>)
    requires
        old(game).well_formed(),
    ensures
        final(game).tic == spec_next_tic(old(game).tic),
        final(game).player == spec_step_player(old(game).player, *pad),
        final(game).well_formed(),
        r matches Ok(cmds) && {
            let n = count_pressed(*pad);
            &&& cmds@.len() == n + 4
            &&& pad.up ==> spec_trace_cmd(cmds@[0], "btn 0".spec_bytes())
            &&& pad.down ==> spec_trace_cmd(cmds@[b2i(pad.up)], "btn 1".spec_bytes())
            &&& pad.left ==> spec_trace_cmd(
                cmds@[b2i(pad.up) + b2i(pad.down)],
                "btn 2".spec_bytes(),
            )
            &&& pad.right ==> spec_trace_cmd(
                cmds@[b2i(pad.up) + b2i(pad.down) + b2i(pad.left)],
                "btn 3".spec_bytes(),
            )
            &&& cmds@[n] == Command::Cls(ClsArgs { color: CLEAR_COLOR })
            &&& cmds@[n + 1] matches Command::TileMap(a) && map_args_model(a) == (MapShape {
                x: -1i32,
                y: -1i32,
                w: -1i32,
                h: -1i32,
                sx: -1i32,
                sy: -1i32,
                keys: Seq::<u8>::empty(),
                count: 0i8,
                scale: -1i8,
                remap: -1i32,
            })
            &&& cmds@[n + 2] matches Command::Sprite(a) && spr_args_model(a) == (SprShape {
                id: spec_sprite_id(spec_next_tic(old(game).tic) as int) as i32,
                x: spec_step_player(old(game).player, *pad).x,
                y: spec_step_player(old(game).player, *pad).y,
                keys: seq![TRANSPARENT_KEY],
                count: 1i8,
                scale: -1i32,
                flip: -1i32,
                rotate: -1i32,
                width: 2i32,
                height: 2i32,
            })
            &&& cmds@[n + 3] matches Command::Print(a) && print_args_model(a) == (PrintShape {
                text: "HELLO WORLD FROM RUST!".spec_bytes().push(0u8),
                x: 84i32,
                y: 84i32,
                color: -1i8,
                fixed: 0i8,
                scale: -1i8,
                smallfont: 0i8,
            })
        },
{
    proof {
        lemma_demo_texts();
    }
    let mut cmds: Vec<Command> = Vec::new();
    game.tic = if game.tic == i32::MAX {
        0
    } else {
        game.tic + 1
    };

    if pad.up {
        cmds.push(Command::Trace(trace_args("btn 0", None)?));
        game.player.y = step_down(game.player.y);
    }
    if pad.down {
        cmds.push(Command::Trace(trace_args("btn 1", None)?));
        game.player.y = step_up(game.player.y);
    }
    if pad.left {
        cmds.push(Command::Trace(trace_args("btn 2", None)?));
        game.player.x = step_down(game.player.x);
    }
    if pad.right {
        cmds.push(Command::Trace(trace_args("btn 3", None)?));
        game.player.x = step_up(game.player.x);
    }

    cmds.push(Command::Cls(cls_args(CLEAR_COLOR)));
    cmds.push(Command::TileMap(map_default_args()));

    let phase: i32 = game.tic % 60;
    let sprite_id: i32 = 1 + phase / 30 * 2;
    let keys = Colors::with_color(TRANSPARENT_KEY);
    let spr_cmd = Spr::new()
        .transparent_colors(keys.as_slice())
        .width(2)
        .height(2)
        .spr(sprite_id, game.player.x, game.player.y)?;
    cmds.push(Command::Sprite(spr_cmd));

    let print_cmd = Print::new().x(84).y(84).print("HELLO WORLD FROM RUST!")?;
    cmds.push(Command::Print(print_cmd));

    Ok(cmds)
}

/// Holding the right direction (and not the left) never moves the player
/// back: across any frame, the horizontal position advances
/// monotonically under the demo's per-frame step rule.
pub proof fn lemma_right_moves_monotone(p: Player, pad: PadPresses)
    requires
        pad.right,
        !pad.left,
    ensures
        spec_step_player(p, pad).x >= p.x,
{
}

} // verus!
