//! The demo cartridge's frame logic: boot, single frames, and a
//! simulated run against a synthetic input source.

use tic80::game::{
    boot, tic, Command, Game, PadPresses, CLEAR_COLOR, DEMO_HOLD, DEMO_PERIOD, MOVE_STEP, START_X,
    START_Y,
};
use tic80::input_edge::ButtonTracker;

fn idle_pad() -> PadPresses {
    PadPresses { up: false, down: false, left: false, right: false }
}

#[test]
fn boot_initializes_frame_state() {
    let g = boot();
    assert_eq!(g.tic, 0);
    assert_eq!(g.player.x, START_X);
    assert_eq!(g.player.y, START_Y);
}

#[test]
fn idle_frame_emits_clear_map_sprite_print() {
    let mut g = boot();
    let cmds = tic(&mut g, &idle_pad()).unwrap();
    assert_eq!(g.tic, 1);
    assert_eq!(g.player.x, START_X);
    assert_eq!(g.player.y, START_Y);
    assert_eq!(cmds.len(), 4);
    match &cmds[0] {
        Command::Cls(a) => assert_eq!(a.color, CLEAR_COLOR),
        other => panic!("expected a screen clear, got {:?}", other),
    }
    match &cmds[1] {
        Command::TileMap(a) => {
            assert_eq!(a.x, -1);
            assert_eq!(a.transparent_colors.count, 0);
        }
        other => panic!("expected the tile-map blit, got {:?}", other),
    }
    match &cmds[2] {
        Command::Sprite(a) => {
            assert_eq!(a.id, 1);
            assert_eq!(a.x, START_X);
            assert_eq!(a.y, START_Y);
            assert_eq!(a.transparent_colors.bytes, vec![14]);
            assert_eq!(a.width, 2);
            assert_eq!(a.height, 2);
        }
        other => panic!("expected the player sprite, got {:?}", other),
    }
    match &cmds[3] {
        Command::Print(a) => {
            assert_eq!(a.text, b"HELLO WORLD FROM RUST!\0".to_vec());
            assert_eq!(a.x, 84);
            assert_eq!(a.y, 84);
        }
        other => panic!("expected the greeting text, got {:?}", other),
    }
}

#[test]
fn pressed_buttons_trace_then_move() {
    let mut g = boot();
    let pad = PadPresses { up: true, down: false, left: false, right: true };
    let cmds = tic(&mut g, &pad).unwrap();
    assert_eq!(cmds.len(), 6);
    match &cmds[0] {
        Command::Trace(a) => {
            assert_eq!(a.text, b"btn 0\0".to_vec());
            assert_eq!(a.color, -1);
        }
        other => panic!("expected a diagnostic, got {:?}", other),
    }
    match &cmds[1] {
        Command::Trace(a) => assert_eq!(a.text, b"btn 3\0".to_vec()),
        other => panic!("expected a diagnostic, got {:?}", other),
    }
    assert_eq!(g.player.y, START_Y - MOVE_STEP);
    assert_eq!(g.player.x, START_X + MOVE_STEP);
}

#[test]
fn sprite_alternates_every_thirty_frames() {
    let mut g = Game { tic: 29, ..boot() };
    let cmds = tic(&mut g, &idle_pad()).unwrap();
    match &cmds[2] {
        Command::Sprite(a) => assert_eq!(a.id, 3),
        other => panic!("expected the player sprite, got {:?}", other),
    }
    let mut g = Game { tic: 59, ..boot() };
    let cmds = tic(&mut g, &idle_pad()).unwrap();
    match &cmds[2] {
        Command::Sprite(a) => assert_eq!(a.id, 1),
        other => panic!("expected the player sprite, got {:?}", other),
    }
}

#[test]
fn sixty_frames_of_held_right_advance_monotonically() {
    // Boot, then sixty simulated frame calls with a synthetic input
    // source that holds "move right" throughout, queried with the
    // demo's hold and period. No host call exists before boot: the
    // frame state a frame call needs is the value boot returns.
    let mut g = boot();
    let mut tracker = ButtonTracker::new();
    let mut last_x = g.player.x;
    for _ in 0..60 {
        let pressed = tracker.step(true, DEMO_HOLD, DEMO_PERIOD);
        let pad = PadPresses { up: false, down: false, left: false, right: pressed };
        let cmds = tic(&mut g, &pad).unwrap();
        assert!(g.player.x >= last_x, "horizontal position moved backwards");
        last_x = g.player.x;
        assert!(cmds.len() >= 4);
    }
    // The edge query fires on runs 1, 7 and 37 with hold 6, period 30.
    assert_eq!(g.player.x, START_X + 3 * MOVE_STEP);
    assert_eq!(g.tic, 60);
}
