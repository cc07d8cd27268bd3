//! Argument-shape equivalence: for each primitive with optional
//! parameters, the flat call form and the incremental request form
//! produce identical encoded arguments, and absent parameters encode to
//! their documented sentinels.

use tic80::audio_calls::{music_args, sfx_args, Music, Sfx};
use tic80::blit_calls::{
    font_args, map_default_args, spr_args, ttri_args, Flip, Font, MapBlit, Rotation, Spr,
    TextureSource, TtriArgs,
};
use tic80::draw_calls::{
    clip_args, clip_reset_args, cls_args, cls_default_args, pix_get_args, pix_set_args,
    print_args, trace_args, Clip, Print,
};
use tic80::error::Tic80Error;
use tic80::input_calls::{
    btn_args, btn_bits_args, btnp_args, decode_pressed, key_args, key_bit_args, keyp_args, Btnp,
    Keyp, MouseData,
};
use tic80::memio_calls::{
    memset_args, peek8_args, peek_args, pmem_get_args, pmem_set_args, poke8_args, poke_args,
    sync_args,
};

#[test]
fn btnp_forms_agree_all_set() {
    let flat = btnp_args(Some(0), Some(6), Some(30));
    let built = Btnp::new().id(0).hold(6).period(30).btnp();
    assert_eq!(flat, built);
    assert_eq!(built.id, 0);
    assert_eq!(built.hold, 6);
    assert_eq!(built.period, 30);
}

#[test]
fn btnp_forms_agree_with_omissions() {
    let flat = btnp_args(None, Some(5), None);
    let built = Btnp::new().hold(5).btnp();
    assert_eq!(flat, built);
    assert_eq!(built.id, -1);
    assert_eq!(built.period, -1);
}

#[test]
fn btnp_all_defaults_are_sentinels() {
    let built = Btnp::default().btnp();
    assert_eq!(flat_btnp_sentinels(), (built.id, built.hold, built.period));
}

fn flat_btnp_sentinels() -> (i32, i32, i32) {
    let a = btnp_args(None, None, None);
    (a.id, a.hold, a.period)
}

#[test]
fn btnp_bits_forces_id_sentinel() {
    let a = Btnp::new().id(2).hold(1).period(2).btnp_bits();
    assert_eq!(a.id, -1);
    assert_eq!(a.hold, 1);
    assert_eq!(a.period, 2);
}

#[test]
fn keyp_forms_agree() {
    assert_eq!(keyp_args(Some(65), None, Some(3)), Keyp::new().id(65).period(3).keyp());
    let bit = Keyp::new().hold(9).keyp_bit();
    assert_eq!(bit.id, -1);
    assert_eq!(bit.hold, 9);
    assert_eq!(bit.period, -1);
}

#[test]
fn btn_and_key_bit_forms_use_sentinel() {
    assert_eq!(btn_args(3).id, 3);
    assert_eq!(btn_bits_args().id, -1);
    assert_eq!(key_args(27).keycode, 27);
    assert_eq!(key_bit_args().keycode, -1);
}

#[test]
fn decode_pressed_is_positive_count() {
    assert!(decode_pressed(1));
    assert!(decode_pressed(5));
    assert!(!decode_pressed(0));
    assert!(!decode_pressed(-1));
}

#[test]
fn clip_forms_agree() {
    assert_eq!(clip_args(Some(8), Some(8), None, None), Clip::new().x(8).y(8).clip());
    assert_eq!(clip_args(None, None, None, None), Clip::new().clip());
    assert_eq!(clip_reset_args(), Clip::new().clip());
}

#[test]
fn cls_forms() {
    assert_eq!(cls_args(13).color, 13);
    assert_eq!(cls_default_args().color, -1);
}

#[test]
fn pix_forms() {
    let set = pix_set_args(10, 20, 7);
    assert_eq!((set.x, set.y, set.color), (10, 20, 7));
    assert_eq!(pix_get_args(10, 20).color, -1);
}

#[test]
fn print_forms_agree() {
    let flat = print_args("HI", Some(84), Some(84), None, None, None, None).unwrap();
    let built = Print::new().x(84).y(84).print("HI").unwrap();
    assert_eq!(flat, built);
    assert_eq!(built.text, b"HI\0".to_vec());
    assert_eq!(built.color, -1);
    assert_eq!(built.fixed, 0);
    assert_eq!(built.scale, -1);
    assert_eq!(built.smallfont, 0);
}

#[test]
fn print_bools_encode_as_flags() {
    let built = Print::new().fixed(true).smallfont(true).print("A").unwrap();
    assert_eq!(built.fixed, 1);
    assert_eq!(built.smallfont, 1);
}

#[test]
fn print_rejects_embedded_nul() {
    assert_eq!(
        Print::new().print("bad\0text").unwrap_err(),
        Tic80Error::NulCStringError
    );
}

#[test]
fn trace_defaults_color_sentinel() {
    let a = trace_args("btn 0", None).unwrap();
    assert_eq!(a.text, b"btn 0\0".to_vec());
    assert_eq!(a.color, -1);
    let b = trace_args("warn", Some(2)).unwrap();
    assert_eq!(b.color, 2);
}

#[test]
fn spr_forms_agree() {
    let flat = spr_args(
        1,
        96,
        24,
        &[14],
        None,
        Some(Flip::Horizontal),
        Some(Rotation::Deg90),
        Some(2),
        Some(2),
    )
    .unwrap();
    let built = Spr::new()
        .transparent_colors(&[14])
        .flip(Flip::Horizontal)
        .rotate(Rotation::Deg90)
        .width(2)
        .height(2)
        .spr(1, 96, 24)
        .unwrap();
    assert_eq!(flat, built);
    assert_eq!(built.transparent_colors.bytes, vec![14]);
    assert_eq!(built.transparent_colors.count, 1);
    assert_eq!(built.scale, -1);
    assert_eq!(built.flip, 1);
    assert_eq!(built.rotate, 1);
}

#[test]
fn spr_defaults_are_sentinels() {
    let built = Spr::default().spr(5, 0, 0).unwrap();
    assert_eq!(built.transparent_colors.bytes, Vec::<u8>::new());
    assert_eq!(built.transparent_colors.count, 0);
    assert_eq!(built.scale, -1);
    assert_eq!(built.flip, -1);
    assert_eq!(built.rotate, -1);
    assert_eq!(built.width, -1);
    assert_eq!(built.height, -1);
}

#[test]
fn sprite_blit_sixteen_keys_overflows_and_issues_no_call() {
    // A probe for raw-call issuance: an encoded descriptor is the only
    // way a raw call can be made, so an error means zero raw calls.
    let keys: Vec<u8> = (0..16).collect();
    let r = Spr::new().transparent_colors(&keys).spr(1, 0, 0);
    assert_eq!(r.unwrap_err(), Tic80Error::WidthOverflow);
    let r = spr_args(1, 0, 0, &keys, None, None, None, None, None);
    assert!(r.is_err());
}

#[test]
fn map_default_matches_unset_builder() {
    let flat = map_default_args();
    let built = MapBlit::new().map().unwrap();
    assert_eq!(flat, built);
    assert_eq!(built.x, -1);
    assert_eq!(built.remap, -1);
    assert_eq!(built.transparent_colors.bytes, Vec::<u8>::new());
    assert_eq!(built.transparent_colors.count, 0);
}

#[test]
fn map_builder_sets_fields() {
    let built = MapBlit::new().x(1).y(2).w(3).h(4).sx(5).sy(6).scale(2).map().unwrap();
    assert_eq!(
        (built.x, built.y, built.w, built.h, built.sx, built.sy, built.scale),
        (1, 2, 3, 4, 5, 6, 2)
    );
}

#[test]
fn map_over_cap_overflows() {
    let keys: Vec<u8> = (0..16).collect();
    let r = MapBlit::new().transparent_colors(&keys).map();
    assert_eq!(r.unwrap_err(), Tic80Error::WidthOverflow);
}

#[test]
fn font_forms_agree() {
    let flat = font_args("GLYPHS", 4, 8, &[0], Some(5), Some(7), None, None).unwrap();
    let built = Font::new()
        .transparent_colors(&[0])
        .width(5)
        .height(7)
        .font("GLYPHS", 4, 8)
        .unwrap();
    assert_eq!(flat, built);
    assert_eq!(built.text, b"GLYPHS\0".to_vec());
    assert!(!built.fixed);
    assert!(!built.alt);
    assert_eq!(built.scale, -1);
}

#[test]
fn font_reports_nul_before_overflow() {
    let keys: Vec<u8> = (0..16).collect();
    let r = Font::new().transparent_colors(&keys).font("a\0b", 0, 0);
    assert_eq!(r.unwrap_err(), Tic80Error::NulCStringError);
}

#[test]
fn sfx_forms_agree() {
    let flat = sfx_args(2, Some(4), None, Some(30), None, None, None, Some(1));
    let built = Sfx::new().note(4).duration(30).speed(1).sfx(2);
    assert_eq!(flat, built);
    assert_eq!(built.octave, -1);
    assert_eq!(built.channel, -1);
}

#[test]
fn music_forms_agree_and_default_loops() {
    let flat = music_args(Some(0), None, None, None, None, None, None);
    let built = Music::new().track(0).music();
    assert_eq!(flat, built);
    assert!(built.loop_music);
    assert!(!built.sustain);
    assert_eq!(built.frame, -1);
    let stopped = Music::new().music();
    assert_eq!(stopped.track, -1);
}

#[test]
fn ttri_encodes_source_and_depth() {
    let a = ttri_args(TextureSource::Sprites, &[], false, false, false).unwrap();
    assert_eq!(a.texture_src, 0);
    assert!(!a.depth);
    let b: TtriArgs = ttri_args(TextureSource::TileMap, &[7], false, true, false).unwrap();
    assert_eq!(b.texture_src, 1);
    assert!(b.depth);
    assert_eq!(b.transparent_colors.count, 1);
    let keys: Vec<u8> = (0..16).collect();
    assert!(ttri_args(TextureSource::Sprites, &keys, false, false, false).is_err());
}

#[test]
fn peek_poke_widths() {
    assert_eq!(peek_args(0x100, None).bits, 8);
    assert_eq!(peek_args(0x100, Some(4)).bits, 4);
    assert_eq!(peek8_args(0x100).bits, -1);
    let p = poke_args(0x200, 7, None);
    assert_eq!((p.address, p.value, p.bits), (0x200, 7, 8));
    assert_eq!(poke8_args(0x200, 7).bits, -1);
}

#[test]
fn memset_widens_value() {
    let a = memset_args(0x4000, 0xAB, 64);
    assert_eq!(a.value, 0xAB_i32);
    assert_eq!(a.length, 64);
}

#[test]
fn pmem_read_uses_write_disable_sentinel() {
    assert_eq!(pmem_get_args(3).value, -1);
    let set = pmem_set_args(3, 12345);
    assert_eq!((set.index, set.value), (3, 12345));
}

#[test]
fn sync_encodes_direction_flag() {
    let a = sync_args(None, None, true);
    assert_eq!((a.mask, a.bank, a.to_cart), (-1, -1, 1));
    let b = sync_args(Some(4), Some(1), false);
    assert_eq!((b.mask, b.bank, b.to_cart), (4, 1, 0));
}

#[test]
fn mouse_data_default_is_zeroed() {
    let m = MouseData::default();
    assert_eq!((m.x, m.y, m.scrollx, m.scrolly), (0, 0, 0, 0));
    assert!(!m.left && !m.middle && !m.right);
}
