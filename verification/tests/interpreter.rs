use vdu::glyph::{get_points, Point};
use vdu::vdp::{Action, Mode, Notice, VDP};

/// The 8 bitmap rows used for 'A' in these tests; the real font asset is
/// supplied by the host at construction.
const A_ROWS: [u8; 8] = [0x1c, 0x22, 0x22, 0x3e, 0x22, 0x22, 0x22, 0x00];

/// A font table whose only non-blank glyph is 'A' (code 0x41, table slot 33).
fn test_font() -> Vec<u8> {
    let mut font = vec![0u8; 34 * 8];
    font[33 * 8..34 * 8].copy_from_slice(&A_ROWS);
    font
}

fn fresh_vdp() -> VDP {
    VDP::new(64, 64, test_font())
}

#[test]
fn empty_queue_changes_nothing() {
    let mut v = fresh_vdp();
    let r = v.run(None);
    assert_eq!(r.notice, Notice::QueueEmpty);
    assert_eq!(r.action, Action::Nothing);
    assert_eq!((v.cursor.position_x, v.cursor.position_y), (0, 0));
    assert_eq!(v.mode, Mode::Idle);
}

#[test]
fn printable_draws_glyph_and_advances() {
    // 'A' at the origin on a 64-pixel-wide screen: the glyph is rasterized
    // in the cell at (0,0) and the cursor advances one cell to (8,0)
    let mut v = fresh_vdp();
    let r = v.run(Some(0x41));
    assert_eq!(r.notice, Notice::Printable(0x41));
    match r.action {
        Action::Draw(g) => {
            assert_eq!((g.x, g.y), (0, 0));
            assert_eq!(g.points, get_points(&A_ROWS.to_vec()));
            for p in &g.points {
                assert!((0..8).contains(&p.x) && (0..8).contains(&p.y));
            }
        }
        other => panic!("expected a draw request, got {:?}", other),
    }
    assert_eq!((v.cursor.position_x, v.cursor.position_y), (8, 0));
}

#[test]
fn glyph_beyond_font_table_renders_nothing_but_advances() {
    // 'B' has no glyph in the test font: nothing is drawn, yet the cursor
    // advances as if it had been
    let mut v = fresh_vdp();
    let r = v.run(Some(0x42));
    assert_eq!(r.notice, Notice::Printable(0x42));
    assert_eq!(r.action, Action::Nothing);
    assert_eq!((v.cursor.position_x, v.cursor.position_y), (8, 0));
}

#[test]
fn form_feed_clears_and_homes() {
    let mut v = fresh_vdp();
    v.run(Some(0x41));
    v.run(Some(0x0a));
    let r = v.run(Some(0x0c));
    assert_eq!(r.notice, Notice::ClearScreen);
    assert_eq!(r.action, Action::Clear);
    assert_eq!((v.cursor.position_x, v.cursor.position_y), (0, 0));
}

#[test]
fn cls_resets_cursor() {
    let mut v = fresh_vdp();
    v.run(Some(0x41));
    v.run(Some(0x0a));
    v.cls();
    assert_eq!((v.cursor.position_x, v.cursor.position_y), (0, 0));
}

#[test]
fn cursor_control_codes_move_the_cursor() {
    let mut v = fresh_vdp();
    assert_eq!(v.run(Some(0x0a)).notice, Notice::CursorDown);
    assert_eq!((v.cursor.position_x, v.cursor.position_y), (0, 8));
    assert_eq!(v.run(Some(0x09)).notice, Notice::CursorRight);
    assert_eq!((v.cursor.position_x, v.cursor.position_y), (8, 8));
    assert_eq!(v.run(Some(0x08)).notice, Notice::CursorLeft);
    assert_eq!((v.cursor.position_x, v.cursor.position_y), (0, 8));
    assert_eq!(v.run(Some(0x0b)).notice, Notice::CursorUp);
    assert_eq!((v.cursor.position_x, v.cursor.position_y), (0, 0));
}

#[test]
fn carriage_return_keeps_the_row() {
    let mut v = fresh_vdp();
    v.run(Some(0x41));
    v.run(Some(0x0a));
    let r = v.run(Some(0x0d));
    assert_eq!(r.notice, Notice::CarriageReturn);
    assert_eq!((v.cursor.position_x, v.cursor.position_y), (0, 8));
}

#[test]
fn home_code_returns_to_origin() {
    let mut v = fresh_vdp();
    v.run(Some(0x41));
    v.run(Some(0x0a));
    let r = v.run(Some(0x1e));
    assert_eq!(r.notice, Notice::Home);
    assert_eq!((v.cursor.position_x, v.cursor.position_y), (0, 0));
}

#[test]
fn system_control_sequence_is_recognized() {
    // [0x17, 0x00, 0x80]: the VDP general-purpose system-control command;
    // fully consumed, no cursor or surface change
    let mut v = fresh_vdp();
    v.run(Some(0x41));
    let (x, y) = (v.cursor.position_x, v.cursor.position_y);

    let r1 = v.run(Some(0x17));
    assert_eq!(r1.notice, Notice::Extended);
    assert_eq!(r1.action, Action::Nothing);
    assert_eq!(v.mode, Mode::AwaitSubcommand);

    let r2 = v.run(Some(0x00));
    assert_eq!(r2.notice, Notice::SystemControl);
    assert_eq!(r2.action, Action::Nothing);
    assert_eq!(v.mode, Mode::AwaitSystemOpcode);

    let r3 = v.run(Some(0x80));
    assert_eq!(r3.notice, Notice::VdpGp);
    assert_eq!(r3.action, Action::Nothing);
    assert_eq!(v.mode, Mode::Idle);

    assert_eq!((v.cursor.position_x, v.cursor.position_y), (x, y));
}

#[test]
fn keycode_opcode_is_recognized() {
    let mut v = fresh_vdp();
    v.run(Some(0x17));
    v.run(Some(0x00));
    assert_eq!(v.run(Some(0x81)).notice, Notice::VdpKeycode);
    assert_eq!(v.mode, Mode::Idle);
}

#[test]
fn unknown_system_opcode_is_reported() {
    let mut v = fresh_vdp();
    v.run(Some(0x17));
    v.run(Some(0x00));
    assert_eq!(v.run(Some(0x37)).notice, Notice::UnknownVsc(0x37));
    assert_eq!(v.mode, Mode::Idle);
}

#[test]
fn unimplemented_subcommands_are_reported() {
    for sub in [0x01u8, 0x07, 0x1b] {
        let mut v = fresh_vdp();
        v.run(Some(0x17));
        let r = v.run(Some(sub));
        assert_eq!(r.notice, Notice::UnimplementedSub(sub));
        assert_eq!(r.action, Action::Nothing);
        assert_eq!(v.mode, Mode::Idle);
    }
}

#[test]
fn unknown_subcommand_is_reported() {
    let mut v = fresh_vdp();
    v.run(Some(0x17));
    let r = v.run(Some(0x42));
    assert_eq!(r.notice, Notice::UnknownSub(0x42));
    assert_eq!(v.mode, Mode::Idle);
    assert_eq!((v.cursor.position_x, v.cursor.position_y), (0, 0));
}

#[test]
fn unknown_byte_changes_nothing_and_polling_goes_on() {
    // 0x14 is unknown: reported, discarded, and the next poll is normal
    let mut v = fresh_vdp();
    let r = v.run(Some(0x14));
    assert_eq!(r.notice, Notice::Unknown(0x14));
    assert_eq!(r.action, Action::Nothing);
    assert_eq!((v.cursor.position_x, v.cursor.position_y), (0, 0));
    assert_eq!(v.mode, Mode::Idle);

    let r2 = v.run(Some(0x41));
    assert_eq!(r2.notice, Notice::Printable(0x41));
    assert_eq!((v.cursor.position_x, v.cursor.position_y), (8, 0));
}

#[test]
fn unimplemented_opcodes_change_nothing() {
    for b in [0x0eu8, 0x0f, 0x10, 0x11, 0x12, 0x13, 0x16, 0x19, 0x1d, 0x1f, 0x7f] {
        let mut v = fresh_vdp();
        let r = v.run(Some(b));
        assert_eq!(r.notice, Notice::Unimplemented(b));
        assert_eq!(r.action, Action::Nothing);
        assert_eq!((v.cursor.position_x, v.cursor.position_y), (0, 0));
        assert_eq!(v.mode, Mode::Idle);
    }
}

#[test]
fn one_cell_screen_wraps_once_per_printable() {
    // the whole printable range on a screen exactly one glyph cell wide:
    // every character wraps the line, one cursor-down per character
    let mut v = VDP::new(8, 800, test_font());
    let mut wraps = 0;
    for b in 0x20..=0x7eu8 {
        let y_before = v.cursor.position_y;
        v.run(Some(b));
        assert_eq!(v.cursor.position_x, 0);
        assert_eq!(v.cursor.position_y, y_before + 8);
        wraps += 1;
    }
    assert_eq!(wraps, 95);
    assert_eq!(v.cursor.position_y, 95 * 8);
}

#[test]
fn delete_byte_is_not_printable() {
    let mut v = fresh_vdp();
    let r = v.run(Some(0x7f));
    assert_eq!(r.notice, Notice::Unimplemented(0x7f));
    assert_eq!((v.cursor.position_x, v.cursor.position_y), (0, 0));
}
