use vdu::cursor::Cursor;

fn cursor_at(x: i32, y: i32) -> Cursor {
    Cursor {
        position_x: x,
        position_y: y,
        screen_width: 64,
        screen_height: 64,
        font_width: 8,
        font_height: 8,
    }
}

#[test]
fn new_starts_at_origin() {
    let c = Cursor::new(640, 480, 8, 8);
    assert_eq!(c.position_x, 0);
    assert_eq!(c.position_y, 0);
    assert_eq!(c.screen_width, 640);
    assert_eq!(c.screen_height, 480);
    assert_eq!(c.font_width, 8);
    assert_eq!(c.font_height, 8);
}

#[test]
fn right_advances_one_cell() {
    let mut c = cursor_at(0, 0);
    c.right();
    assert_eq!((c.position_x, c.position_y), (8, 0));
}

#[test]
fn right_wraps_at_edge() {
    // x + cell width reaches the screen edge: back to column 0, down one line
    let mut c = cursor_at(56, 16);
    c.right();
    assert_eq!((c.position_x, c.position_y), (0, 24));
}

#[test]
fn right_wraps_past_edge() {
    let mut c = cursor_at(60, 0);
    c.right();
    assert_eq!((c.position_x, c.position_y), (0, 8));
}

#[test]
fn down_has_no_bottom_clamp() {
    let mut c = cursor_at(0, 56);
    c.down();
    assert_eq!(c.position_y, 64);
    c.down();
    assert_eq!(c.position_y, 72);
}

#[test]
fn up_moves_exactly_one_cell() {
    let mut c = cursor_at(0, 16);
    c.up();
    assert_eq!(c.position_y, 8);
}

#[test]
fn up_clamps_at_top() {
    let mut c = cursor_at(0, 4);
    c.up();
    assert_eq!(c.position_y, 0);
    c.up();
    assert_eq!(c.position_y, 0);
}

#[test]
fn left_moves_exactly_one_cell() {
    let mut c = cursor_at(16, 0);
    c.left();
    assert_eq!(c.position_x, 8);
}

#[test]
fn left_clamps_at_column_zero() {
    let mut c = cursor_at(4, 0);
    c.left();
    assert_eq!(c.position_x, 0);
    c.left();
    assert_eq!(c.position_x, 0);
}

#[test]
fn home_resets_column_only() {
    let mut c = cursor_at(37, 24);
    c.home();
    assert_eq!((c.position_x, c.position_y), (0, 24));
}
