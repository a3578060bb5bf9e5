//! The VDU command interpreter: consumes one byte per poll, classifies it as
//! printable or control, and either requests a glyph draw, mutates the
//! cursor, or walks through a multi-byte extended command.
//!
//! The host owns the inbound byte queue and the render surface. Each poll it
//! hands the interpreter the byte its non-blocking receive produced (or
//! `None` when the queue was empty) and performs the returned [`Action`] on
//! the surface. Multi-byte commands introduced by 0x17 are carried across
//! polls in an explicit [`Mode`] instead of blocking on the queue.

use vstd::prelude::*;

use crate::cursor::Cursor;
use crate::glyph::{get_points, glyph_points, GlyphDraw, Point};

verus! {

/// Interpreter mode carried across polls: idle, or partway through a
/// multi-byte extended command introduced by 0x17.
#[derive(Clone, Copy, PartialEq, Eq, Structural, Debug)]
pub enum Mode {
    /// No multi-byte sequence is pending.
    Idle,
    /// A 0x17 introducer was consumed; the next byte is its subcommand.
    AwaitSubcommand,
    /// A 0x00 subcommand followed 0x17; the next byte is a system-control
    /// opcode.
    AwaitSystemOpcode,
}

/// What the render surface must do after a poll.
#[derive(PartialEq, Debug)]
pub enum Action {
    /// Plot the points of one glyph, foreground-coloured, inside the cell
    /// anchored at the carried position, then present.
    Draw(GlyphDraw),
    /// Fill the whole surface with the background colour.
    Clear,
    /// Nothing to render.
    Nothing,
}

/// Diagnostic classification of one poll: which command the consumed byte
/// was, and whether it is implemented, recognized but unimplemented, or
/// unknown. An observability side-channel for the host's log.
#[derive(Clone, Copy, PartialEq, Eq, Structural, Debug)]
pub enum Notice {
    /// No byte was available; the normal idle condition, not an error.
    QueueEmpty,
    /// A printable character was rendered.
    Printable(u8),
    /// 0x08.
    CursorLeft,
    /// 0x09.
    CursorRight,
    /// 0x0A, line feed.
    CursorDown,
    /// 0x0B, reverse line feed.
    CursorUp,
    /// 0x0C, form feed.
    ClearScreen,
    /// 0x0D.
    CarriageReturn,
    /// 0x1E.
    Home,
    /// A reserved opcode slot: consumed and reported, no state change.
    Unimplemented(u8),
    /// The 0x17 extended-command introducer; a subcommand byte is awaited.
    Extended,
    /// The 0x00 system-control subcommand; an opcode byte is awaited.
    SystemControl,
    /// System-control opcode 0x80.
    VdpGp,
    /// System-control opcode 0x81.
    VdpKeycode,
    /// An unrecognized system-control opcode.
    UnknownVsc(u8),
    /// A recognized but unimplemented extended subcommand (0x01, 0x07, 0x1B).
    UnimplementedSub(u8),
    /// An unrecognized extended subcommand.
    UnknownSub(u8),
    /// An unrecognized top-level command byte.
    Unknown(u8),
}

/// What one poll returns: the render request and the diagnostic.
pub struct StepResult {
    pub action: Action,
    pub notice: Notice,
}

/// A printable character: at or above the 0x20 space, excluding 0x7F.
pub open spec fn is_printable(b: u8) -> bool {
    b >= 0x20 && b != 0x7f
}

/// A reserved top-level opcode slot: recognized, consumed, and reported, but
/// with no implemented behaviour.
pub open spec fn is_unimplemented(b: u8) -> bool {
    ||| 0x0e <= b <= 0x13
    ||| b == 0x16
    ||| b == 0x19
    ||| b == 0x1d
    ||| b == 0x1f
    ||| b == 0x7f
}

/// Whether the font table has a glyph for character code `ascii`: the table
/// holds 8 bytes per glyph from code 0x20 upward, and its length determines
/// the renderable glyph count.
pub open spec fn glyph_in_range(font: Seq<u8>, ascii: u8) -> bool {
    ascii >= 32 && ascii - 32 < font.len() / 8
}

/// The 8 bitmap rows of the glyph for character code `ascii`.
pub open spec fn glyph_rows(font: Seq<u8>, ascii: u8) -> Seq<u8> {
    font.subrange(8 * (ascii - 32), 8 * (ascii - 32) + 8)
}

/// The cursor after one poll in mode `m` that received `input`.
pub open spec fn cursor_step(c: Cursor, m: Mode, input: Option<u8>) -> Cursor {
    match input {
        Option::None => c,
        Option::Some(b) => {
            if m != Mode::Idle {
                c
            } else if is_printable(b) {
                c.right_spec()
            } else if b == 0x08 {
                c.left_spec()
            } else if b == 0x09 {
                c.right_spec()
            } else if b == 0x0a {
                c.down_spec()
            } else if b == 0x0b {
                c.up_spec()
            } else if b == 0x0c {
                Cursor { position_x: 0, position_y: 0, ..c }
            } else if b == 0x0d {
                c.home_spec()
            } else if b == 0x1e {
                Cursor { position_x: 0, position_y: 0, ..c }
            } else {
                c
            }
        },
    }
}

/// The mode after one poll in mode `m` that received `input`.
pub open spec fn mode_step(m: Mode, input: Option<u8>) -> Mode {
    match input {
        Option::None => m,
        Option::Some(b) => match m {
            Mode::Idle => if b == 0x17 {
                Mode::AwaitSubcommand
            } else {
                Mode::Idle
            },
            Mode::AwaitSubcommand => if b == 0x00 {
                Mode::AwaitSystemOpcode
            } else {
                Mode::Idle
            },
            Mode::AwaitSystemOpcode => Mode::Idle,
        },
    }
}

/// The diagnostic one poll in mode `m` reports for `input`.
pub open spec fn notice_step(m: Mode, input: Option<u8>) -> Notice {
    match input {
        Option::None => Notice::QueueEmpty,
        Option::Some(b) => match m {
            Mode::Idle => if is_printable(b) {
                Notice::Printable(b)
            } else if b == 0x08 {
                Notice::CursorLeft
            } else if b == 0x09 {
                Notice::CursorRight
            } else if b == 0x0a {
                Notice::CursorDown
            } else if b == 0x0b {
                Notice::CursorUp
            } else if b == 0x0c {
                Notice::ClearScreen
            } else if b == 0x0d {
                Notice::CarriageReturn
            } else if b == 0x17 {
                Notice::Extended
            } else if b == 0x1e {
                Notice::Home
            } else if is_unimplemented(b) {
                Notice::Unimplemented(b)
            } else {
                Notice::Unknown(b)
            },
            Mode::AwaitSubcommand => if b == 0x00 {
                Notice::SystemControl
            } else if b == 0x01 || b == 0x07 || b == 0x1b {
                Notice::UnimplementedSub(b)
            } else {
                Notice::UnknownSub(b)
            },
            Mode::AwaitSystemOpcode => if b == 0x80 {
                Notice::VdpGp
            } else if b == 0x81 {
                Notice::VdpKeycode
            } else {
                Notice::UnknownVsc(b)
            },
        },
    }
}

/// What the render request of one poll must be: the glyph of a printable
/// byte drawn at the old cursor position, a clear for form feed, and nothing
/// in every other case.
pub open spec fn action_step(c: Cursor, m: Mode, font: Seq<u8>, input: Option<u8>, a: Action) -> bool {
    match input {
        Option::None => a is Nothing,
        Option::Some(b) => {
            if m == Mode::Idle && is_printable(b) {
                if glyph_in_range(font, b) {
                    &&& a matches Action::Draw(g)
                    &&& g.x == c.position_x
                    &&& g.y == c.position_y
                    &&& g.points@ == glyph_points(glyph_rows(font, b))
                } else {
                    a is Nothing
                }
            } else if m == Mode::Idle && b == 0x0c {
                a is Clear
            } else {
                a is Nothing
            }
        },
    }
}

/// The VDU device core: a cursor, the mode of a pending multi-byte command,
/// and the read-only font table supplied at construction.
pub struct VDP {
    pub cursor: Cursor,
    pub mode: Mode,
    pub font: Vec<u8>,
}

impl VDP {
    /// Well-formed: the cursor invariant holds.
    pub open spec fn wf(self) -> bool {
        self.cursor.wf()
    }

    /// An idle interpreter for a screen of the given pixel size, with an 8x8
    /// glyph cell, the cursor at the origin, and the given font table
    /// (8 bytes per glyph, covering character codes from 0x20 upward).
    pub fn new(screen_width: i32, screen_height: i32, font: Vec<u8>) -> (v: VDP)
        requires
            0 < screen_width,
            0 <= screen_height,
            screen_width + 8 <= i32::MAX,
        ensures
            v.cursor == (Cursor {
                position_x: 0,
                position_y: 0,
                screen_width,
                screen_height,
                font_width: 8,
                font_height: 8,
            }),
            v.mode == Mode::Idle,
            v.font == font,
            v.wf(),
    {
        VDP { cursor: Cursor::new(screen_width, screen_height, 8, 8), mode: Mode::Idle, font }
    }

    /// Look up the glyph for `ascii` and build the draw request anchored at
    /// the current cursor position. Codes below 0x20 and codes beyond the
    /// font table silently render nothing.
    pub fn render_char(&self, ascii: u8) -> (r: Option<GlyphDraw>)
        ensures
            glyph_in_range(self.font@, ascii) ==> (r matches Option::Some(g) && g.x
                == self.cursor.position_x && g.y == self.cursor.position_y && g.points@
                == glyph_points(glyph_rows(self.font@, ascii))),
            !glyph_in_range(self.font@, ascii) ==> r is None,
    {
        if ascii >= 32 {
            let shifted = (ascii - 32) as usize;
            if shifted < self.font.len() / 8 {
                let start = 8 * shifted;
                proof {
                    assert(8 * ((self.font@.len() as int) / 8) <= self.font@.len()) by (nonlinear_arith);
                }
                let mut rows: Vec<u8> = Vec::new();
                let mut k: usize = 0;
                while k < 8
                    invariant
                        k <= 8,
                        start == 8 * (ascii - 32),
                        start + 8 <= self.font@.len(),
                        rows@ == self.font@.subrange(start as int, start + k),
                    decreases 8 - k,
                {
                    rows.push(self.font[start + k]);
                    proof {
                        assert(rows@ =~= self.font@.subrange(start as int, start + k + 1));
                    }
                    k = k + 1;
                }
                let points = get_points(&rows);
                return Option::Some(
                    GlyphDraw { x: self.cursor.position_x, y: self.cursor.position_y, points },
                );
            }
        }
        Option::None
    }

    /// Reset the cursor to the origin. The host owns the surface: the
    /// matching surface fill is requested through [`Action::Clear`].
    pub fn cls(&mut self)
        ensures
            final(self).cursor == (Cursor {
                position_x: 0,
                position_y: 0,
                ..old(self).cursor
            }),
            final(self).mode == old(self).mode,
            final(self).font == old(self).font,
    {
        self.cursor.position_x = 0;
        self.cursor.position_y = 0;
    }

    /// One poll: consume at most one byte. `input` is what the host's
    /// non-blocking receive produced, `None` when the queue was empty.
    /// The new cursor, mode, diagnostic and render request are each pinned
    /// by the matching step function.
    pub fn run(&mut self, input: Option<u8>) -> (r: StepResult)
        requires
            old(self).wf(),
            old(self).cursor.position_y + old(self).cursor.font_height <= i32::MAX,
        ensures
            final(self).wf(),
            final(self).cursor == cursor_step(old(self).cursor, old(self).mode, input),
            final(self).mode == mode_step(old(self).mode, input),
            final(self).font == old(self).font,
            r.notice == notice_step(old(self).mode, input),
            action_step(old(self).cursor, old(self).mode, old(self).font@, input, r.action),
    {
        let b = match input {
            Option::Some(b) => b,
            Option::None => {
                return StepResult { action: Action::Nothing, notice: Notice::QueueEmpty };
            },
        };
        match self.mode {
            Mode::Idle => {
                if b >= 0x20 && b != 0x7f {
                    let draw = self.render_char(b);
                    self.cursor.right();
                    let action = match draw {
                        Option::Some(g) => Action::Draw(g),
                        Option::None => Action::Nothing,
                    };
                    StepResult { action, notice: Notice::Printable(b) }
                } else {
                    match b {
                        0x08 => {
                            self.cursor.left();
                            StepResult { action: Action::Nothing, notice: Notice::CursorLeft }
                        },
                        0x09 => {
                            self.cursor.right();
                            StepResult { action: Action::Nothing, notice: Notice::CursorRight }
                        },
                        0x0a => {
                            self.cursor.down();
                            StepResult { action: Action::Nothing, notice: Notice::CursorDown }
                        },
                        0x0b => {
                            self.cursor.up();
                            StepResult { action: Action::Nothing, notice: Notice::CursorUp }
                        },
                        0x0c => {
                            self.cls();
                            StepResult { action: Action::Clear, notice: Notice::ClearScreen }
                        },
                        0x0d => {
                            self.cursor.home();
                            StepResult { action: Action::Nothing, notice: Notice::CarriageReturn }
                        },
                        0x17 => {
                            self.mode = Mode::AwaitSubcommand;
                            StepResult { action: Action::Nothing, notice: Notice::Extended }
                        },
                        0x1e => {
                            self.cursor.position_x = 0;
                            self.cursor.position_y = 0;
                            StepResult { action: Action::Nothing, notice: Notice::Home }
                        },
                        _ => {
                            let notice = if (0x0e <= b && b <= 0x13) || b == 0x16 || b == 0x19 || b
                                == 0x1d || b == 0x1f || b == 0x7f {
                                Notice::Unimplemented(b)
                            } else {
                                Notice::Unknown(b)
                            };
                            StepResult { action: Action::Nothing, notice }
                        },
                    }
                }
            },
            Mode::AwaitSubcommand => {
                match b {
                    0x00 => {
                        self.mode = Mode::AwaitSystemOpcode;
                        StepResult { action: Action::Nothing, notice: Notice::SystemControl }
                    },
                    0x01 | 0x07 | 0x1b => {
                        self.mode = Mode::Idle;
                        StepResult { action: Action::Nothing, notice: Notice::UnimplementedSub(b) }
                    },
                    _ => {
                        self.mode = Mode::Idle;
                        StepResult { action: Action::Nothing, notice: Notice::UnknownSub(b) }
                    },
                }
            },
            Mode::AwaitSystemOpcode => {
                self.mode = Mode::Idle;
                match b {
                    0x80 => StepResult { action: Action::Nothing, notice: Notice::VdpGp },
                    0x81 => StepResult { action: Action::Nothing, notice: Notice::VdpKeycode },
                    _ => StepResult { action: Action::Nothing, notice: Notice::UnknownVsc(b) },
                }
            },
        }
    }
}

/// The cursor after the interpreter, starting in mode `m`, has consumed a
/// whole byte sequence at one poll per byte.
pub open spec fn cursor_after(c: Cursor, m: Mode, bytes: Seq<u8>) -> Cursor
    decreases bytes.len(),
{
    if bytes.len() == 0 {
        c
    } else {
        cursor_after(
            cursor_step(c, m, Option::Some(bytes[0])),
            mode_step(m, Option::Some(bytes[0])),
            bytes.drop_first(),
        )
    }
}

/// The mode after the interpreter, starting in mode `m`, has consumed a
/// whole byte sequence at one poll per byte.
pub open spec fn mode_after(m: Mode, bytes: Seq<u8>) -> Mode
    decreases bytes.len(),
{
    if bytes.len() == 0 {
        m
    } else {
        mode_after(mode_step(m, Option::Some(bytes[0])), bytes.drop_first())
    }
}

/// Round-trip wrap law: on a screen exactly one glyph cell wide, every
/// printable byte fed to an idle interpreter wraps the line once — the
/// cursor ends in column 0 having moved down exactly one cell height per
/// byte, and the interpreter is idle again.
pub proof fn lemma_one_cell_screen_wraps_per_char(c: Cursor, bytes: Seq<u8>)
    requires
        c.wf(),
        c.screen_width == c.font_width,
        c.position_x == 0,
        c.position_y + bytes.len() * c.font_height <= i32::MAX,
        forall|i: int| 0 <= i < bytes.len() ==> is_printable(#[trigger] bytes[i]),
    ensures
        cursor_after(c, Mode::Idle, bytes).position_x == 0,
        cursor_after(c, Mode::Idle, bytes).position_y == c.position_y + bytes.len()
            * c.font_height,
        mode_after(Mode::Idle, bytes) == Mode::Idle,
    decreases bytes.len(),
{
    if bytes.len() > 0 {
        let b = bytes[0];
        assert(c.position_y + c.font_height <= c.position_y + bytes.len() * c.font_height)
            by (nonlinear_arith)
            requires
                bytes.len() >= 1,
                c.font_height > 0,
        ;
        let c1 = cursor_step(c, Mode::Idle, Option::Some(b));
        assert(c1.position_y + bytes.drop_first().len() * c.font_height == c.position_y
            + bytes.len() * c.font_height) by (nonlinear_arith)
            requires
                bytes.len() >= 1,
                c1.position_y == c.position_y + c.font_height,
                bytes.drop_first().len() == bytes.len() - 1,
        ;
        lemma_one_cell_screen_wraps_per_char(c1, bytes.drop_first());
    }
}

} // verus!
