//! The text-insertion cursor: a position in pixel coordinates, clamped to the
//! screen bounds, with automatic line wrap when a step to the right would
//! leave the screen.

use vstd::prelude::*;

verus! {

/// Text-insertion position in pixel units, together with the screen bounds
/// and the glyph cell size the movement operations step by.
pub struct Cursor {
    pub position_x: i32,
    pub position_y: i32,
    pub screen_width: i32,
    pub screen_height: i32,
    pub font_width: i32,
    pub font_height: i32,
}

impl Cursor {
    /// Well-formed: the glyph cell has positive size, the screen is at least
    /// one pixel wide, the column stays inside the screen, the row never goes
    /// negative, and one cell step to the right cannot overflow an `i32`.
    pub open spec fn wf(self) -> bool {
        &&& 0 < self.font_width
        &&& 0 < self.font_height
        &&& 0 < self.screen_width
        &&& 0 <= self.screen_height
        &&& 0 <= self.position_x < self.screen_width
        &&& 0 <= self.position_y
        &&& self.screen_width + self.font_width <= i32::MAX
    }

    /// The cursor after `home`: column 0, everything else unchanged.
    pub open spec fn home_spec(self) -> Cursor {
        Cursor { position_x: 0, ..self }
    }

    /// The cursor after `down`: one cell height lower, no lower clamp.
    pub open spec fn down_spec(self) -> Cursor {
        Cursor { position_y: (self.position_y + self.font_height) as i32, ..self }
    }

    /// The cursor after `up`: one cell height higher, clamped to the top edge.
    pub open spec fn up_spec(self) -> Cursor {
        Cursor {
            position_y: if self.position_y - self.font_height < 0 {
                0
            } else {
                (self.position_y - self.font_height) as i32
            },
            ..self
        }
    }

    /// The cursor after `left`: one cell width back, clamped to column 0;
    /// it does not wrap to the previous line.
    pub open spec fn left_spec(self) -> Cursor {
        Cursor {
            position_x: if self.position_x - self.font_width < 0 {
                0
            } else {
                (self.position_x - self.font_width) as i32
            },
            ..self
        }
    }

    /// The cursor after `right`: one cell width forward; when that would
    /// reach or pass the right screen edge, back to column 0 and down one
    /// line instead (line wrap).
    pub open spec fn right_spec(self) -> Cursor {
        if self.position_x + self.font_width >= self.screen_width {
            self.home_spec().down_spec()
        } else {
            Cursor { position_x: (self.position_x + self.font_width) as i32, ..self }
        }
    }

    /// A cursor at the origin of a screen of the given pixel size, stepping
    /// by the given glyph cell size.
    pub fn new(screen_width: i32, screen_height: i32, font_width: i32, font_height: i32) -> (c:
        Cursor)
        requires
            0 < font_width,
            0 < font_height,
            0 < screen_width,
            0 <= screen_height,
            screen_width + font_width <= i32::MAX,
        ensures
            c == (Cursor {
                position_x: 0,
                position_y: 0,
                screen_width,
                screen_height,
                font_width,
                font_height,
            }),
            c.wf(),
    {
        Cursor { position_x: 0, position_y: 0, screen_width, screen_height, font_width, font_height }
    }

    /// Move to column 0. Total: no precondition, the row is untouched.
    pub fn home(&mut self)
        ensures
            *final(self) == old(self).home_spec(),
    {
        self.position_x = 0;
    }

    /// Move down one cell height. There is no bottom clamp, so the row can
    /// drift past the last visible line; only the `i32` limit is excluded.
    pub fn down(&mut self)
        requires
            old(self).wf(),
            old(self).position_y + old(self).font_height <= i32::MAX,
        ensures
            *final(self) == old(self).down_spec(),
            final(self).wf(),
    {
        self.position_y = self.position_y + self.font_height;
    }

    /// Move up one cell height, clamped to the top edge.
    pub fn up(&mut self)
        requires
            old(self).wf(),
        ensures
            *final(self) == old(self).up_spec(),
            final(self).wf(),
    {
        self.position_y = self.position_y - self.font_height;
        if self.position_y < 0 {
            self.position_y = 0;
        }
    }

    /// Move back one cell width, clamped to column 0.
    pub fn left(&mut self)
        requires
            old(self).wf(),
        ensures
            *final(self) == old(self).left_spec(),
            final(self).wf(),
    {
        self.position_x = self.position_x - self.font_width;
        if self.position_x < 0 {
            self.position_x = 0;
        }
    }

    /// Move forward one cell width, wrapping to the start of the next line
    /// when the next cell would reach or pass the right screen edge.
    pub fn right(&mut self)
        requires
            old(self).wf(),
            old(self).position_x + old(self).font_width >= old(self).screen_width ==> old(
                self,
            ).position_y + old(self).font_height <= i32::MAX,
        ensures
            *final(self) == old(self).right_spec(),
            final(self).wf(),
    {
        self.position_x = self.position_x + self.font_width;
        if self.position_x >= self.screen_width {
            self.home();
            self.down();
        }
    }
}

/// Line-wrap law: a `right` step taken when the next cell would reach or
/// pass the right screen edge resets the column to 0 and moves the row down
/// by exactly one cell height, once.
pub proof fn lemma_right_wraps(c: Cursor)
    requires
        c.wf(),
        c.position_x + c.font_width >= c.screen_width,
        c.position_y + c.font_height <= i32::MAX,
    ensures
        c.right_spec().position_x == 0,
        c.right_spec().position_y == c.position_y + c.font_height,
{
}

/// `up` moves the row up by exactly one cell height when there is room, and
/// clamps to the top edge otherwise.
pub proof fn lemma_up_exact_or_clamped(c: Cursor)
    requires
        c.wf(),
    ensures
        c.position_y >= c.font_height ==> c.up_spec().position_y == c.position_y - c.font_height,
        c.position_y < c.font_height ==> c.up_spec().position_y == 0,
{
}

/// `left` never produces a negative column, whatever the prior position:
/// only a cell of negative width could take it below zero.
pub proof fn lemma_left_never_negative(c: Cursor)
    requires
        0 <= c.font_width,
    ensures
        c.left_spec().position_x >= 0,
{
}

/// `home` puts the column at 0 regardless of the prior value.
pub proof fn lemma_home_always_column_zero(c: Cursor)
    ensures
        c.home_spec().position_x == 0,
{
}

} // verus!
