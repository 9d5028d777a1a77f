//! A rectangular room: walls along its border, nothing inside.

use vstd::prelude::*;
use crate::escape::{put_sequence, write_char};
use crate::glyph::{
    EMPTY_SPACE, WALL_BOTTOM_LEFT, WALL_BOTTOM_RIGHT, WALL_HORIZONTAL, WALL_TOP_LEFT,
    WALL_TOP_RIGHT, WALL_VERTICAL,
};

verus! {

/// A rectangle of cells on the surface. Its top left cell is in column `x` of
/// row `y`; it is `width` cells wide and `height` cells high.
#[derive(Clone, Copy, Debug, PartialEq, Eq, Structural)]
pub struct Room {
    pub x: u16,
    pub y: u16,
    pub width: u16,
    pub height: u16,
}

impl Room {
    /// A room is well formed when its origin is a cell of the surface, whose
    /// columns and rows are counted from one, and each of its cells has
    /// coordinates that fit in sixteen bits.
    pub open spec fn wf(self) -> bool {
        &&& self.x >= 1
        &&& self.y >= 1
        &&& self.x + self.width <= 0x1_0000
        &&& self.y + self.height <= 0x1_0000
    }

    /// Whether the cell in column `x` of row `y` belongs to the room.
    pub open spec fn covers(self, x: int, y: int) -> bool {
        &&& self.x <= x < self.x + self.width
        &&& self.y <= y < self.y + self.height
    }

    /// The glyph of the cell `dx` columns right of and `dy` rows below the
    /// origin. A cell that lies on a vertical and on a horizontal edge is a
    /// corner; where a room is so narrow or so low that a cell is more than one
    /// corner, the order is top left, top right, bottom left, bottom right.
    /// The other cells of the left and right edges are vertical wall, the other
    /// cells of the top and bottom edges are horizontal wall, and the rest is
    /// empty.
    pub open spec fn spec_glyph(self, dx: int, dy: int) -> char {
        let on_left = dx == 0;
        let on_right = dx == self.width - 1;
        let on_top = dy == 0;
        let on_bottom = dy == self.height - 1;
        if on_left && on_top {
            WALL_TOP_LEFT
        } else if on_right && on_top {
            WALL_TOP_RIGHT
        } else if on_left && on_bottom {
            WALL_BOTTOM_LEFT
        } else if on_right && on_bottom {
            WALL_BOTTOM_RIGHT
        } else if on_left || on_right {
            WALL_VERTICAL
        } else if on_top || on_bottom {
            WALL_HORIZONTAL
        } else {
            EMPTY_SPACE
        }
    }

    /// What the room shows in column `x` of row `y` of the surface: the glyph
    /// of that cell if the room covers it, and nothing otherwise.
    pub open spec fn spec_glyph_at(self, x: int, y: int) -> Option<char> {
        if self.covers(x, y) {
            Some(self.spec_glyph(x - self.x, y - self.y))
        } else {
            None
        }
    }

    /// The text that draws the first `n` cells, from the top, of the column
    /// `dx` columns right of the origin.
    pub open spec fn column_text(self, dx: int, n: int) -> Seq<char>
        decreases n,
    {
        if n <= 0 {
            Seq::empty()
        } else {
            self.column_text(dx, n - 1) + put_sequence(
                (self.x + dx) as u16,
                (self.y + (n - 1)) as u16,
                self.spec_glyph(dx, n - 1),
            )
        }
    }

    /// The text that draws the first `m` columns, from the left, each of them
    /// whole.
    pub open spec fn columns_text(self, m: int) -> Seq<char>
        decreases m,
    {
        if m <= 0 {
            Seq::empty()
        } else {
            self.columns_text(m - 1) + self.column_text(m - 1, self.height as int)
        }
    }

    /// The text that draws the room: one glyph for each of its cells, column
    /// by column from the left, each column from the top.
    pub open spec fn text(self) -> Seq<char> {
        self.columns_text(self.width as int)
    }

    /// Makes the room with the given origin and size, if it is well formed.
    pub fn new(x: u16, y: u16, width: u16, height: u16) -> (room: Option<Room>)
        ensures
            room == if (Room { x, y, width, height }).wf() {
                Some(Room { x, y, width, height })
            } else {
                None
            },
    {
        if x >= 1 && y >= 1 && width <= u16::MAX - x + 1 && height <= u16::MAX - y + 1 {
            Some(Room { x, y, width, height })
        } else {
            None
        }
    }

    /// The glyph of the cell `dx` columns right of and `dy` rows below the
    /// origin.
    pub fn glyph(&self, dx: u16, dy: u16) -> (ch: char)
        ensures
            ch == self.spec_glyph(dx as int, dy as int),
    {
        let on_left = dx == 0;
        let on_right = self.width > 0 && dx == self.width - 1;
        let on_top = dy == 0;
        let on_bottom = self.height > 0 && dy == self.height - 1;
        if on_left && on_top {
            WALL_TOP_LEFT
        } else if on_right && on_top {
            WALL_TOP_RIGHT
        } else if on_left && on_bottom {
            WALL_BOTTOM_LEFT
        } else if on_right && on_bottom {
            WALL_BOTTOM_RIGHT
        } else if on_left || on_right {
            WALL_VERTICAL
        } else if on_top || on_bottom {
            WALL_HORIZONTAL
        } else {
            EMPTY_SPACE
        }
    }

    /// What the room shows in column `x` of row `y` of the surface.
    pub fn glyph_at(&self, x: u16, y: u16) -> (shown: Option<char>)
        ensures
            shown == self.spec_glyph_at(x as int, y as int),
    {
        if x >= self.x && x - self.x < self.width && y >= self.y && y - self.y < self.height {
            Some(self.glyph(x - self.x, y - self.y))
        } else {
            None
        }
    }

    /// Appends the text that draws the room.
    pub fn draw(&self, out: &mut String)
        requires
            self.wf(),
        ensures
            final(out)@ == old(out)@ + self.text(),
    {
        let ghost before = out@;
        let mut dx: u16 = 0;
        while dx < self.width
            invariant
                self.wf(),
                dx <= self.width,
                out@ == before + self.columns_text(dx as int),
            decreases self.width - dx,
        {
            let ghost left = out@;
            let mut dy: u16 = 0;
            while dy < self.height
                invariant
                    self.wf(),
                    dx < self.width,
                    dy <= self.height,
                    out@ == left + self.column_text(dx as int, dy as int),
                decreases self.height - dy,
            {
                let ch = self.glyph(dx, dy);
                write_char(out, self.x + dx, self.y + dy, ch);
                dy += 1;
            }
            dx += 1;
        }
    }
}

} // verus!
