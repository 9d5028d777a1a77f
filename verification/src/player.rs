//! The player: one glyph on one cell of the surface.

use vstd::prelude::*;
use crate::escape::{put_sequence, write_char};
use crate::glyph::PLAYER;
use crate::key::Direction;

verus! {

/// The value of the closed range from `low` to `high` that is nearest to `v`.
pub open spec fn clamp(v: int, low: int, high: int) -> int
    recommends
        low <= high,
{
    if v < low {
        low
    } else if v > high {
        high
    } else {
        v
    }
}

/// The last column, or row, that a surface with `limit` of them has for the
/// player: a surface too small to have any counts as one cell.
pub open spec fn last_cell(limit: u16) -> int {
    if limit >= 1 {
        limit as int
    } else {
        1
    }
}

/// The coordinate one step from `v`, kept at one or above and within sixteen
/// bits.
pub open spec fn stepped(v: u16, delta: int) -> u16 {
    clamp(v + delta, 1, u16::MAX as int) as u16
}

/// The coordinate `v` brought into the range from one to the last cell.
pub open spec fn confined(v: u16, limit: u16) -> u16 {
    clamp(v as int, 1, last_cell(limit)) as u16
}

/// The cell that the player stands on: column `x` of row `y`, both counted
/// from one.
#[derive(Clone, Copy, Debug, PartialEq, Eq, Structural)]
pub struct Player {
    pub x: u16,
    pub y: u16,
}

impl Player {
    /// Whether the player stands on a cell of a surface with that many
    /// columns and rows.
    pub open spec fn on_surface(self, columns: u16, rows: u16) -> bool {
        &&& 1 <= self.x <= columns
        &&& 1 <= self.y <= rows
    }

    /// The player one step further in the given direction. A step never leads
    /// below column one or row one: there the coordinate stays as it is.
    pub open spec fn moved(self, direction: Direction) -> Player {
        Player {
            x: stepped(self.x, direction.spec_dx()),
            y: stepped(self.y, direction.spec_dy()),
        }
    }

    /// The player brought back onto a surface with that many columns and
    /// rows, each coordinate by itself.
    pub open spec fn kept_within(self, columns: u16, rows: u16) -> Player {
        Player { x: confined(self.x, columns), y: confined(self.y, rows) }
    }

    /// The player at the start of a session: in the top left cell.
    pub fn new() -> (player: Player)
        ensures
            player == (Player { x: 1, y: 1 }),
    {
        Player { x: 1, y: 1 }
    }

    /// Takes one step in the given direction.
    pub fn step(&mut self, direction: Direction)
        ensures
            *final(self) == old(self).moved(direction),
    {
        self.x = shift(self.x, direction.dx());
        self.y = shift(self.y, direction.dy());
    }

    /// Brings the player back onto a surface with that many columns and rows.
    pub fn confine(&mut self, columns: u16, rows: u16)
        ensures
            *final(self) == old(self).kept_within(columns, rows),
            columns >= 1 && rows >= 1 ==> final(self).on_surface(columns, rows),
    {
        self.x = limit_to(self.x, columns);
        self.y = limit_to(self.y, rows);
    }

    /// Appends the text that draws the player on its cell.
    pub fn draw(&self, out: &mut String)
        requires
            self.x >= 1,
            self.y >= 1,
        ensures
            final(out)@ == old(out)@ + put_sequence(self.x, self.y, PLAYER),
    {
        write_char(out, self.x, self.y, PLAYER);
    }
}

/// One coordinate after a step of `delta` cells.
fn shift(v: u16, delta: i8) -> (moved: u16)
    requires
        -1 <= delta <= 1,
    ensures
        moved == stepped(v, delta as int),
{
    if delta < 0 {
        if v > 1 {
            v - 1
        } else {
            1
        }
    } else if delta > 0 {
        if v < u16::MAX {
            v + 1
        } else {
            u16::MAX
        }
    } else if v < 1 {
        1
    } else {
        v
    }
}

/// One coordinate brought into the range from one to the last cell.
fn limit_to(v: u16, limit: u16) -> (kept: u16)
    ensures
        kept == confined(v, limit),
{
    if v < 1 || limit < 1 {
        1
    } else if v > limit {
        limit
    } else {
        v
    }
}

} // verus!
