//! Key presses, and the movements that they stand for.

use vstd::prelude::*;

verus! {

/// The character that ends the session.
pub const QUIT: char = 'q';

/// One key press, as far as the session tells keys apart: a character, one of
/// the four arrow keys, or any other key.
#[derive(Clone, Copy, Debug, PartialEq, Eq, Structural)]
pub enum Key {
    Char(char),
    Left,
    Right,
    Up,
    Down,
    Other,
}

/// One of the eight movements, each by one cell along each axis at most.
#[derive(Clone, Copy, Debug, PartialEq, Eq, Structural)]
pub enum Direction {
    Left,
    Right,
    Up,
    Down,
    UpLeft,
    UpRight,
    DownLeft,
    DownRight,
}

impl Direction {
    /// The change of the column: columns grow to the right.
    pub open spec fn spec_dx(self) -> int {
        match self {
            Direction::Left | Direction::UpLeft | Direction::DownLeft => -1,
            Direction::Right | Direction::UpRight | Direction::DownRight => 1,
            Direction::Up | Direction::Down => 0,
        }
    }

    /// The change of the row: rows grow downwards.
    pub open spec fn spec_dy(self) -> int {
        match self {
            Direction::Up | Direction::UpLeft | Direction::UpRight => -1,
            Direction::Down | Direction::DownLeft | Direction::DownRight => 1,
            Direction::Left | Direction::Right => 0,
        }
    }

    /// The change of the column.
    pub fn dx(&self) -> (d: i8)
        ensures
            d == self.spec_dx(),
    {
        match self {
            Direction::Left | Direction::UpLeft | Direction::DownLeft => -1,
            Direction::Right | Direction::UpRight | Direction::DownRight => 1,
            Direction::Up | Direction::Down => 0,
        }
    }

    /// The change of the row.
    pub fn dy(&self) -> (d: i8)
        ensures
            d == self.spec_dy(),
    {
        match self {
            Direction::Up | Direction::UpLeft | Direction::UpRight => -1,
            Direction::Down | Direction::DownLeft | Direction::DownRight => 1,
            Direction::Left | Direction::Right => 0,
        }
    }
}

impl Key {
    /// Whether the key ends the session.
    pub open spec fn spec_is_quit(self) -> bool {
        self == Key::Char(QUIT)
    }

    /// The movement that the key stands for, if it stands for one: the arrow
    /// keys and `h`, `l`, `k`, `j` move along one axis, `y`, `u`, `b`, `n`
    /// along both.
    pub open spec fn spec_direction(self) -> Option<Direction> {
        match self {
            Key::Left => Some(Direction::Left),
            Key::Right => Some(Direction::Right),
            Key::Up => Some(Direction::Up),
            Key::Down => Some(Direction::Down),
            Key::Char(c) => if c == 'h' {
                Some(Direction::Left)
            } else if c == 'l' {
                Some(Direction::Right)
            } else if c == 'k' {
                Some(Direction::Up)
            } else if c == 'j' {
                Some(Direction::Down)
            } else if c == 'y' {
                Some(Direction::UpLeft)
            } else if c == 'u' {
                Some(Direction::UpRight)
            } else if c == 'b' {
                Some(Direction::DownLeft)
            } else if c == 'n' {
                Some(Direction::DownRight)
            } else {
                None
            },
            Key::Other => None,
        }
    }

    /// Whether the key ends the session.
    pub fn is_quit(&self) -> (quit: bool)
        ensures
            quit == self.spec_is_quit(),
    {
        match self {
            Key::Char(c) => *c == QUIT,
            _ => false,
        }
    }

    /// The movement that the key stands for, if it stands for one.
    pub fn direction(&self) -> (direction: Option<Direction>)
        ensures
            direction == self.spec_direction(),
    {
        match self {
            Key::Left => Some(Direction::Left),
            Key::Right => Some(Direction::Right),
            Key::Up => Some(Direction::Up),
            Key::Down => Some(Direction::Down),
            Key::Char('h') => Some(Direction::Left),
            Key::Char('l') => Some(Direction::Right),
            Key::Char('k') => Some(Direction::Up),
            Key::Char('j') => Some(Direction::Down),
            Key::Char('y') => Some(Direction::UpLeft),
            Key::Char('u') => Some(Direction::UpRight),
            Key::Char('b') => Some(Direction::DownLeft),
            Key::Char('n') => Some(Direction::DownRight),
            _ => None,
        }
    }
}

} // verus!
