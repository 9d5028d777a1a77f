//! The characters that the room and the player are drawn with.

use vstd::prelude::*;

verus! {

/// The top left corner of a room.
pub const WALL_TOP_LEFT: char = '+';

/// The top right corner of a room.
pub const WALL_TOP_RIGHT: char = '+';

/// The bottom left corner of a room.
pub const WALL_BOTTOM_LEFT: char = '+';

/// The bottom right corner of a room.
pub const WALL_BOTTOM_RIGHT: char = '+';

/// A piece of the top or bottom wall.
pub const WALL_HORIZONTAL: char = '-';

/// A piece of the left or right wall.
pub const WALL_VERTICAL: char = '|';

/// The player.
pub const PLAYER: char = '@';

/// A cell inside a room, with nothing on it.
pub const EMPTY_SPACE: char = ' ';

} // verus!
