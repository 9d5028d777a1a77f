//! A room and a player on a terminal's character grid.
//!
//! The library decides what a session shows and where the player stands: it
//! maps key presses to movements, keeps the player on the visible surface and
//! produces, for each frame, the exact text that draws it. Reading keys,
//! asking for the terminal's size and sending the text are left to the caller.

pub mod escape;
pub mod glyph;
pub mod room;
pub mod key;
pub mod player;
pub mod session;
