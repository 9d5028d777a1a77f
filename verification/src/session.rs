//! One session: a room, a player, and what each key press does to them.
//!
//! The session neither reads keys nor writes to the terminal. Its caller
//! sends the opening text, then hands over each key press together with the
//! size that the terminal has at that moment, sends the text that comes back
//! and stops when told so.

use vstd::prelude::*;
use vstd::string::StringExecFns;
use crate::escape::{
    clear, clear_sequence, goto, goto_sequence, hide_cursor, hide_sequence, put_sequence,
    show_cursor, show_sequence,
};
use crate::glyph::PLAYER;
use crate::key::{Direction, Key};
use crate::player::Player;
use crate::room::Room;

verus! {

/// The line of instructions that a session opens with.
pub const BANNER: &'static str = "Press q to exit. Use the vi keys (hjkl) to move around.";

/// The text that opens a session: the screen is cleared, the instructions are
/// written from the top left cell on, and the cursor is hidden.
pub open spec fn opening_text() -> Seq<char> {
    clear_sequence() + goto_sequence(1, 1) + BANNER@ + hide_sequence()
}

/// The text that gives the terminal back: the screen is cleared, the cursor
/// goes to the top left cell and is shown again.
pub open spec fn closing_text() -> Seq<char> {
    clear_sequence() + goto_sequence(1, 1) + show_sequence()
}

/// The text of one frame: the screen is cleared, then the room is drawn, then
/// the player, which so covers the room where both have a glyph.
pub open spec fn frame_text(room: Room, player: Player) -> Seq<char> {
    clear_sequence() + room.text() + put_sequence(player.x, player.y, PLAYER)
}

/// Where the player stands after a key press, on a terminal that has
/// `columns` columns and `rows` rows once the key has been read: a key that
/// stands for a movement moves the player, any other leaves it where it is,
/// and then the player is brought back onto the surface.
pub open spec fn player_after(player: Player, key: Key, columns: u16, rows: u16) -> Player {
    let moved = match key.spec_direction() {
        Some(direction) => player.moved(direction),
        None => player,
    };
    moved.kept_within(columns, rows)
}

/// Where the player stands after a sequence of key presses, each given with
/// the terminal's columns and rows at that press.
pub open spec fn player_after_all(start: Player, presses: Seq<(Key, u16, u16)>) -> Player
    decreases presses.len(),
{
    if presses.len() == 0 {
        start
    } else {
        let (key, columns, rows) = presses.last();
        player_after(player_after_all(start, presses.drop_last()), key, columns, rows)
    }
}

/// What the caller does after an event: it sends `output` to the terminal,
/// and ends the session if `done` is set.
#[derive(Debug)]
pub struct Reaction {
    pub output: String,
    pub done: bool,
}

/// The state of a session: where the player stands, and the room. A session
/// can always be drawn: its room is well formed, and its player stands in a
/// column and a row of the surface, which count from one.
#[derive(Clone, Copy, Debug)]
pub struct Session {
    player: Player,
    room: Room,
}

impl Session {
    #[verifier::type_invariant]
    spec fn drawable(self) -> bool {
        &&& self.room.wf()
        &&& self.player.x >= 1
        &&& self.player.y >= 1
    }

    /// Where the player stands.
    pub closed spec fn spec_player(&self) -> Player {
        self.player
    }

    /// The room.
    pub closed spec fn spec_room(&self) -> Room {
        self.room
    }

    /// A fresh session: the player in the top left cell, and the one room,
    /// eight cells wide and four high, with its corner in column 4 of row 2.
    pub fn new() -> (session: Session)
        ensures
            session.spec_player() == (Player { x: 1, y: 1 }),
            session.spec_room() == (Room { x: 4, y: 2, width: 8, height: 4 }),
    {
        Session { player: Player::new(), room: Room { x: 4, y: 2, width: 8, height: 4 } }
    }

    /// Where the player stands.
    #[verifier::when_used_as_spec(spec_player)]
    pub fn player(&self) -> (player: Player)
        ensures
            player == self.spec_player(),
            player.x >= 1,
            player.y >= 1,
    {
        proof {
            use_type_invariant(self);
        }
        self.player
    }

    /// The room.
    #[verifier::when_used_as_spec(spec_room)]
    pub fn room(&self) -> (room: Room)
        ensures
            room == self.spec_room(),
            room.wf(),
    {
        proof {
            use_type_invariant(self);
        }
        self.room
    }

    /// The text that opens the session.
    pub fn opening(&self) -> (text: String)
        ensures
            text@ == opening_text(),
    {
        let mut out = String::new();
        clear(&mut out);
        goto(&mut out, 1, 1);
        out.append(BANNER);
        hide_cursor(&mut out);
        out
    }

    /// The text that gives the terminal back.
    pub fn closing(&self) -> (text: String)
        ensures
            text@ == closing_text(),
    {
        let mut out = String::new();
        Self::close(&mut out);
        out
    }

    /// The text of the frame that shows the session as it is.
    pub fn frame(&self) -> (text: String)
        ensures
            text@ == frame_text(self.room(), self.player()),
    {
        let mut out = String::new();
        self.render(&mut out);
        out
    }

    /// Takes one key press, read while the terminal had `columns` columns and
    /// `rows` rows. The player moves as the key says and stays on the
    /// surface; the frame is drawn anew, whatever the key was; and the key
    /// that ends the session has the terminal given back after that frame.
    pub fn on_key(&mut self, key: Key, columns: u16, rows: u16) -> (reaction: Reaction)
        ensures
            final(self).room() == old(self).room(),
            final(self).player() == player_after(old(self).player(), key, columns, rows),
            columns >= 1 && rows >= 1 ==> final(self).player().on_surface(columns, rows),
            reaction.done == key.spec_is_quit(),
            reaction.output@ == frame_text(final(self).room(), final(self).player()) + (if key.spec_is_quit() {
                closing_text()
            } else {
                Seq::empty()
            }),
    {
        let mut player = self.player;
        match key.direction() {
            Some(direction) => player.step(direction),
            None => {},
        }
        player.confine(columns, rows);
        proof {
            use_type_invariant(&*self);
        }
        self.player = player;
        let mut output = String::new();
        self.render(&mut output);
        let done = key.is_quit();
        if done {
            Self::close(&mut output);
        }
        Reaction { output, done }
    }

    /// Takes the end of the input, or a failure to read it: the session ends,
    /// nothing more is drawn, and the terminal is given back.
    pub fn on_end_of_input(&self) -> (reaction: Reaction)
        ensures
            reaction.done,
            reaction.output@ == closing_text(),
    {
        Reaction { output: self.closing(), done: true }
    }

    /// Appends the text of the frame.
    fn render(&self, out: &mut String)
        ensures
            final(out)@ == old(out)@ + frame_text(self.room(), self.player()),
    {
        proof {
            use_type_invariant(self);
        }
        clear(out);
        self.room.draw(out);
        self.player.draw(out);
    }

    /// Appends the text that gives the terminal back.
    fn close(out: &mut String)
        ensures
            final(out)@ == old(out)@ + closing_text(),
    {
        clear(out);
        goto(out, 1, 1);
        show_cursor(out);
    }
}

/// After any key presses, at least one, the player stands on the surface
/// that the terminal had at the last of them, wherever it started and
/// whatever sizes the terminal went through before.
pub proof fn lemma_player_stays_on_surface(start: Player, presses: Seq<(Key, u16, u16)>)
    requires
        presses.len() > 0,
        presses.last().1 >= 1,
        presses.last().2 >= 1,
    ensures
        player_after_all(start, presses).on_surface(presses.last().1, presses.last().2),
{
}

/// A key that stands for no movement leaves a player that stands on the
/// surface where it is.
pub proof fn lemma_unmapped_key_keeps_player(player: Player, key: Key, columns: u16, rows: u16)
    requires
        key.spec_direction() is None,
        player.on_surface(columns, rows),
    ensures
        player_after(player, key, columns, rows) == player,
{
}

/// A step to the right and then a step to the left bring the player back,
/// if it stood on the surface with a column to its right.
pub proof fn lemma_right_then_left_returns(
    player: Player,
    right: Key,
    left: Key,
    columns: u16,
    rows: u16,
)
    requires
        right.spec_direction() == Some(Direction::Right),
        left.spec_direction() == Some(Direction::Left),
        player.on_surface(columns, rows),
        player.x < columns,
    ensures
        player_after(player_after(player, right, columns, rows), left, columns, rows) == player,
{
}

} // verus!
