//! The control sequences that position the cursor, clear the screen and show
//! or hide the cursor, and the text that puts one glyph on one cell.

use vstd::prelude::*;
use vstd::string::StringExecFns;

verus! {

/// The character that stands for the decimal digit `d`, for `0 <= d <= 9`.
pub open spec fn digit(d: int) -> char {
    seq!['0', '1', '2', '3', '4', '5', '6', '7', '8', '9'][d]
}

/// The decimal numeral of `n`: no sign, no padding, no leading zero but for
/// zero itself.
pub open spec fn decimal(n: nat) -> Seq<char>
    decreases n,
{
    if n < 10 {
        seq![digit(n as int)]
    } else {
        decimal(n / 10).push(digit((n % 10) as int))
    }
}

/// The sequence that moves the cursor to column `x` of row `y`, both counted
/// from one: the row comes first in it.
pub open spec fn goto_sequence(x: u16, y: u16) -> Seq<char> {
    seq!['\x1b', '['] + decimal(y as nat) + seq![';'] + decimal(x as nat) + seq!['H']
}

/// The sequence that clears the whole screen.
pub open spec fn clear_sequence() -> Seq<char> {
    seq!['\x1b', '[', '2', 'J']
}

/// The sequence that hides the cursor.
pub open spec fn hide_sequence() -> Seq<char> {
    seq!['\x1b', '[', '?', '2', '5', 'l']
}

/// The sequence that shows the cursor.
pub open spec fn show_sequence() -> Seq<char> {
    seq!['\x1b', '[', '?', '2', '5', 'h']
}

/// The text that puts the glyph `ch` on the cell in column `x` of row `y`:
/// the cursor goes there, the glyph is written, the cursor is hidden.
pub open spec fn put_sequence(x: u16, y: u16, ch: char) -> Seq<char> {
    goto_sequence(x, y).push(ch) + hide_sequence()
}

/// Trusted: `String::push` of the standard library appends the one character
/// to the end of the string.
pub assume_specification[ String::push ](s: &mut String, ch: char)
    ensures
        final(s)@ == old(s)@.push(ch),
;

/// Trusted: what `termion::cursor::Goto(x, y)` displays. Termion writes the
/// escape character and `[`, the second field (the row) in decimal, `;`, the
/// first field (the column) in decimal, and `H`. Both coordinates are counted
/// from one, and termion rejects the position (0, 0) in debug builds.
#[verifier::external_body]
fn goto_text(x: u16, y: u16) -> (s: String)
    requires
        x >= 1,
        y >= 1,
    ensures
        s@ == goto_sequence(x, y),
{
    format!("{}", termion::cursor::Goto(x, y))
}

/// Trusted: what `termion::clear::All` displays, the escape character
/// followed by `[2J`.
#[verifier::external_body]
fn clear_text() -> (s: String)
    ensures
        s@ == clear_sequence(),
{
    format!("{}", termion::clear::All)
}

/// Trusted: what `termion::cursor::Hide` displays, the escape character
/// followed by `[?25l`.
#[verifier::external_body]
fn hide_text() -> (s: String)
    ensures
        s@ == hide_sequence(),
{
    format!("{}", termion::cursor::Hide)
}

/// Trusted: what `termion::cursor::Show` displays, the escape character
/// followed by `[?25h`.
#[verifier::external_body]
fn show_text() -> (s: String)
    ensures
        s@ == show_sequence(),
{
    format!("{}", termion::cursor::Show)
}

/// Appends the sequence that moves the cursor to column `x` of row `y`.
pub fn goto(out: &mut String, x: u16, y: u16)
    requires
        x >= 1,
        y >= 1,
    ensures
        final(out)@ == old(out)@ + goto_sequence(x, y),
{
    let s = goto_text(x, y);
    out.append(s.as_str());
}

/// Appends the sequence that clears the whole screen.
pub fn clear(out: &mut String)
    ensures
        final(out)@ == old(out)@ + clear_sequence(),
{
    let s = clear_text();
    out.append(s.as_str());
}

/// Appends the sequence that hides the cursor.
pub fn hide_cursor(out: &mut String)
    ensures
        final(out)@ == old(out)@ + hide_sequence(),
{
    let s = hide_text();
    out.append(s.as_str());
}

/// Appends the sequence that shows the cursor.
pub fn show_cursor(out: &mut String)
    ensures
        final(out)@ == old(out)@ + show_sequence(),
{
    let s = show_text();
    out.append(s.as_str());
}

/// Appends the text that puts the glyph `ch` on the cell in column `x` of
/// row `y`, and leaves the cursor hidden.
pub fn write_char(out: &mut String, x: u16, y: u16, ch: char)
    requires
        x >= 1,
        y >= 1,
    ensures
        final(out)@ == old(out)@ + put_sequence(x, y, ch),
{
    goto(out, x, y);
    out.push(ch);
    hide_cursor(out);
}

} // verus!
