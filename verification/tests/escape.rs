use roomwalk::escape::{clear, goto, hide_cursor, show_cursor, write_char};

#[test]
fn goto_names_the_row_before_the_column() {
    let mut out = String::new();
    goto(&mut out, 11, 5);
    assert_eq!(out, "\x1b[5;11H");
}

#[test]
fn goto_writes_plain_decimals() {
    let mut out = String::new();
    goto(&mut out, 1, 1);
    goto(&mut out, 10, 100);
    goto(&mut out, 65535, 9);
    assert_eq!(out, "\x1b[1;1H\x1b[100;10H\x1b[9;65535H");
}

#[test]
fn clear_appends_the_clear_sequence() {
    let mut out = String::from("x");
    clear(&mut out);
    assert_eq!(out, "x\x1b[2J");
}

#[test]
fn hide_and_show_differ_in_the_last_letter() {
    let mut hidden = String::new();
    hide_cursor(&mut hidden);
    assert_eq!(hidden, "\x1b[?25l");
    let mut shown = String::new();
    show_cursor(&mut shown);
    assert_eq!(shown, "\x1b[?25h");
}

#[test]
fn write_char_goes_writes_and_hides() {
    let mut out = String::new();
    write_char(&mut out, 4, 2, '+');
    assert_eq!(out, "\x1b[2;4H+\x1b[?25l");
}

#[test]
fn write_char_keeps_what_was_there() {
    let mut out = String::from("before");
    write_char(&mut out, 7, 3, '@');
    write_char(&mut out, 8, 3, ' ');
    assert_eq!(out, "before\x1b[3;7H@\x1b[?25l\x1b[3;8H \x1b[?25l");
}

#[test]
fn write_char_takes_a_wide_glyph() {
    let mut out = String::new();
    write_char(&mut out, 2, 2, '\u{2588}');
    assert_eq!(out, "\x1b[2;2H\u{2588}\x1b[?25l");
}
