use roomwalk::key::{Direction, Key, QUIT};

#[test]
fn arrow_keys_move_along_one_axis() {
    assert_eq!(Key::Left.direction(), Some(Direction::Left));
    assert_eq!(Key::Right.direction(), Some(Direction::Right));
    assert_eq!(Key::Up.direction(), Some(Direction::Up));
    assert_eq!(Key::Down.direction(), Some(Direction::Down));
}

#[test]
fn letters_move_in_eight_directions() {
    assert_eq!(Key::Char('h').direction(), Some(Direction::Left));
    assert_eq!(Key::Char('l').direction(), Some(Direction::Right));
    assert_eq!(Key::Char('k').direction(), Some(Direction::Up));
    assert_eq!(Key::Char('j').direction(), Some(Direction::Down));
    assert_eq!(Key::Char('y').direction(), Some(Direction::UpLeft));
    assert_eq!(Key::Char('u').direction(), Some(Direction::UpRight));
    assert_eq!(Key::Char('b').direction(), Some(Direction::DownLeft));
    assert_eq!(Key::Char('n').direction(), Some(Direction::DownRight));
}

#[test]
fn other_keys_move_nothing() {
    assert_eq!(Key::Other.direction(), None);
    assert_eq!(Key::Char('x').direction(), None);
    assert_eq!(Key::Char('H').direction(), None);
    assert_eq!(Key::Char(' ').direction(), None);
    assert_eq!(Key::Char('\n').direction(), None);
    assert_eq!(Key::Char('q').direction(), None);
}

#[test]
fn only_q_quits() {
    assert_eq!(QUIT, 'q');
    assert!(Key::Char('q').is_quit());
    assert!(!Key::Char('Q').is_quit());
    assert!(!Key::Char('h').is_quit());
    assert!(!Key::Left.is_quit());
    assert!(!Key::Other.is_quit());
}
