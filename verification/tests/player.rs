use roomwalk::key::Direction;
use roomwalk::player::Player;

#[test]
fn player_starts_in_the_top_left_cell() {
    assert_eq!(Player::new(), Player { x: 1, y: 1 });
}

#[test]
fn step_moves_by_one_cell_along_each_axis() {
    let cases = [
        (Direction::Left, (4, 5)),
        (Direction::Right, (6, 5)),
        (Direction::Up, (5, 4)),
        (Direction::Down, (5, 6)),
        (Direction::UpLeft, (4, 4)),
        (Direction::UpRight, (6, 4)),
        (Direction::DownLeft, (4, 6)),
        (Direction::DownRight, (6, 6)),
    ];
    for (direction, (x, y)) in cases {
        let mut player = Player { x: 5, y: 5 };
        player.step(direction);
        assert_eq!(player, Player { x, y });
    }
}

#[test]
fn step_stays_at_one() {
    let mut player = Player { x: 1, y: 1 };
    player.step(Direction::Up);
    assert_eq!(player, Player { x: 1, y: 1 });
    player.step(Direction::Left);
    assert_eq!(player, Player { x: 1, y: 1 });
    player.step(Direction::UpLeft);
    assert_eq!(player, Player { x: 1, y: 1 });
    player.step(Direction::DownLeft);
    assert_eq!(player, Player { x: 1, y: 2 });
    player.step(Direction::UpRight);
    assert_eq!(player, Player { x: 2, y: 1 });
}

#[test]
fn step_stays_within_sixteen_bits() {
    let mut player = Player { x: 65535, y: 65535 };
    player.step(Direction::DownRight);
    assert_eq!(player, Player { x: 65535, y: 65535 });
    player.step(Direction::Right);
    assert_eq!(player, Player { x: 65535, y: 65535 });
    player.step(Direction::Left);
    assert_eq!(player, Player { x: 65534, y: 65535 });
}

#[test]
fn step_lifts_a_zero_coordinate_to_one() {
    let mut player = Player { x: 0, y: 0 };
    player.step(Direction::Down);
    assert_eq!(player, Player { x: 1, y: 1 });
    let mut player = Player { x: 0, y: 0 };
    player.step(Direction::Left);
    assert_eq!(player, Player { x: 1, y: 1 });
}

#[test]
fn direction_changes_are_at_most_one() {
    assert_eq!((Direction::Left.dx(), Direction::Left.dy()), (-1, 0));
    assert_eq!((Direction::Right.dx(), Direction::Right.dy()), (1, 0));
    assert_eq!((Direction::Up.dx(), Direction::Up.dy()), (0, -1));
    assert_eq!((Direction::Down.dx(), Direction::Down.dy()), (0, 1));
    assert_eq!((Direction::UpLeft.dx(), Direction::UpLeft.dy()), (-1, -1));
    assert_eq!((Direction::UpRight.dx(), Direction::UpRight.dy()), (1, -1));
    assert_eq!((Direction::DownLeft.dx(), Direction::DownLeft.dy()), (-1, 1));
    assert_eq!((Direction::DownRight.dx(), Direction::DownRight.dy()), (1, 1));
}

#[test]
fn confine_brings_the_player_back() {
    let mut player = Player { x: 100, y: 50 };
    player.confine(80, 24);
    assert_eq!(player, Player { x: 80, y: 24 });
    let mut player = Player { x: 100, y: 5 };
    player.confine(80, 24);
    assert_eq!(player, Player { x: 80, y: 5 });
}

#[test]
fn confine_leaves_a_player_on_the_surface() {
    let mut player = Player { x: 80, y: 1 };
    player.confine(80, 24);
    assert_eq!(player, Player { x: 80, y: 1 });
}

#[test]
fn confine_counts_from_one() {
    let mut player = Player { x: 0, y: 0 };
    player.confine(80, 24);
    assert_eq!(player, Player { x: 1, y: 1 });
}

#[test]
fn confine_treats_no_columns_as_one_cell() {
    let mut player = Player { x: 7, y: 7 };
    player.confine(0, 0);
    assert_eq!(player, Player { x: 1, y: 1 });
    let mut player = Player { x: 7, y: 7 };
    player.confine(0, 10);
    assert_eq!(player, Player { x: 1, y: 7 });
}

#[test]
fn draw_writes_the_player_glyph_on_its_cell() {
    let mut out = String::from("\x1b[2J");
    Player { x: 3, y: 2 }.draw(&mut out);
    assert_eq!(out, "\x1b[2J\x1b[2;3H@\x1b[?25l");
}
