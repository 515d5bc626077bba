use tic_tac_toe::game::{Game, MoveError, Outcome};
use tic_tac_toe::player::Player;
use tic_tac_toe::terminal::{move_from_numbers, parse_move, play_line, play_move, Reply};

fn fresh() -> Game {
    Game::new(
        Player::new("Player X".to_string(), 'X'),
        Player::new("Player O".to_string(), 'O'),
    )
}

#[test]
fn line_with_row_and_column_is_a_move() {
    assert_eq!(parse_move("1 2"), Some((1, 2)));
    assert_eq!(parse_move("0 0\n"), Some((0, 0)));
    assert_eq!(parse_move("   2\t 1  \r\n"), Some((2, 1)));
    assert_eq!(parse_move("+1 02"), Some((1, 2)));
}

#[test]
fn words_that_are_no_numbers_are_passed_over() {
    assert_eq!(parse_move("row 1 col 2"), Some((1, 2)));
    assert_eq!(parse_move("1, 2"), None);
    assert_eq!(parse_move("-1 2"), None);
    assert_eq!(parse_move("1 2 99999999999999999999999999999999"), Some((1, 2)));
    assert_eq!(parse_move("1.0 2 0"), Some((2, 0)));
}

#[test]
fn line_without_two_small_numbers_is_no_move() {
    assert_eq!(parse_move(""), None);
    assert_eq!(parse_move("   "), None);
    assert_eq!(parse_move("1"), None);
    assert_eq!(parse_move("1 2 0"), None);
    assert_eq!(parse_move("3 0"), None);
    assert_eq!(parse_move("0 3"), None);
    assert_eq!(parse_move("12"), None);
    assert_eq!(parse_move("x y"), None);
}

#[test]
fn numbers_give_a_move_only_in_pairs_within_the_board() {
    assert_eq!(move_from_numbers(&vec![2, 2]), Some((2, 2)));
    assert_eq!(move_from_numbers(&vec![0, 1]), Some((0, 1)));
    assert_eq!(move_from_numbers(&vec![]), None);
    assert_eq!(move_from_numbers(&vec![1]), None);
    assert_eq!(move_from_numbers(&vec![1, 1, 1]), None);
    assert_eq!(move_from_numbers(&vec![3, 1]), None);
    assert_eq!(move_from_numbers(&vec![1, usize::MAX]), None);
}

#[test]
fn replies_follow_the_game() {
    let mut game = fresh();
    assert_eq!(play_line(&mut game, "0 0"), Reply::Continue);
    assert_eq!(play_line(&mut game, "0 0"), Reply::Refused(MoveError::CellOccupied));
    assert_eq!(play_line(&mut game, "0 5"), Reply::Invalid);
    assert_eq!(play_line(&mut game, "hello"), Reply::Invalid);
    assert_eq!(game.get_current_player().mark, 'O');
    assert_eq!(play_line(&mut game, "1 0"), Reply::Continue);
    assert_eq!(play_line(&mut game, "0 1"), Reply::Continue);
    assert_eq!(play_line(&mut game, "1 1"), Reply::Continue);
    assert_eq!(play_line(&mut game, "0 2"), Reply::Won('X'));
    assert_eq!(game.outcome(), Outcome::Won('X'));
    assert_eq!(game.get_current_player().name, "Player X");
    assert_eq!(play_line(&mut game, "2 2"), Reply::Refused(MoveError::GameOver));
    assert_eq!(game.get_grid().display(), "X X X\nO O .\n. . .\n");
}

#[test]
fn last_move_of_a_full_board_replies_draw() {
    let mut game = fresh();
    let lines = ["0 0", "0 1", "0 2", "1 1", "1 0", "1 2", "2 1", "2 0"];
    for line in lines.iter() {
        assert_eq!(play_line(&mut game, line), Reply::Continue);
    }
    assert_eq!(play_line(&mut game, "2 2"), Reply::Draw);
    assert_eq!(game.outcome(), Outcome::Draw);
}

#[test]
fn move_given_as_numbers_is_played() {
    let mut game = fresh();
    assert_eq!(play_move(&mut game, None), Reply::Invalid);
    assert_eq!(game.get_grid().cells, [[None; 3]; 3]);
    assert_eq!(play_move(&mut game, Some((2, 0))), Reply::Continue);
    assert_eq!(game.get_grid().cells[2][0], Some('X'));
    assert_eq!(play_move(&mut game, Some((2, 3))), Reply::Refused(MoveError::OutOfBounds));
    assert_eq!(play_move(&mut game, Some((2, 0))), Reply::Refused(MoveError::CellOccupied));
    assert_eq!(game.get_current_player().mark, 'O');
}
