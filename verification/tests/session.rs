use tic_tac_toe::game::Outcome;
use tic_tac_toe::grid::Cell;
use tic_tac_toe::session::{
    handle_ai_turn, handle_clicks, handle_restart, log_game_record, play_ai_choice, update_grid,
    update_winner_text, GameState, Score, Tint,
};

fn count(state: &GameState, mark: char) -> usize {
    let mut n = 0;
    for row in state.game().get_grid().cells.iter() {
        for cell in row.iter() {
            if *cell == Some(mark) {
                n += 1;
            }
        }
    }
    n
}

fn x_wins_top_row(state: &mut GameState) {
    for (row, col) in [(0, 0), (1, 0), (0, 1), (1, 1), (0, 2)].iter() {
        handle_clicks(state, *row, *col);
    }
}

fn play_draw(state: &mut GameState) {
    for (row, col) in
        [(0, 0), (0, 1), (0, 2), (1, 1), (1, 0), (1, 2), (2, 1), (2, 0), (2, 2)].iter()
    {
        handle_clicks(state, *row, *col);
    }
}

#[test]
fn sitting_starts_with_x_on_empty_board() {
    let state = GameState::new();
    assert_eq!(state.game().get_grid().cells, [[None; 3]; 3]);
    assert_eq!(state.game().get_current_player().mark, 'X');
    assert!(!state.game_over());
    assert!(!state.message_displayed());
    assert_eq!(state.winner(), None);
    let score = Score::new();
    assert_eq!((score.wins_x, score.wins_o, score.draws), (0, 0, 0));
}

#[test]
fn click_places_mark_and_hands_turn_on() {
    let mut state = GameState::new();
    handle_clicks(&mut state, 1, 1);
    assert_eq!(state.game().get_grid().cells[1][1], Some('X'));
    assert_eq!(state.game().get_current_player().mark, 'O');
    handle_clicks(&mut state, 1, 1);
    assert_eq!(state.game().get_grid().cells[1][1], Some('X'));
    assert_eq!(state.game().get_current_player().mark, 'O');
    handle_clicks(&mut state, 4, 1);
    assert_eq!(count(&state, 'X') + count(&state, 'O'), 1);
}

#[test]
fn click_after_the_end_is_ignored() {
    let mut state = GameState::new();
    x_wins_top_row(&mut state);
    assert!(state.game_over());
    assert_eq!(state.winner(), Some('X'));
    let cells = state.game().get_grid().cells;
    handle_clicks(&mut state, 2, 2);
    assert_eq!(state.game().get_grid().cells, cells);
}

#[test]
fn computer_plays_one_empty_cell() {
    for _ in 0..50 {
        let mut state = GameState::new();
        handle_clicks(&mut state, 1, 1);
        handle_ai_turn(&mut state);
        assert_eq!(count(&state, 'O'), 1);
        assert_eq!(count(&state, 'X'), 1);
        assert_eq!(state.game().get_grid().cells[1][1], Some('X'));
        assert_eq!(state.game().get_current_player().mark, 'X');
        assert_eq!(state.game().get_grid().empty_cells().len(), 7);
    }
}

#[test]
fn computer_takes_the_last_empty_cell() {
    let mut state = GameState::new();
    for (row, col) in [(0, 0), (0, 1), (0, 2), (1, 1), (1, 0), (1, 2), (2, 1)].iter() {
        handle_clicks(&mut state, *row, *col);
    }
    assert_eq!(state.game().get_current_player().mark, 'O');
    handle_ai_turn(&mut state);
    assert_eq!(count(&state, 'O'), 4);
    assert_eq!(state.game().get_grid().empty_cells().len(), 1);
    handle_ai_turn(&mut state);
    assert_eq!(state.game().get_grid().empty_cells().len(), 1);
}

#[test]
fn computer_waits_for_its_turn() {
    let mut state = GameState::new();
    handle_ai_turn(&mut state);
    assert_eq!(state.game().get_grid().cells, [[None; 3]; 3]);
    assert_eq!(state.game().get_current_player().mark, 'X');
}

#[test]
fn computer_does_not_move_after_the_end() {
    let mut state = GameState::new();
    for (row, col) in [(0, 0), (1, 0), (0, 1), (1, 1), (2, 2), (1, 2)].iter() {
        handle_clicks(&mut state, *row, *col);
    }
    assert_eq!(state.winner(), Some('O'));
    assert_eq!(state.game().get_current_player().mark, 'O');
    let cells = state.game().get_grid().cells;
    handle_ai_turn(&mut state);
    assert_eq!(state.game().get_grid().cells, cells);
}

#[test]
fn chosen_cell_is_played_like_a_click() {
    let mut state = GameState::new();
    handle_clicks(&mut state, 0, 0);
    play_ai_choice(&mut state, Some(Cell { row: 2, col: 1 }));
    assert_eq!(state.game().get_grid().cells[2][1], Some('O'));
    assert_eq!(state.game().get_current_player().mark, 'X');
    play_ai_choice(&mut state, None);
    assert_eq!(count(&state, 'X') + count(&state, 'O'), 2);
    play_ai_choice(&mut state, Some(Cell { row: 2, col: 1 }));
    assert_eq!(count(&state, 'X') + count(&state, 'O'), 2);
    assert_eq!(state.game().get_current_player().mark, 'X');
}

#[test]
fn win_is_recorded_once() {
    let mut state = GameState::new();
    let mut score = Score::new();
    assert_eq!(log_game_record(&mut state, &mut score), None);
    x_wins_top_row(&mut state);
    assert_eq!(update_winner_text(&state), None);
    assert_eq!(log_game_record(&mut state, &mut score), Some(Outcome::Won('X')));
    assert!(state.message_displayed());
    assert_eq!((score.wins_x, score.wins_o, score.draws), (1, 0, 0));
    assert_eq!(log_game_record(&mut state, &mut score), None);
    assert_eq!((score.wins_x, score.wins_o, score.draws), (1, 0, 0));
    assert_eq!(update_winner_text(&state), Some("Player X wins!".to_string()));
}

#[test]
fn draw_is_recorded_once() {
    let mut state = GameState::new();
    let mut score = Score { wins_x: 2, wins_o: 5, draws: 7 };
    play_draw(&mut state);
    assert!(state.game_over());
    assert_eq!(state.winner(), None);
    let _ = update_grid(&mut state, &mut score);
    assert_eq!((score.wins_x, score.wins_o, score.draws), (2, 5, 8));
    let _ = update_grid(&mut state, &mut score);
    assert_eq!(log_game_record(&mut state, &mut score), None);
    assert_eq!((score.wins_x, score.wins_o, score.draws), (2, 5, 8));
    assert_eq!(update_winner_text(&state), Some("It's a draw!".to_string()));
}

#[test]
fn score_counts_each_result() {
    let mut score = Score::new();
    score.record(Outcome::Won('O'));
    score.record(Outcome::Won('O'));
    score.record(Outcome::Won('X'));
    score.record(Outcome::Draw);
    score.record(Outcome::InProgress);
    score.record(Outcome::Won('Z'));
    assert_eq!((score.wins_x, score.wins_o, score.draws), (1, 2, 1));
}

#[test]
fn tints_follow_marks_and_position() {
    let mut state = GameState::new();
    let mut score = Score::new();
    let tints = update_grid(&mut state, &mut score);
    assert_eq!(
        tints,
        [
            [Tint::Light, Tint::Dark, Tint::Light],
            [Tint::Dark, Tint::Light, Tint::Dark],
            [Tint::Light, Tint::Dark, Tint::Light],
        ]
    );
    handle_clicks(&mut state, 0, 0);
    handle_clicks(&mut state, 0, 1);
    let tints = update_grid(&mut state, &mut score);
    assert_eq!(
        tints,
        [
            [Tint::Red, Tint::Blue, Tint::Light],
            [Tint::Dark, Tint::Light, Tint::Dark],
            [Tint::Light, Tint::Dark, Tint::Light],
        ]
    );
    assert!(!state.message_displayed());
    assert_eq!((score.wins_x, score.wins_o, score.draws), (0, 0, 0));
}

#[test]
fn restart_clears_board_and_banner() {
    let mut state = GameState::new();
    let mut score = Score::new();
    x_wins_top_row(&mut state);
    let _ = log_game_record(&mut state, &mut score);
    assert!(update_winner_text(&state).is_some());
    handle_restart(&mut state);
    assert_eq!(state.game().get_grid().cells, [[None; 3]; 3]);
    assert_eq!(state.game().get_current_player().mark, 'X');
    assert!(!state.game_over());
    assert!(!state.message_displayed());
    assert_eq!(update_winner_text(&state), None);
    assert_eq!((score.wins_x, score.wins_o, score.draws), (1, 0, 0));
    handle_clicks(&mut state, 2, 2);
    assert_eq!(state.game().get_grid().cells[2][2], Some('X'));
}

#[test]
fn restart_in_mid_game_gives_turn_to_x() {
    let mut state = GameState::new();
    handle_clicks(&mut state, 0, 0);
    assert_eq!(state.game().get_current_player().mark, 'O');
    handle_restart(&mut state);
    assert_eq!(state.game().get_current_player().mark, 'X');
    assert_eq!(state.game().get_grid().cells, [[None; 3]; 3]);
}
