//! A sitting at the board: one game after another against the computer,
//! with a running score. The window that shows it lives elsewhere; here is
//! what each of its events does to the game.

use vstd::prelude::*;
use crate::chance::choose_cell;
use crate::game::{
    after_move, fresh_game, lemma_empty_board_in_progress, outcome_of, Game, GameView, Outcome,
};
use crate::grid::{Board, Cell};
use crate::player::{Player, PlayerView};

verus! {

/// Games won by each mark, and games drawn.
pub struct Score {
    pub wins_x: u32,
    pub wins_o: u32,
    pub draws: u32,
}

/// The colour in which a cell is shown.
#[derive(Clone, Copy, Debug, PartialEq, Eq, Structural)]
pub enum Tint {
    /// A cell marked `X`.
    Red,
    /// A cell that holds any other mark.
    Blue,
    /// An empty cell whose row and column add up to an even number.
    Light,
    /// An empty cell whose row and column add up to an odd number.
    Dark,
}

/// A sitting as the contracts see it.
pub struct GameStateView {
    /// The game being played.
    pub game: GameView,
    /// Whether the result of this game has been entered in the score.
    pub message_displayed: bool,
}

/// The game on the table, and whether its result has been recorded.
pub struct GameState {
    game: Game,
    message_displayed: bool,
}

impl View for GameState {
    type V = GameStateView;

    closed spec fn view(&self) -> GameStateView {
        GameStateView { game: self.game@, message_displayed: self.message_displayed }
    }
}

/// The player who opens every game of a sitting.
pub open spec fn player_x() -> PlayerView {
    PlayerView { name: "Player X"@, mark: 'X' }
}

/// The colour of cell (`row`, `col`) of a board.
pub open spec fn tint_of(b: Board, row: int, col: int) -> Tint {
    match b[row][col] {
        Some(mark) => if mark == 'X' {
            Tint::Red
        } else {
            Tint::Blue
        },
        None => if (row + col) % 2 == 0 {
            Tint::Light
        } else {
            Tint::Dark
        },
    }
}

/// The game is over and its result has not been entered in the score yet.
pub open spec fn result_pending(s: GameStateView) -> bool {
    outcome_of(s.game.board) != Outcome::InProgress && !s.message_displayed
}

/// The three counts of `score` once a game that ended in `o` is entered:
/// a win of `X` or of `O` adds one to that mark's count, a draw adds one to
/// the draws, and anything else leaves the counts alone.
pub open spec fn tally(score: Score, o: Outcome) -> (int, int, int) {
    match o {
        Outcome::Won(mark) => if mark == 'X' {
            (score.wins_x + 1, score.wins_o as int, score.draws as int)
        } else if mark == 'O' {
            (score.wins_x as int, score.wins_o + 1, score.draws as int)
        } else {
            (score.wins_x as int, score.wins_o as int, score.draws as int)
        },
        Outcome::Draw => (score.wins_x as int, score.wins_o as int, score.draws + 1),
        Outcome::InProgress => (score.wins_x as int, score.wins_o as int, score.draws as int),
    }
}

/// The counts of `tally` all fit the score's counters.
pub open spec fn tally_fits(score: Score, o: Outcome) -> bool {
    &&& tally(score, o).0 <= u32::MAX
    &&& tally(score, o).1 <= u32::MAX
    &&& tally(score, o).2 <= u32::MAX
}

impl Score {
    /// A score with nothing counted yet.
    pub fn new() -> (score: Self)
        ensures
            score.wins_x == 0,
            score.wins_o == 0,
            score.draws == 0,
    {
        Score { wins_x: 0, wins_o: 0, draws: 0 }
    }

    /// Whether a game that ended in `o` can be entered without a count
    /// running over.
    pub fn can_record(&self, o: Outcome) -> (fits: bool)
        ensures
            fits == tally_fits(*self, o),
    {
        match o {
            Outcome::Won(mark) => {
                if mark == 'X' {
                    self.wins_x < u32::MAX
                } else if mark == 'O' {
                    self.wins_o < u32::MAX
                } else {
                    true
                }
            },
            Outcome::Draw => self.draws < u32::MAX,
            Outcome::InProgress => true,
        }
    }

    /// Enters a game that ended in `o`.
    pub fn record(&mut self, o: Outcome)
        requires
            tally_fits(*old(self), o),
        ensures
            (final(self).wins_x as int, final(self).wins_o as int, final(self).draws as int)
                == tally(*old(self), o),
    {
        match o {
            Outcome::Won(mark) => {
                if mark == 'X' {
                    self.wins_x += 1;
                } else if mark == 'O' {
                    self.wins_o += 1;
                }
            },
            Outcome::Draw => {
                self.draws += 1;
            },
            Outcome::InProgress => {},
        }
    }
}

impl GameState {
    /// A sitting's first game: an empty board, `X` to move, nothing recorded.
    pub fn new() -> (state: Self)
        ensures
            state@ == (GameStateView { game: fresh_game(player_x()), message_displayed: false }),
    {
        let x = Player::new("Player X".to_owned(), 'X');
        let o = Player::new("Player O".to_owned(), 'O');
        GameState { game: Game::new(x, o), message_displayed: false }
    }

    /// The game on the table.
    pub fn game(&self) -> (game: &Game)
        ensures
            game@ == self@.game,
    {
        &self.game
    }

    /// Whether the result of this game has been entered in the score.
    pub fn message_displayed(&self) -> (shown: bool)
        ensures
            shown == self@.message_displayed,
    {
        self.message_displayed
    }

    /// Whether the game has been won or drawn.
    pub fn game_over(&self) -> (over: bool)
        ensures
            over == (outcome_of(self@.game.board) != Outcome::InProgress),
    {
        match self.game.outcome() {
            Outcome::InProgress => false,
            _ => true,
        }
    }

    /// The mark that has won the game, if one has.
    pub fn winner(&self) -> (mark: Option<char>)
        ensures
            mark == crate::grid::winner(self@.game.board),
    {
        self.game.get_grid().winner()
    }
}

/// What the banner says of a finished game.
pub open spec fn banner_text(o: Outcome) -> Seq<char> {
    match o {
        Outcome::Won(mark) => "Player "@.push(mark) + " wins!"@,
        _ => "It's a draw!"@,
    }
}

/// The game after the computer was handed `choice`: a cell chosen is played
/// like any other move, and without one nothing happens.
pub open spec fn after_choice(v: GameView, choice: Option<Cell>) -> GameView {
    match choice {
        Some(cell) => after_move(v, cell.row as int, cell.col as int),
        None => v,
    }
}

/// It is for the computer to move: the game is in progress and `O` is next.
pub open spec fn computer_to_move(v: GameView) -> bool {
    outcome_of(v.board) == Outcome::InProgress && v.turn.mark == 'O'
}

/// A click on cell (`row`, `col`): the move is played if the game accepts
/// it, and ignored if not.
pub fn handle_clicks(game_state: &mut GameState, row: usize, col: usize)
    ensures
        final(game_state)@.game == after_move(old(game_state)@.game, row as int, col as int),
        final(game_state)@.message_displayed == old(game_state)@.message_displayed,
{
    let _ = game_state.game.place(row, col);
}

/// Enters the result of a finished game in the score, once for each game,
/// and says which result it entered.
pub fn log_game_record(game_state: &mut GameState, score: &mut Score) -> (recorded: Option<Outcome>)
    requires
        result_pending(old(game_state)@) ==> tally_fits(
            *old(score),
            outcome_of(old(game_state)@.game.board),
        ),
    ensures
        final(game_state)@.game == old(game_state)@.game,
        result_pending(old(game_state)@) ==> {
            &&& recorded == Some(outcome_of(old(game_state)@.game.board))
            &&& final(game_state)@.message_displayed
            &&& (final(score).wins_x as int, final(score).wins_o as int, final(score).draws as int)
                == tally(*old(score), outcome_of(old(game_state)@.game.board))
        },
        !result_pending(old(game_state)@) ==> {
            &&& recorded is None
            &&& *final(game_state) == *old(game_state)
            &&& *final(score) == *old(score)
        },
{
    if game_state.game_over() && !game_state.message_displayed {
        let o = game_state.game.outcome();
        score.record(o);
        game_state.message_displayed = true;
        Some(o)
    } else {
        None
    }
}

/// Brings the picture up to date: enters a finished game in the score as
/// `log_game_record` does, and gives the colour of every cell.
pub fn update_grid(game_state: &mut GameState, score: &mut Score) -> (tints: [[Tint; 3]; 3])
    requires
        result_pending(old(game_state)@) ==> tally_fits(
            *old(score),
            outcome_of(old(game_state)@.game.board),
        ),
    ensures
        forall|r: int, c: int|
            0 <= r < 3 && 0 <= c < 3 ==> (#[trigger] tints[r][c]) == tint_of(
                old(game_state)@.game.board,
                r,
                c,
            ),
        final(game_state)@.game == old(game_state)@.game,
        final(game_state)@.message_displayed == (old(game_state)@.message_displayed
            || outcome_of(old(game_state)@.game.board) != Outcome::InProgress),
        (final(score).wins_x as int, final(score).wins_o as int, final(score).draws as int) == (
            if result_pending(old(game_state)@) {
                tally(*old(score), outcome_of(old(game_state)@.game.board))
            } else {
                (old(score).wins_x as int, old(score).wins_o as int, old(score).draws as int)
            }),
{
    let mut tints = [[Tint::Light; 3]; 3];
    let grid = game_state.game.get_grid();
    let mut row: usize = 0;
    while row < 3
        invariant
            row <= 3,
            grid@ == game_state@.game.board,
            forall|r: int, c: int|
                0 <= r < row && 0 <= c < 3 ==> (#[trigger] tints[r][c]) == tint_of(grid@, r, c),
        decreases 3 - row,
    {
        let mut col: usize = 0;
        while col < 3
            invariant
                row < 3,
                col <= 3,
                grid@ == game_state@.game.board,
                forall|r: int, c: int|
                    0 <= r < row && 0 <= c < 3 ==> (#[trigger] tints[r][c]) == tint_of(grid@, r, c),
                forall|c: int| 0 <= c < col ==> (#[trigger] tints[row as int][c]) == tint_of(grid@, row as int, c),
            decreases 3 - col,
        {
            tints[row][col] = cell_tint(&grid.cells[row][col], row, col);
            col += 1;
        }
        row += 1;
    }
    let _ = log_game_record(game_state, score);
    tints
}

/// The colour of one cell, from what it holds and where it lies.
fn cell_tint(cell: &Option<char>, row: usize, col: usize) -> (tint: Tint)
    requires
        row < 3,
        col < 3,
    ensures
        tint == match *cell {
            Some(mark) => if mark == 'X' {
                Tint::Red
            } else {
                Tint::Blue
            },
            None => if (row + col) % 2 == 0 {
                Tint::Light
            } else {
                Tint::Dark
            },
        },
{
    match cell {
        Some(mark) => if *mark == 'X' {
            Tint::Red
        } else {
            Tint::Blue
        },
        None => if (row + col) % 2 == 0 {
            Tint::Light
        } else {
            Tint::Dark
        },
    }
}

/// The banner over the board: the result of the game once it has been
/// recorded, and nothing before that.
pub fn update_winner_text(game_state: &GameState) -> (banner: Option<String>)
    ensures
        banner is Some <==> game_state@.message_displayed && outcome_of(game_state@.game.board)
            != Outcome::InProgress,
        banner is Some ==> banner.unwrap()@ == banner_text(outcome_of(game_state@.game.board)),
{
    if !game_state.message_displayed {
        return None;
    }
    match game_state.game.outcome() {
        Outcome::InProgress => None,
        Outcome::Won(mark) => {
            let mut text = "Player ".to_owned();
            text.push(mark);
            text.append(" wins!");
            Some(text)
        },
        Outcome::Draw => Some("It's a draw!".to_owned()),
    }
}

/// The restart key: the sitting goes back to where it started, with an
/// empty board, `X` to move and nothing recorded. The score is not touched.
pub fn handle_restart(game_state: &mut GameState)
    ensures
        final(game_state)@ == (GameStateView {
            game: fresh_game(player_x()),
            message_displayed: false,
        }),
        outcome_of(final(game_state)@.game.board) == Outcome::InProgress,
{
    *game_state = GameState::new();
    proof {
        lemma_empty_board_in_progress();
    }
}

/// Plays the cell that was chosen for the computer, if one was.
pub fn play_ai_choice(game_state: &mut GameState, choice: Option<Cell>)
    ensures
        final(game_state)@.game == after_choice(old(game_state)@.game, choice),
        final(game_state)@.message_displayed == old(game_state)@.message_displayed,
{
    match choice {
        Some(cell) => {
            let _ = game_state.game.place(cell.row, cell.col);
        },
        None => {},
    }
}

/// The computer's turn: where the game is in progress and `O` is to move, one
/// of the empty cells, picked at random, is played. Otherwise nothing happens.
pub fn handle_ai_turn(game_state: &mut GameState)
    ensures
        final(game_state)@.message_displayed == old(game_state)@.message_displayed,
        !computer_to_move(old(game_state)@.game) ==> final(game_state)@.game == old(
            game_state,
        )@.game,
        computer_to_move(old(game_state)@.game) ==> exists|row: int, col: int|
            {
                &&& 0 <= row < 3
                &&& 0 <= col < 3
                &&& old(game_state)@.game.board[row][col] is None
                &&& final(game_state)@.game == #[trigger] after_move(old(game_state)@.game, row, col)
            },
{
    if game_state.game_over() || game_state.game.get_current_player().get_mark() != 'O' {
        return ;
    }
    let empty_cells = game_state.game.get_grid().empty_cells();
    let choice = choose_cell(&empty_cells);
    play_ai_choice(game_state, choice);
}

} // verus!
