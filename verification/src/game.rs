//! The turn engine: a board, the player whose turn it is, and the one
//! operation that changes them, placing a mark.

use vstd::prelude::*;
use crate::grid::{
    empty_board, is_full, well_shaped, winner, with_mark, Board, Grid, GRID_SIZE,
};
use crate::player::{Player, PlayerView};

verus! {

/// Where a game stands.
#[derive(Clone, Copy, Debug, PartialEq, Eq, Structural)]
pub enum Outcome {
    /// Moves are still accepted.
    InProgress,
    /// The mark given fills a row, a column or a diagonal.
    Won(char),
    /// Every cell is marked and no line is complete.
    Draw,
}

/// Why a move was refused.
#[derive(Clone, Copy, Debug, PartialEq, Eq, Structural)]
pub enum MoveError {
    /// The row or the column lies outside the board.
    OutOfBounds,
    /// The cell already holds a mark.
    CellOccupied,
    /// The game has been won or drawn.
    GameOver,
}

/// The sentence that tells a player why a move was refused.
pub open spec fn error_text(e: MoveError) -> Seq<char> {
    match e {
        MoveError::OutOfBounds => "Row and column must be between 0 and 2"@,
        MoveError::CellOccupied => "Cell is already occupied"@,
        MoveError::GameOver => "The game is already over"@,
    }
}

impl MoveError {
    /// The sentence that tells a player why the move was refused.
    pub fn message(&self) -> (text: String)
        ensures
            text@ == error_text(*self),
    {
        match self {
            MoveError::OutOfBounds => "Row and column must be between 0 and 2".to_owned(),
            MoveError::CellOccupied => "Cell is already occupied".to_owned(),
            MoveError::GameOver => "The game is already over".to_owned(),
        }
    }
}

/// A game as the contracts see it.
pub struct GameView {
    /// The cells of the board.
    pub board: Board,
    /// The player who moves next.
    pub turn: PlayerView,
    /// The player who moves first in a fresh game.
    pub opening: PlayerView,
}

/// The outcome that a board shows: won by the mark of its first complete
/// line, drawn if it is full without one, in progress otherwise.
pub open spec fn outcome_of(b: Board) -> Outcome {
    match winner(b) {
        Some(mark) => Outcome::Won(mark),
        None => if is_full(b) {
            Outcome::Draw
        } else {
            Outcome::InProgress
        },
    }
}

/// The player who moves after `p`: the one marked `O` after a player marked
/// `X`, and the one marked `X` after anyone else.
pub open spec fn next_player(p: PlayerView) -> PlayerView {
    if p.mark == 'X' {
        PlayerView { name: "Player O"@, mark: 'O' }
    } else {
        PlayerView { name: "Player X"@, mark: 'X' }
    }
}

/// The reason for which a move to (`row`, `col`) is refused, `None` where
/// it is accepted. A finished game refuses every move; then the position
/// is tested, and last the cell.
pub open spec fn move_error(v: GameView, row: int, col: int) -> Option<MoveError> {
    if outcome_of(v.board) != Outcome::InProgress {
        Some(MoveError::GameOver)
    } else if !(0 <= row < 3 && 0 <= col < 3) {
        Some(MoveError::OutOfBounds)
    } else if v.board[row][col] is Some {
        Some(MoveError::CellOccupied)
    } else {
        None
    }
}

/// The game after a move to (`row`, `col`) was asked for. A refused move
/// changes nothing. An accepted one writes the mark of the player to move,
/// and hands the turn on unless the move ended the game.
pub open spec fn after_move(v: GameView, row: int, col: int) -> GameView {
    if move_error(v, row, col) is Some {
        v
    } else {
        let board = with_mark(v.board, row, col, v.turn.mark);
        GameView {
            board,
            turn: if outcome_of(board) == Outcome::InProgress {
                next_player(v.turn)
            } else {
                v.turn
            },
            opening: v.opening,
        }
    }
}

/// The state in which a game starts when `opening` moves first.
pub open spec fn fresh_game(opening: PlayerView) -> GameView {
    GameView { board: empty_board(), turn: opening, opening }
}

/// A game of tic-tac-toe.
pub struct Game {
    grid: Grid,
    current_player: Player,
    first_player: Player,
}

impl View for Game {
    type V = GameView;

    closed spec fn view(&self) -> GameView {
        GameView { board: self.grid@, turn: self.current_player@, opening: self.first_player@ }
    }
}

impl Game {
    /// Starts a game on an empty board. The first player given moves first.
    pub fn new(player_x: Player, _player_o: Player) -> (game: Self)
        ensures
            game@ == fresh_game(player_x@),
    {
        let first_player = player_x.clone();
        Game { grid: Grid::new(), current_player: player_x, first_player }
    }

    /// The board of a game has three rows of three cells.
    pub proof fn lemma_board_shape(&self)
        ensures
            well_shaped(self@.board),
    {
    }

    /// Where the game stands, read from the board.
    pub fn outcome(&self) -> (o: Outcome)
        ensures
            o == outcome_of(self@.board),
    {
        match self.grid.winner() {
            Some(mark) => Outcome::Won(mark),
            None => if self.grid.is_full() {
                Outcome::Draw
            } else {
                Outcome::InProgress
            },
        }
    }

    /// Places the mark of the player to move at (`row`, `col`).
    pub fn place(&mut self, row: usize, col: usize) -> (res: Result<(), MoveError>)
        ensures
            final(self)@ == after_move(old(self)@, row as int, col as int),
            res == match move_error(old(self)@, row as int, col as int) {
                Some(e) => Err::<(), MoveError>(e),
                None => Ok(()),
            },
    {
        match self.outcome() {
            Outcome::InProgress => {},
            _ => {
                return Err(MoveError::GameOver);
            },
        }
        if row >= GRID_SIZE || col >= GRID_SIZE {
            return Err(MoveError::OutOfBounds);
        }
        if self.grid.is_occupied(row, col) {
            return Err(MoveError::CellOccupied);
        }
        self.grid.place_mark(row, col, self.current_player.get_mark());
        match self.outcome() {
            Outcome::InProgress => {
                self.switch_player();
            },
            _ => {},
        }
        Ok(())
    }

    /// Plays one turn: places the mark of the player to move at (`row`,
    /// `col`), and says in words why where the move is refused.
    pub fn play_turn(&mut self, row: usize, col: usize) -> (res: Result<(), String>)
        ensures
            final(self)@ == after_move(old(self)@, row as int, col as int),
            res is Ok <==> move_error(old(self)@, row as int, col as int) is None,
            res is Err ==> res->Err_0@ == error_text(
                move_error(old(self)@, row as int, col as int).unwrap(),
            ),
    {
        match self.place(row, col) {
            Ok(()) => Ok(()),
            Err(e) => Err(e.message()),
        }
    }

    /// Starts the game over: the board is cleared and the opening player
    /// moves next.
    pub fn reset(&mut self)
        ensures
            final(self)@ == fresh_game(old(self)@.opening),
            outcome_of(final(self)@.board) == Outcome::InProgress,
    {
        self.grid = Grid::new();
        self.current_player = self.first_player.clone();
        proof {
            lemma_empty_board_in_progress();
        }
    }

    /// Whether some mark fills a row, a column or a diagonal.
    pub fn check_winner(&self) -> (won: bool)
        ensures
            won == (winner(self@.board) is Some),
            won == (outcome_of(self@.board) is Won),
    {
        self.grid.winner().is_some()
    }

    /// Whether the game is drawn: the board is full and no line is complete.
    pub fn is_draw(&self) -> (drawn: bool)
        ensures
            drawn == (outcome_of(self@.board) == Outcome::Draw),
            drawn == (is_full(self@.board) && winner(self@.board) is None),
    {
        self.grid.is_full() && self.grid.winner().is_none()
    }

    /// Hands the turn to the other player.
    fn switch_player(&mut self)
        ensures
            final(self)@ == (GameView { turn: next_player(old(self)@.turn), ..old(self)@ }),
    {
        if self.current_player.get_mark() == 'X' {
            self.current_player = Player::new("Player O".to_owned(), 'O');
        } else {
            self.current_player = Player::new("Player X".to_owned(), 'X');
        }
    }

    /// Getter for the grid.
    pub fn get_grid(&self) -> (grid: &Grid)
        ensures
            grid@ == self@.board,
    {
        &self.grid
    }

    /// Getter for the current player.
    pub fn get_current_player(&self) -> (player: &Player)
        ensures
            player@ == self@.turn,
    {
        &self.current_player
    }
}

/// On the empty board no line is complete and no cell is marked, so a fresh
/// game is in progress.
pub proof fn lemma_empty_board_in_progress()
    ensures
        winner(empty_board()) is None,
        !is_full(empty_board()),
        outcome_of(empty_board()) == Outcome::InProgress,
{
    let b = empty_board();
    assert(b[0][0] is None);
}

} // verus!
