//! What holds of every move and of every run of moves, proved over the
//! model of the game.

use vstd::prelude::*;
use crate::game::{after_move, fresh_game, move_error, outcome_of, GameView, MoveError, Outcome};
use crate::grid::{
    empty_board, has_line, is_full, lemma_winner_has_line, mark_count, well_shaped, Board,
};
use crate::player::PlayerView;

verus! {

/// The game after the moves of `moves` were asked for one after the other,
/// each given as a row and a column.
pub open spec fn after_moves(v: GameView, moves: Seq<(int, int)>) -> GameView
    decreases moves.len(),
{
    if moves.len() == 0 {
        v
    } else {
        let before = after_moves(v, moves.drop_last());
        after_move(before, moves.last().0, moves.last().1)
    }
}

/// How many of the moves of `moves`, asked for one after the other, are
/// accepted.
pub open spec fn accepted_moves(v: GameView, moves: Seq<(int, int)>) -> nat
    decreases moves.len(),
{
    if moves.len() == 0 {
        0
    } else {
        let before = after_moves(v, moves.drop_last());
        let earlier = accepted_moves(v, moves.drop_last());
        if move_error(before, moves.last().0, moves.last().1) is None {
            earlier + 1
        } else {
            earlier
        }
    }
}

/// A move leaves the board three by three, and leaves every mark that was on
/// it: only a reset clears a cell.
pub proof fn lemma_move_keeps_marks(v: GameView, row: int, col: int)
    requires
        well_shaped(v.board),
    ensures
        well_shaped(after_move(v, row, col).board),
        after_move(v, row, col).opening == v.opening,
        forall|r: int, c: int|
            0 <= r < 3 && 0 <= c < 3 && (#[trigger] v.board[r][c]) is Some ==> after_move(
                v,
                row,
                col,
            ).board[r][c] == v.board[r][c],
{
}

/// An accepted move writes the mark of the player to move into its cell and
/// adds one to the number of marked cells; a refused move leaves the number
/// as it was.
pub proof fn lemma_move_counts_one(v: GameView, row: int, col: int)
    requires
        well_shaped(v.board),
    ensures
        move_error(v, row, col) is None ==> {
            &&& after_move(v, row, col).board[row][col] == Some(v.turn.mark)
            &&& mark_count(after_move(v, row, col).board) == mark_count(v.board) + 1
        },
        move_error(v, row, col) is Some ==> mark_count(after_move(v, row, col).board)
            == mark_count(v.board),
{
}

/// After any run of moves the number of marked cells has grown by the number
/// of moves that were accepted.
pub proof fn lemma_marks_count_accepted_moves(v: GameView, moves: Seq<(int, int)>)
    requires
        well_shaped(v.board),
    ensures
        well_shaped(after_moves(v, moves).board),
        mark_count(after_moves(v, moves).board) == mark_count(v.board) + accepted_moves(v, moves),
    decreases moves.len(),
{
    if moves.len() > 0 {
        lemma_marks_count_accepted_moves(v, moves.drop_last());
        let before = after_moves(v, moves.drop_last());
        lemma_move_keeps_marks(before, moves.last().0, moves.last().1);
        lemma_move_counts_one(before, moves.last().0, moves.last().1);
    }
}

/// In a game played from the start, the number of marked cells is the number
/// of moves that were accepted.
pub proof fn lemma_fresh_game_counts_moves(opening: PlayerView, moves: Seq<(int, int)>)
    ensures
        mark_count(after_moves(fresh_game(opening), moves).board) == accepted_moves(
            fresh_game(opening),
            moves,
        ),
{
    assert(well_shaped(empty_board()));
    lemma_marks_count_accepted_moves(fresh_game(opening), moves);
}

/// A run of moves is played by the rules from the start: every move names a
/// cell of the board, no cell is named twice, and no move comes after the
/// game has ended.
pub open spec fn legal_run(opening: PlayerView, moves: Seq<(int, int)>) -> bool {
    &&& forall|k: int|
        0 <= k < moves.len() ==> 0 <= (#[trigger] moves[k]).0 < 3 && 0 <= moves[k].1 < 3
    &&& forall|j: int, k: int| 0 <= j < k < moves.len() ==> #[trigger] moves[j] != #[trigger] moves[k]
    &&& forall|k: int|
        0 <= k < moves.len() ==> outcome_of(
            after_moves(fresh_game(opening), #[trigger] moves.take(k)).board,
        ) == Outcome::InProgress
}

/// In a game played from the start, a cell holds a mark only if a move
/// named it.
pub proof fn lemma_marked_cell_was_named(
    opening: PlayerView,
    moves: Seq<(int, int)>,
    row: int,
    col: int,
)
    requires
        0 <= row < 3,
        0 <= col < 3,
        after_moves(fresh_game(opening), moves).board[row][col] is Some,
    ensures
        exists|k: int| 0 <= k < moves.len() && #[trigger] moves[k] == (row, col),
    decreases moves.len(),
{
    if moves.len() > 0 {
        let earlier = moves.drop_last();
        let before = after_moves(fresh_game(opening), earlier);
        assert(well_shaped(empty_board()));
        lemma_marks_count_accepted_moves(fresh_game(opening), earlier);
        if before.board[row][col] is Some {
            lemma_marked_cell_was_named(opening, earlier, row, col);
            let k = choose|k: int| 0 <= k < earlier.len() && #[trigger] earlier[k] == (row, col);
            assert(moves[k] == (row, col));
        } else {
            assert(moves[moves.len() - 1] == (row, col));
        }
    }
}

/// In a game played by the rules from the start, every move is accepted, and
/// the number of marked cells is the number of moves made.
pub proof fn lemma_legal_run_marks_every_move(opening: PlayerView, moves: Seq<(int, int)>)
    requires
        legal_run(opening, moves),
    ensures
        accepted_moves(fresh_game(opening), moves) == moves.len(),
        mark_count(after_moves(fresh_game(opening), moves).board) == moves.len(),
    decreases moves.len(),
{
    lemma_fresh_game_counts_moves(opening, moves);
    if moves.len() > 0 {
        let earlier = moves.drop_last();
        let last = moves.last();
        assert(legal_run(opening, earlier)) by {
            assert forall|k: int| 0 <= k < earlier.len() implies outcome_of(
                after_moves(fresh_game(opening), #[trigger] earlier.take(k)).board,
            ) == Outcome::InProgress by {
                assert(earlier.take(k) == moves.take(k));
            }
            assert forall|j: int, k: int| 0 <= j < k < earlier.len() implies #[trigger] earlier[j]
                != #[trigger] earlier[k] by {
                assert(earlier[j] == moves[j] && earlier[k] == moves[k]);
            }
            assert forall|k: int| 0 <= k < earlier.len() implies 0 <= (#[trigger] earlier[k]).0 < 3
                && 0 <= earlier[k].1 < 3 by {
                assert(earlier[k] == moves[k]);
            }
        }
        lemma_legal_run_marks_every_move(opening, earlier);
        let before = after_moves(fresh_game(opening), earlier);
        assert(moves.take(moves.len() - 1) == earlier);
        assert(moves[moves.len() - 1] == last);
        if before.board[last.0][last.1] is Some {
            lemma_marked_cell_was_named(opening, earlier, last.0, last.1);
            let k = choose|k: int| 0 <= k < earlier.len() && #[trigger] earlier[k] == (last.0, last.1);
            assert(moves[k] == moves[moves.len() - 1]);
        }
        assert(move_error(before, last.0, last.1) is None);
    }
}

/// The turn alternates: where two moves in a row are both accepted, the
/// mark that the second writes differs from the mark that the first wrote.
pub proof fn lemma_turns_alternate(v: GameView, first: (int, int), second: (int, int))
    requires
        well_shaped(v.board),
        move_error(v, first.0, first.1) is None,
        move_error(after_move(v, first.0, first.1), second.0, second.1) is None,
    ensures
        ({
            let mid = after_move(v, first.0, first.1);
            let end = after_move(mid, second.0, second.1);
            &&& mid.board[first.0][first.1] == Some(v.turn.mark)
            &&& end.board[second.0][second.1] == Some(mid.turn.mark)
            &&& mid.turn.mark != v.turn.mark
        }),
{
}

/// A move that is accepted and does not end the game hands the turn to a
/// player with another mark; one that ends the game leaves the turn with the
/// player who made it.
pub proof fn lemma_turn_after_move(v: GameView, row: int, col: int)
    requires
        move_error(v, row, col) is None,
    ensures
        outcome_of(after_move(v, row, col).board) == Outcome::InProgress ==> after_move(
            v,
            row,
            col,
        ).turn.mark != v.turn.mark,
        outcome_of(after_move(v, row, col).board) != Outcome::InProgress ==> after_move(
            v,
            row,
            col,
        ).turn == v.turn,
{
}

/// While a game is in progress, a move to a cell that holds a mark is
/// refused as occupied and changes nothing.
pub proof fn lemma_occupied_cell_refused(v: GameView, row: int, col: int)
    requires
        outcome_of(v.board) == Outcome::InProgress,
        0 <= row < 3,
        0 <= col < 3,
        v.board[row][col] is Some,
    ensures
        move_error(v, row, col) == Some(MoveError::CellOccupied),
        after_move(v, row, col) == v,
{
}

/// Once a game is won or drawn, every move is refused as coming after its end
/// and changes nothing.
pub proof fn lemma_finished_game_refuses(v: GameView, row: int, col: int)
    requires
        outcome_of(v.board) != Outcome::InProgress,
    ensures
        move_error(v, row, col) == Some(MoveError::GameOver),
        after_move(v, row, col) == v,
{
}

/// A move outside the board is refused while a game is in progress, and
/// changes nothing.
pub proof fn lemma_outside_cell_refused(v: GameView, row: int, col: int)
    requires
        outcome_of(v.board) == Outcome::InProgress,
        !(0 <= row < 3 && 0 <= col < 3),
    ensures
        move_error(v, row, col) == Some(MoveError::OutOfBounds),
        after_move(v, row, col) == v,
{
}

/// A game counts as won only where the winning mark fills a line, and as
/// drawn only where the board is full and no mark fills one; where it is in
/// progress a cell is still empty and no line is complete.
pub proof fn lemma_outcome_sound(b: Board)
    ensures
        forall|m: char| outcome_of(b) == Outcome::Won(m) ==> has_line(b, m),
        outcome_of(b) == Outcome::Draw <==> is_full(b) && forall|m: char| !has_line(b, m),
        outcome_of(b) == Outcome::InProgress <==> !is_full(b) && forall|m: char| !has_line(b, m),
{
    lemma_winner_has_line(b);
}

/// A fresh game has an empty board, is in progress, and has the opening
/// player to move.
pub proof fn lemma_fresh_game(opening: PlayerView)
    ensures
        fresh_game(opening).board == empty_board(),
        fresh_game(opening).turn == opening,
        mark_count(fresh_game(opening).board) == 0,
        outcome_of(fresh_game(opening).board) == Outcome::InProgress,
        forall|r: int, c: int| 0 <= r < 3 && 0 <= c < 3 ==> empty_board()[r][c] is None,
{
    crate::game::lemma_empty_board_in_progress();
}

} // verus!
