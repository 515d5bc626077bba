//! The board: three rows of three cells, each empty or holding a mark, and
//! the mathematical model that the rules of the game are stated over.

use vstd::prelude::*;

verus! {

/// Number of rows, and of columns, of the board.
pub const GRID_SIZE: usize = 3;

/// The board as the contracts see it: rows of cells, `None` for an empty cell.
pub type Board = Seq<Seq<Option<char>>>;

/// A board has three rows of three cells.
pub open spec fn well_shaped(b: Board) -> bool {
    &&& b.len() == 3
    &&& forall|r: int| 0 <= r < 3 ==> (#[trigger] b[r]).len() == 3
}

/// The board on which no cell is marked.
pub open spec fn empty_board() -> Board {
    Seq::new(3, |r: int| Seq::new(3, |c: int| None::<char>))
}

/// The board `b` with `mark` written into cell (`row`, `col`).
pub open spec fn with_mark(b: Board, row: int, col: int, mark: char) -> Board {
    b.update(row, b[row].update(col, Some(mark)))
}

/// One for a marked cell, zero for an empty one.
pub open spec fn filled(b: Board, row: int, col: int) -> nat {
    if b[row][col] is Some {
        1
    } else {
        0
    }
}

/// How many cells of row `row` are marked.
pub open spec fn row_marks(b: Board, row: int) -> nat {
    filled(b, row, 0) + filled(b, row, 1) + filled(b, row, 2)
}

/// How many cells of the board are marked.
pub open spec fn mark_count(b: Board) -> nat {
    row_marks(b, 0) + row_marks(b, 1) + row_marks(b, 2)
}

/// Every cell of the board is marked.
pub open spec fn is_full(b: Board) -> bool {
    forall|r: int, c: int| 0 <= r < 3 && 0 <= c < 3 ==> (#[trigger] b[r][c]) is Some
}

/// The mark that fills the three cells `p`, `q` and `s`, if one mark fills
/// them all.
pub open spec fn line_mark(b: Board, p: (int, int), q: (int, int), s: (int, int)) -> Option<char> {
    if b[p.0][p.1] is Some && b[p.0][p.1] == b[q.0][q.1] && b[q.0][q.1] == b[s.0][s.1] {
        b[p.0][p.1]
    } else {
        None
    }
}

/// The mark that fills row `i`, if any.
pub open spec fn row_mark(b: Board, i: int) -> Option<char> {
    line_mark(b, (i, 0), (i, 1), (i, 2))
}

/// The mark that fills column `i`, if any.
pub open spec fn col_mark(b: Board, i: int) -> Option<char> {
    line_mark(b, (0, i), (1, i), (2, i))
}

/// The mark that fills the diagonal from the top left, if any.
pub open spec fn diag_mark(b: Board) -> Option<char> {
    line_mark(b, (0, 0), (1, 1), (2, 2))
}

/// The mark that fills the diagonal from the top right, if any.
pub open spec fn anti_mark(b: Board) -> Option<char> {
    line_mark(b, (0, 2), (1, 1), (2, 0))
}

/// `first` where it names a mark, `second` otherwise.
pub open spec fn or_else(first: Option<char>, second: Option<char>) -> Option<char> {
    if first is Some {
        first
    } else {
        second
    }
}

/// The mark that fills row `i`, else the one that fills column `i`.
pub open spec fn cross_mark(b: Board, i: int) -> Option<char> {
    or_else(row_mark(b, i), col_mark(b, i))
}

/// The mark of the first complete line of the board. Lines are taken in the
/// order row 0, column 0, row 1, column 1, row 2, column 2, then the two
/// diagonals; `None` where no line is complete.
pub open spec fn winner(b: Board) -> Option<char> {
    or_else(
        cross_mark(b, 0),
        or_else(cross_mark(b, 1), or_else(cross_mark(b, 2), or_else(diag_mark(b), anti_mark(b)))),
    )
}

/// Mark `m` fills a whole row, column or diagonal of the board.
pub open spec fn has_line(b: Board, m: char) -> bool {
    ||| exists|i: int| 0 <= i < 3 && #[trigger] row_mark(b, i) == Some(m)
    ||| exists|i: int| 0 <= i < 3 && #[trigger] col_mark(b, i) == Some(m)
    ||| diag_mark(b) == Some(m)
    ||| anti_mark(b) == Some(m)
}

/// A winner is named exactly when some mark fills a line, and the mark named
/// fills one.
pub proof fn lemma_winner_has_line(b: Board)
    ensures
        winner(b) is Some <==> exists|m: char| has_line(b, m),
        winner(b) is Some ==> has_line(b, winner(b).unwrap()),
{
    if winner(b) is Some {
        let m = winner(b).unwrap();
        if row_mark(b, 0) == Some(m) || row_mark(b, 1) == Some(m) || row_mark(b, 2) == Some(m) {
        } else if col_mark(b, 0) == Some(m) || col_mark(b, 1) == Some(m) || col_mark(b, 2) == Some(m) {
        }
        assert(has_line(b, m));
    }
    if exists|m: char| has_line(b, m) {
        let m = choose|m: char| has_line(b, m);
        assert(winner(b) is Some);
    }
}

/// The position of a cell: its row and its column, both counted from zero.
#[derive(Clone, Copy, Debug, PartialEq, Eq, Structural)]
pub struct Cell {
    pub row: usize,
    pub col: usize,
}

/// The place of a cell when the board is read row by row.
pub open spec fn reading_index(cell: Cell) -> int {
    cell.row * 3 + cell.col
}

/// `cells` lists the empty cells of the board, each once, in reading order.
pub open spec fn lists_empty_cells(b: Board, cells: Seq<Cell>) -> bool {
    &&& forall|k: int|
        0 <= k < cells.len() ==> {
            &&& (#[trigger] cells[k]).row < 3
            &&& cells[k].col < 3
            &&& b[cells[k].row as int][cells[k].col as int] is None
        }
    &&& forall|r: int, c: int|
        0 <= r < 3 && 0 <= c < 3 && (#[trigger] b[r][c]) is None ==> cells.contains(
            Cell { row: r as usize, col: c as usize },
        )
    &&& forall|j: int, k: int|
        0 <= j < k < cells.len() ==> reading_index(#[trigger] cells[j]) < reading_index(
            #[trigger] cells[k],
        )
}

/// What is written for a cell: its mark, or a dot where it is empty.
pub open spec fn glyph(cell: Option<char>) -> char {
    match cell {
        Some(mark) => mark,
        None => '.',
    }
}

/// One row as text: the three cells with a space between them, then a
/// line feed.
pub open spec fn row_text(row: Seq<Option<char>>) -> Seq<char> {
    seq![glyph(row[0]), ' ', glyph(row[1]), ' ', glyph(row[2]), '\n']
}

/// The board as text: its three rows from the top, one line each.
pub open spec fn board_text(b: Board) -> Seq<char> {
    row_text(b[0]) + row_text(b[1]) + row_text(b[2])
}

/// The 3x3 grid of cells.
pub struct Grid {
    pub cells: [[Option<char>; 3]; 3],
}

impl View for Grid {
    type V = Board;

    open spec fn view(&self) -> Board {
        Seq::new(3, |r: int| self.cells[r]@)
    }
}

impl Grid {
    /// Creates a new empty grid.
    pub fn new() -> (g: Self)
        ensures
            g@ == empty_board(),
            mark_count(g@) == 0,
    {
        let g = Grid { cells: [[None; 3]; 3] };
        assert(g@ =~= empty_board()) by {
            assert forall|r: int| 0 <= r < 3 implies g@[r] =~= empty_board()[r] by {}
        }
        g
    }

    /// A grid has three rows of three cells.
    pub proof fn lemma_shape(&self)
        ensures
            well_shaped(self@),
    {
    }

    /// Places a mark in the specified cell, whatever the cell held before.
    pub fn place_mark(&mut self, row: usize, col: usize, mark: char)
        requires
            row < 3,
            col < 3,
        ensures
            final(self)@ == with_mark(old(self)@, row as int, col as int, mark),
    {
        self.cells[row][col] = Some(mark);
        assert(self@ =~= with_mark(old(self)@, row as int, col as int, mark));
    }

    /// Checks if a cell is occupied.
    pub fn is_occupied(&self, row: usize, col: usize) -> (occupied: bool)
        requires
            row < 3,
            col < 3,
        ensures
            occupied == (self@[row as int][col as int] is Some),
    {
        self.cells[row][col].is_some()
    }

    /// The mark of the first complete line, scanning each row and column in
    /// turn and then the two diagonals.
    pub fn winner(&self) -> (w: Option<char>)
        ensures
            w == winner(self@),
    {
        let cells = &self.cells;
        let mut i: usize = 0;
        while i < GRID_SIZE
            invariant
                i <= 3,
                cells == &self.cells,
                forall|j: int| 0 <= j < i ==> cross_mark(self@, j) is None,
            decreases 3 - i,
        {
            if cells[i][0].is_some() && cells[i][0] == cells[i][1] && cells[i][1] == cells[i][2] {
                return cells[i][0];
            }
            if cells[0][i].is_some() && cells[0][i] == cells[1][i] && cells[1][i] == cells[2][i] {
                return cells[0][i];
            }
            i += 1;
        }
        if cells[0][0].is_some() && cells[0][0] == cells[1][1] && cells[1][1] == cells[2][2] {
            return cells[0][0];
        }
        if cells[0][2].is_some() && cells[0][2] == cells[1][1] && cells[1][1] == cells[2][0] {
            return cells[0][2];
        }
        None
    }

    /// Whether every cell holds a mark.
    pub fn is_full(&self) -> (full: bool)
        ensures
            full == is_full(self@),
    {
        let mut row: usize = 0;
        while row < GRID_SIZE
            invariant
                row <= 3,
                forall|r: int, c: int| 0 <= r < row && 0 <= c < 3 ==> (#[trigger] self@[r][c]) is Some,
            decreases 3 - row,
        {
            let mut col: usize = 0;
            while col < GRID_SIZE
                invariant
                    row < 3,
                    col <= 3,
                    forall|r: int, c: int| 0 <= r < row && 0 <= c < 3 ==> (#[trigger] self@[r][c]) is Some,
                    forall|c: int| 0 <= c < col ==> (#[trigger] self@[row as int][c]) is Some,
                decreases 3 - col,
            {
                if self.cells[row][col].is_none() {
                    return false;
                }
                col += 1;
            }
            row += 1;
        }
        true
    }

    /// The empty cells, row by row from the top and left to right in a row.
    pub fn empty_cells(&self) -> (cells: Vec<Cell>)
        ensures
            lists_empty_cells(self@, cells@),
            cells@.len() + mark_count(self@) == 9,
    {
        let mut cells: Vec<Cell> = Vec::new();
        let mut k: usize = 0;
        while k < 9
            invariant
                k <= 9,
                cells@.len() + marks_before(self@, k as int) == k,
                forall|i: int|
                    0 <= i < cells@.len() ==> {
                        &&& (#[trigger] cells@[i]).row < 3
                        &&& cells@[i].col < 3
                        &&& self@[cells@[i].row as int][cells@[i].col as int] is None
                        &&& reading_index(cells@[i]) < k
                    },
                forall|r: int, c: int|
                    0 <= r < 3 && 0 <= c < 3 && r * 3 + c < k && (#[trigger] self@[r][c]) is None
                        ==> cells@.contains(Cell { row: r as usize, col: c as usize }),
                forall|i: int, j: int|
                    0 <= i < j < cells@.len() ==> reading_index(#[trigger] cells@[i])
                        < reading_index(#[trigger] cells@[j]),
            decreases 9 - k,
        {
            let row: usize = k / 3;
            let col: usize = k % 3;
            let ghost before = cells@;
            if self.cells[row][col].is_none() {
                cells.push(Cell { row, col });
            }
            proof {
                assert forall|r: int, c: int|
                    0 <= r < 3 && 0 <= c < 3 && r * 3 + c < k + 1 && (#[trigger] self@[r][c]) is None
                implies cells@.contains(Cell { row: r as usize, col: c as usize }) by {
                    let cell = Cell { row: r as usize, col: c as usize };
                    if r * 3 + c < k {
                        let i = choose|i: int| 0 <= i < before.len() && before[i] == cell;
                        assert(cells@[i] == cell);
                    } else {
                        assert(r == row && c == col);
                        assert(cells@[before.len() as int] == cell);
                    }
                }
            }
            k += 1;
        }
        proof {
            lemma_marks_before_all(self@);
        }
        cells
    }

    /// The grid as text, one line for each row: the marks of the row with a
    /// space between them and a dot for an empty cell.
    pub fn display(&self) -> (text: String)
        ensures
            text@ == board_text(self@),
    {
        let mut text = String::new();
        let mut row: usize = 0;
        while row < GRID_SIZE
            invariant
                row <= 3,
                text@ == text_before(self@, row as int),
            decreases 3 - row,
        {
            push_row(&mut text, &self.cells[row]);
            row += 1;
        }
        proof {
            reveal_with_fuel(text_before, 4);
        }
        text
    }
}

/// How many of the first `k` cells, in reading order, are marked.
pub open spec fn marks_before(b: Board, k: int) -> nat
    decreases k,
{
    if k <= 0 {
        0
    } else {
        marks_before(b, k - 1) + filled(b, (k - 1) / 3, (k - 1) % 3)
    }
}

/// Counting all nine cells in reading order gives the board's mark count.
proof fn lemma_marks_before_all(b: Board)
    ensures
        marks_before(b, 9) == mark_count(b),
{
    reveal_with_fuel(marks_before, 10);
}

/// The text of the first `rows` rows of the board.
pub open spec fn text_before(b: Board, rows: int) -> Seq<char>
    decreases rows,
{
    if rows <= 0 {
        Seq::empty()
    } else {
        text_before(b, rows - 1) + row_text(b[rows - 1])
    }
}

/// The glyph of one cell.
fn glyph_of(cell: Option<char>) -> (g: char)
    ensures
        g == glyph(cell),
{
    match cell {
        Some(mark) => mark,
        None => '.',
    }
}

/// Adds the text of one row to `text`.
fn push_row(text: &mut String, row: &[Option<char>; 3])
    ensures
        final(text)@ == old(text)@ + row_text(row@),
{
    text.push(glyph_of(row[0]));
    text.push(' ');
    text.push(glyph_of(row[1]));
    text.push(' ');
    text.push(glyph_of(row[2]));
    text.push('\n');
    assert(text@ =~= old(text)@ + row_text(row@));
}

} // verus!
