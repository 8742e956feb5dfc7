pub mod vector;

use crate::matrix::vector::{written, Vector};
use vstd::prelude::*;
use vstd::string::StringExecFns;

verus! {

/// The character that renders a cell: "X", "O", or a blank for empty.
pub open spec fn mark_char(cell: Option<bool>) -> char {
    match cell {
        Some(true) => 'X',
        Some(false) => 'O',
        None => ' ',
    }
}

/// One rendered row: the three cell marks separated by "|", then a newline.
pub open spec fn row_text(row: Vector) -> Seq<char> {
    seq![
        mark_char(row.vector@[0]),
        '|',
        mark_char(row.vector@[1]),
        '|',
        mark_char(row.vector@[2]),
        '\n',
    ]
}

/// The dashed divider printed between rendered rows.
pub open spec fn divider_text() -> Seq<char> {
    seq!['-', '-', '-', '|', '-', '-', '-', '|', '-', '-', '-', '\n']
}

/// The full rendered board: three rows with a divider between them.
pub open spec fn board_text(m: Matrix) -> Seq<char> {
    row_text(m.vector@[0]) + divider_text() + row_text(m.vector@[1]) + divider_text() + row_text(
        m.vector@[2],
    )
}

/// The one-character string that renders a cell.
fn mark_str(cell: Option<bool>) -> (r: &'static str)
    ensures
        r@ == seq![mark_char(cell)],
{
    proof {
        reveal_strlit("X");
        reveal_strlit("O");
        reveal_strlit(" ");
    }
    match cell {
        Some(true) => "X",
        Some(false) => "O",
        None => " ",
    }
}

/// Renders one row as text.
fn row_string(row: &Vector) -> (s: String)
    ensures
        s@ == row_text(*row),
{
    let mut s = String::new();
    s.append(mark_str(*row.get(0)));
    s.append("|");
    s.append(mark_str(*row.get(1)));
    s.append("|");
    s.append(mark_str(*row.get(2)));
    s.append("\n");
    proof {
        reveal_strlit("|");
        reveal_strlit("\n");
        assert(s@ =~= row_text(*row));
    }
    s
}

/// The 3x3 board: three rows of three cells, row-major.
#[derive(Clone, Copy)]
pub struct Matrix {
    pub vector: [Vector; 3],
}

/// A line is won by `value` when all three of its cells hold that mark; a
/// line with any empty or opposing cell does not count.
pub open spec fn line_won(a: Option<bool>, b: Option<bool>, c: Option<bool>, value: bool) -> bool {
    a == Some(value) && b == Some(value) && c == Some(value)
}

/// Whether `cell` holds the mark of player `val`.
fn holds_mark(cell: Option<bool>, val: bool) -> (r: bool)
    ensures
        r == (cell == Some(val)),
{
    match cell {
        Some(v) => v == val,
        None => false,
    }
}

/// Whether the three cells of `arr` are all held by player `val`.
pub fn general_win_checker(arr: [Option<bool>; 3], val: bool) -> (r: bool)
    ensures
        r == line_won(arr@[0], arr@[1], arr@[2], val),
{
    holds_mark(arr[0], val) && holds_mark(arr[1], val) && holds_mark(arr[2], val)
}

impl Matrix {
    /// The cell in row `row`, column `col`.
    pub open spec fn cell(self, row: int, col: int) -> Option<bool> {
        self.vector@[row].vector@[col]
    }

    /// All three cells of row `row` hold `value`.
    pub open spec fn row_won(self, row: int, value: bool) -> bool {
        line_won(self.cell(row, 0), self.cell(row, 1), self.cell(row, 2), value)
    }

    /// All three cells of column `col` hold `value`.
    pub open spec fn col_won(self, col: int, value: bool) -> bool {
        line_won(self.cell(0, col), self.cell(1, col), self.cell(2, col), value)
    }

    /// All three cells of the main diagonal hold `value`.
    pub open spec fn main_diag_won(self, value: bool) -> bool {
        line_won(self.cell(0, 0), self.cell(1, 1), self.cell(2, 2), value)
    }

    /// All three cells of the anti-diagonal hold `value`.
    pub open spec fn anti_diag_won(self, value: bool) -> bool {
        line_won(self.cell(0, 2), self.cell(1, 1), self.cell(2, 0), value)
    }

    /// A move at (`row`, `col`) by `value` wins when a line through that
    /// cell — its row, its column, the main diagonal when `row == col`, or
    /// the anti-diagonal when `row + col == 2` — is held entirely by `value`.
    pub open spec fn wins_at(self, row: int, col: int, value: bool) -> bool {
        ||| self.row_won(row, value)
        ||| self.col_won(col, value)
        ||| (row == col && self.main_diag_won(value))
        ||| (row + col == 2 && self.anti_diag_won(value))
    }

    pub fn get(&self, row: usize, col: usize) -> (r: &Option<bool>)
        requires
            row < 3,
            col < 3,
        ensures
            *r == self.cell(row as int, col as int),
    {
        self.vector[row].get(col)
    }

    pub fn get_row(&self, row: usize) -> (r: &Vector)
        requires
            row < 3,
        ensures
            *r == self.vector@[row as int],
    {
        &self.vector[row]
    }

    /// Places `value` in the cell at (`row`, `col`) if it is empty; a write
    /// to an occupied cell is ignored, so no mark is ever overwritten.
    pub fn set(&mut self, row: usize, col: usize, value: bool)
        requires
            row < 3,
            col < 3,
        ensures
            final(self).cell(row as int, col as int) == written(
                old(self).cell(row as int, col as int),
                value,
            ),
            forall|i: int, j: int|
                0 <= i < 3 && 0 <= j < 3 && !(i == row && j == col) ==> final(self).cell(i, j)
                    == old(self).cell(i, j),
    {
        self.vector[row].set(col, value);
    }

    /// Returns true iff the move just played at (`row`, `col`) by `value`
    /// completes a line through that cell: the full row, the full column,
    /// the main diagonal (only when `row == col`), or the anti-diagonal
    /// (only when `row + col == 2`).
    pub fn check_win(&self, row: usize, col: usize, value: bool) -> (r: bool)
        requires
            row < 3,
            col < 3,
        ensures
            r == self.wins_at(row as int, col as int, value),
    {
        let check_row = general_win_checker(
            [*self.get(row, 0), *self.get(row, 1), *self.get(row, 2)],
            value,
        );
        let check_col = general_win_checker(
            [*self.get(0, col), *self.get(1, col), *self.get(2, col)],
            value,
        );
        let check_dia_pos = row == col && general_win_checker(
            [*self.get(0, 0), *self.get(1, 1), *self.get(2, 2)],
            value,
        );
        let check_dia_neg = row + col == 2 && general_win_checker(
            [*self.get(0, 2), *self.get(1, 1), *self.get(2, 0)],
            value,
        );
        check_row || check_col || check_dia_neg || check_dia_pos
    }

    /// Renders the board as a 3-row grid: "X"/"O"/" " marks separated by
    /// "|", with a dashed divider line between rows.
    pub fn render(&self) -> (r: String)
        ensures
            r@ == board_text(*self),
    {
        let mut s = row_string(self.get_row(0));
        s.append("---|---|---\n");
        let middle = row_string(self.get_row(1));
        s.append(middle.as_str());
        s.append("---|---|---\n");
        let bottom = row_string(self.get_row(2));
        s.append(bottom.as_str());
        proof {
            reveal_strlit("---|---|---\n");
            assert(s@ =~= board_text(*self));
        }
        s
    }
}

impl Default for Matrix {
    /// A fresh board has every cell empty.
    fn default() -> (r: Self)
        ensures
            forall|i: int, j: int| 0 <= i < 3 && 0 <= j < 3 ==> r.cell(i, j) is None,
    {
        Matrix { vector: [Vector::default(), Vector::default(), Vector::default()] }
    }
}

} // verus!
