use vstd::prelude::*;

use crate::board::{in_bounds, is_legal, Board, Cell, Point};

verus! {

/// `(r, c)` comes before `(row, col)` when the grid is read row by row, left
/// to right.
pub open spec fn precedes(r: int, c: int, row: int, col: int) -> bool {
    r < row || (r == row && c < col)
}

/// The bot's move: the first empty cell in reading order. On a full grid,
/// where no move is possible, it answers `(0, 0)`.
pub fn get_next_ia_position(board: &Board) -> (p: Point)
    ensures
        board.has_empty() ==> is_legal(*board, p),
        board.has_empty() ==> forall|r: int, c: int|
            in_bounds(r, c) && precedes(r, c, p.row as int, p.col as int)
                ==> #[trigger] board.cell(r, c) != Cell::Empty,
        !board.has_empty() ==> p == (Point { row: 0, col: 0 }),
{
    let mut r: usize = 0;
    while r < 3
        invariant
            r <= 3,
            forall|i: int, j: int|
                in_bounds(i, j) && i < r ==> #[trigger] board.cell(i, j) != Cell::Empty,
        decreases 3 - r,
    {
        let mut c: usize = 0;
        while c < 3
            invariant
                r < 3,
                c <= 3,
                forall|i: int, j: int|
                    in_bounds(i, j) && precedes(i, j, r as int, c as int)
                        ==> #[trigger] board.cell(i, j) != Cell::Empty,
            decreases 3 - c,
        {
            if board.cells[r][c] == Cell::Empty {
                return Point { row: r, col: c };
            }
            c = c + 1;
        }
        r = r + 1;
    }
    Point { row: 0, col: 0 }
}

} // verus!
