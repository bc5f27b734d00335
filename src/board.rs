use vstd::prelude::*;

verus! {

/// The state of one square of the grid.
#[derive(Clone, Copy, Debug, PartialEq, Eq, Structural)]
pub enum Cell {
    Empty,
    PlayerA,
    PlayerB,
}

/// One of the two sides of a game.
#[derive(Clone, Copy, Debug, PartialEq, Eq, Structural)]
pub enum Player {
    PlayerA,
    PlayerB,
}

/// A coordinate on the grid; valid moves have both parts in `0..3`.
#[derive(Clone, Copy, Debug, PartialEq, Eq, Structural)]
pub struct Point {
    pub row: usize,
    pub col: usize,
}

/// Everything that can go wrong while reading or making a move.
#[derive(Clone, Copy, Debug, PartialEq, Eq, Structural)]
pub enum GameError {
    /// A coordinate outside the grid.
    OutOfBounds,
    /// A write to a cell that already holds a mark.
    OccupiedCell,
    /// A move that `is_legal_movement` rejects.
    IllegalMove,
    /// A console line that does not start with two digits.
    InputParseError,
}

/// The mark that a player leaves on the grid.
pub open spec fn mark_of(p: Player) -> Cell {
    match p {
        Player::PlayerA => Cell::PlayerA,
        Player::PlayerB => Cell::PlayerB,
    }
}

/// The player whose turn follows `p`'s.
pub open spec fn other_player(p: Player) -> Player {
    match p {
        Player::PlayerA => Player::PlayerB,
        Player::PlayerB => Player::PlayerA,
    }
}

/// Executable form of `mark_of`.
pub fn mark(p: Player) -> (c: Cell)
    ensures
        c == mark_of(p),
{
    match p {
        Player::PlayerA => Cell::PlayerA,
        Player::PlayerB => Cell::PlayerB,
    }
}

/// `(row, col)` lies on the grid.
pub open spec fn in_bounds(row: int, col: int) -> bool {
    0 <= row < 3 && 0 <= col < 3
}

/// A 3×3 grid of cells, indexed by `(row, col)`.
#[derive(Clone, Copy, Debug)]
pub struct Board {
    pub cells: [[Cell; 3]; 3],
}

impl Board {
    /// The cell at `(r, c)`.
    pub open spec fn cell(self, r: int, c: int) -> Cell {
        self.cells[r][c]
    }

    /// `self` is `old` with the cell at `(row, col)` replaced by `v`.
    pub open spec fn is_update_of(self, old: Board, row: int, col: int, v: Cell) -> bool {
        forall|r: int, c: int|
            in_bounds(r, c) ==> #[trigger] self.cell(r, c) == (if r == row && c == col {
                v
            } else {
                old.cell(r, c)
            })
    }

    /// 1 when the cell at `(r, c)` is empty, else 0.
    pub open spec fn empty_at(self, r: int, c: int) -> nat {
        if self.cell(r, c) == Cell::Empty {
            1
        } else {
            0
        }
    }

    /// How many cells of row `r` are empty.
    pub open spec fn empty_in_row(self, r: int) -> nat {
        self.empty_at(r, 0) + self.empty_at(r, 1) + self.empty_at(r, 2)
    }

    /// How many cells of the grid are empty.
    pub open spec fn empty_count(self) -> nat {
        self.empty_in_row(0) + self.empty_in_row(1) + self.empty_in_row(2)
    }

    /// Some cell of the grid is empty.
    pub open spec fn has_empty(self) -> bool {
        exists|r: int, c: int| in_bounds(r, c) && #[trigger] self.cell(r, c) == Cell::Empty
    }

    /// A grid with every cell empty.
    pub fn new() -> (b: Board)
        ensures
            forall|r: int, c: int| in_bounds(r, c) ==> #[trigger] b.cell(r, c) == Cell::Empty,
    {
        Board { cells: [[Cell::Empty; 3]; 3] }
    }

    /// The cell at `(row, col)`, or `OutOfBounds` off the grid.
    pub fn get(&self, row: usize, col: usize) -> (r: Result<Cell, GameError>)
        ensures
            in_bounds(row as int, col as int) ==> r == Ok::<Cell, GameError>(
                self.cell(row as int, col as int),
            ),
            !in_bounds(row as int, col as int) ==> r == Err::<Cell, GameError>(
                GameError::OutOfBounds,
            ),
    {
        if row < 3 && col < 3 {
            Ok(self.cells[row][col])
        } else {
            Err(GameError::OutOfBounds)
        }
    }

    /// Writes `cell` at `(row, col)` if that cell is empty; otherwise the
    /// board is left unchanged and the error says why.
    pub fn set(&mut self, row: usize, col: usize, cell: Cell) -> (r: Result<(), GameError>)
        ensures
            !in_bounds(row as int, col as int) ==> r == Err::<(), GameError>(
                GameError::OutOfBounds,
            ),
            in_bounds(row as int, col as int) && old(self).cell(row as int, col as int)
                != Cell::Empty ==> r == Err::<(), GameError>(GameError::OccupiedCell),
            in_bounds(row as int, col as int) && old(self).cell(row as int, col as int)
                == Cell::Empty ==> r == Ok::<(), GameError>(()),
            r is Ok ==> final(self).is_update_of(*old(self), row as int, col as int, cell),
            r is Err ==> *final(self) == *old(self),
    {
        if row >= 3 || col >= 3 {
            return Err(GameError::OutOfBounds);
        }
        if self.cells[row][col] != Cell::Empty {
            return Err(GameError::OccupiedCell);
        }
        self.cells[row][col] = cell;
        Ok(())
    }

    fn count_empty_in_row(&self, row: usize) -> (n: usize)
        requires
            row < 3,
        ensures
            n == self.empty_in_row(row as int),
    {
        let mut n: usize = 0;
        if self.cells[row][0] == Cell::Empty {
            n = n + 1;
        }
        if self.cells[row][1] == Cell::Empty {
            n = n + 1;
        }
        if self.cells[row][2] == Cell::Empty {
            n = n + 1;
        }
        n
    }

    /// How many cells are still empty.
    pub fn count_empty(&self) -> (n: usize)
        ensures
            n == self.empty_count(),
    {
        self.count_empty_in_row(0) + self.count_empty_in_row(1) + self.count_empty_in_row(2)
    }

    /// Puts `player`'s mark at `pos` if the move is legal; otherwise the board
    /// is left unchanged and `IllegalMove` is returned.
    pub fn apply(&mut self, pos: &Point, player: Player) -> (r: Result<(), GameError>)
        ensures
            r is Ok <==> is_legal(*old(self), *pos),
            r is Err ==> r == Err::<(), GameError>(GameError::IllegalMove)
                && *final(self) == *old(self),
            r is Ok ==> final(self).is_update_of(
                *old(self),
                pos.row as int,
                pos.col as int,
                mark_of(player),
            ),
    {
        if !is_legal_movement(self, pos) {
            return Err(GameError::IllegalMove);
        }
        self.cells[pos.row][pos.col] = mark(player);
        Ok(())
    }
}

/// A move is legal when it lies on the grid and its cell is empty.
pub open spec fn is_legal(b: Board, pos: Point) -> bool {
    in_bounds(pos.row as int, pos.col as int) && b.cell(pos.row as int, pos.col as int)
        == Cell::Empty
}

/// Whether `pos` is on the grid and names an empty cell.
pub fn is_legal_movement(board: &Board, pos: &Point) -> (r: bool)
    ensures
        r == is_legal(*board, *pos),
{
    pos.row < 3 && pos.col < 3 && board.cells[pos.row][pos.col] == Cell::Empty
}

/// A full grid has no empty cell, and a grid with an empty cell is not full.
pub proof fn lemma_empty_count_zero(b: Board)
    ensures
        b.empty_count() == 0 <==> !b.has_empty(),
{
    if b.has_empty() {
        let (r, c) = choose|r: int, c: int| in_bounds(r, c) && #[trigger] b.cell(r, c) == Cell::Empty;
        assert(b.empty_at(r, c) == 1);
    } else {
        assert(b.cell(0, 0) != Cell::Empty);
        assert(b.cell(0, 1) != Cell::Empty);
        assert(b.cell(0, 2) != Cell::Empty);
        assert(b.cell(1, 0) != Cell::Empty);
        assert(b.cell(1, 1) != Cell::Empty);
        assert(b.cell(1, 2) != Cell::Empty);
        assert(b.cell(2, 0) != Cell::Empty);
        assert(b.cell(2, 1) != Cell::Empty);
        assert(b.cell(2, 2) != Cell::Empty);
    }
}

} // verus!
