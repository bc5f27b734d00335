use vstd::prelude::*;

use crate::board::{lemma_empty_count_zero, mark_of, other_player, Board, Cell, Player};

verus! {

/// The outcome of a grid.
#[derive(Clone, Copy, Debug, PartialEq, Eq, Structural)]
pub enum Verdict {
    PlayerAWins,
    PlayerBWins,
    Tie,
    InProgress,
}

/// The verdict that names `p` as the winner.
pub open spec fn win_for(p: Player) -> Verdict {
    match p {
        Player::PlayerA => Verdict::PlayerAWins,
        Player::PlayerB => Verdict::PlayerBWins,
    }
}

/// A win for the owner of three equal non-empty cells, else `InProgress`.
pub open spec fn line_verdict(line: [Cell; 3]) -> Verdict {
    if line[0] == line[1] && line[1] == line[2] {
        match line[0] {
            Cell::PlayerA => Verdict::PlayerAWins,
            Cell::PlayerB => Verdict::PlayerBWins,
            Cell::Empty => Verdict::InProgress,
        }
    } else {
        Verdict::InProgress
    }
}

/// Line `k` of the grid, in the order in which lines are checked: the rows
/// top to bottom (`0..3`), the columns left to right (`3..6`), the main
/// diagonal (6) and the anti-diagonal (7).
pub open spec fn line_of(b: Board, k: int) -> [Cell; 3] {
    if k < 3 {
        b.cells[k]
    } else if k < 6 {
        [b.cell(0, k - 3), b.cell(1, k - 3), b.cell(2, k - 3)]
    } else if k == 6 {
        [b.cell(0, 0), b.cell(1, 1), b.cell(2, 2)]
    } else {
        [b.cell(0, 2), b.cell(1, 1), b.cell(2, 0)]
    }
}

/// Line `k` holds three marks of `p`.
pub open spec fn line_owned_by(b: Board, k: int, p: Player) -> bool {
    let l = line_of(b, k);
    l[0] == mark_of(p) && l[1] == mark_of(p) && l[2] == mark_of(p)
}

/// Line `k` holds three equal marks.
pub open spec fn line_complete(b: Board, k: int) -> bool {
    line_verdict(line_of(b, k)) != Verdict::InProgress
}

/// No line of the grid is complete.
pub open spec fn no_complete_line(b: Board) -> bool {
    forall|k: int| 0 <= k < 8 ==> !#[trigger] line_complete(b, k)
}

/// The verdict from the lines `k..8` on: the first complete line decides,
/// and with none, a full grid is a tie.
pub open spec fn verdict_from(b: Board, k: int) -> Verdict
    decreases 8 - k,
{
    if k >= 8 {
        if b.empty_count() == 0 {
            Verdict::Tie
        } else {
            Verdict::InProgress
        }
    } else if line_complete(b, k) {
        line_verdict(line_of(b, k))
    } else {
        verdict_from(b, k + 1)
    }
}

/// The verdict of a grid.
pub open spec fn verdict(b: Board) -> Verdict {
    verdict_from(b, 0)
}

/// The verdict of one line of three cells.
pub fn get_winner_by_str(line: [Cell; 3]) -> (v: Verdict)
    ensures
        v == line_verdict(line),
{
    if line[0] == line[1] && line[1] == line[2] {
        match line[0] {
            Cell::PlayerA => Verdict::PlayerAWins,
            Cell::PlayerB => Verdict::PlayerBWins,
            Cell::Empty => Verdict::InProgress,
        }
    } else {
        Verdict::InProgress
    }
}

/// The verdict of `board`: rows, then columns, then the two diagonals are
/// searched for a complete line; without one the grid is a tie when full
/// and still in progress otherwise.
pub fn get_winner(board: &Board) -> (v: Verdict)
    ensures
        v == verdict(*board),
{
    let mut row: usize = 0;
    while row < 3
        invariant
            row <= 3,
            verdict(*board) == verdict_from(*board, row as int),
        decreases 3 - row,
    {
        let winner = get_winner_by_str(board.cells[row]);
        if winner != Verdict::InProgress {
            return winner;
        }
        row = row + 1;
    }
    let mut col: usize = 0;
    while col < 3
        invariant
            col <= 3,
            verdict(*board) == verdict_from(*board, 3 + col),
        decreases 3 - col,
    {
        let line = [board.cells[0][col], board.cells[1][col], board.cells[2][col]];
        assert(line_of(*board, 3 + col) =~= line);
        let winner = get_winner_by_str(line);
        if winner != Verdict::InProgress {
            return winner;
        }
        col = col + 1;
    }
    let left = [board.cells[0][0], board.cells[1][1], board.cells[2][2]];
    assert(line_of(*board, 6) =~= left);
    let winner = get_winner_by_str(left);
    if winner != Verdict::InProgress {
        return winner;
    }
    assert(verdict(*board) == verdict_from(*board, 7));
    let right = [board.cells[0][2], board.cells[1][1], board.cells[2][0]];
    assert(line_of(*board, 7) =~= right);
    let winner = get_winner_by_str(right);
    if winner != Verdict::InProgress {
        return winner;
    }
    assert(verdict(*board) == verdict_from(*board, 8));
    if board.count_empty() == 0 {
        Verdict::Tie
    } else {
        Verdict::InProgress
    }
}

/// Past a run of incomplete lines, the verdict is what the remaining lines give.
proof fn lemma_skip_incomplete(b: Board, m: int)
    requires
        0 <= m <= 8,
        no_complete_line(b),
    ensures
        verdict_from(b, m) == verdict_from(b, 8),
    decreases 8 - m,
{
    if m < 8 {
        assert(!line_complete(b, m));
        lemma_skip_incomplete(b, m + 1);
    }
}

proof fn lemma_first_owned_line(b: Board, m: int, k: int, p: Player)
    requires
        0 <= m <= k < 8,
        line_owned_by(b, k, p),
        forall|j: int| 0 <= j < k ==> !#[trigger] line_owned_by(b, j, other_player(p)),
    ensures
        verdict_from(b, m) == win_for(p),
    decreases k - m,
{
    if m < k {
        if line_complete(b, m) {
            assert(!line_owned_by(b, m, other_player(p)));
        } else {
            lemma_first_owned_line(b, m + 1, k, p);
        }
    }
}

/// Three marks of `p` in a line make `p` the winner, provided no line of the
/// other player's marks comes before it in the order rows, columns, main
/// diagonal, anti-diagonal (the earlier line would decide).
pub proof fn lemma_completed_line_wins(b: Board, k: int, p: Player)
    requires
        0 <= k < 8,
        line_owned_by(b, k, p),
        forall|j: int| 0 <= j < k ==> !#[trigger] line_owned_by(b, j, other_player(p)),
    ensures
        verdict(b) == win_for(p),
{
    lemma_first_owned_line(b, 0, k, p);
}

/// A grid with no empty cell and no complete line is a tie.
pub proof fn lemma_full_without_line_is_tie(b: Board)
    requires
        !b.has_empty(),
        no_complete_line(b),
    ensures
        verdict(b) == Verdict::Tie,
{
    lemma_skip_incomplete(b, 0);
    lemma_empty_count_zero(b);
}

/// A grid with an empty cell and no complete line is still in progress.
pub proof fn lemma_open_without_line_in_progress(b: Board)
    requires
        b.has_empty(),
        no_complete_line(b),
    ensures
        verdict(b) == Verdict::InProgress,
{
    lemma_skip_incomplete(b, 0);
    lemma_empty_count_zero(b);
}

proof fn lemma_in_progress_from(b: Board, m: int)
    requires
        0 <= m <= 8,
        verdict_from(b, m) == Verdict::InProgress,
    ensures
        b.empty_count() > 0,
    decreases 8 - m,
{
    if m < 8 {
        lemma_in_progress_from(b, m + 1);
    }
}

/// A grid whose game is still in progress has an empty cell, so a move that
/// takes the first empty cell is always legal there.
pub proof fn lemma_in_progress_has_empty(b: Board)
    requires
        verdict(b) == Verdict::InProgress,
    ensures
        b.has_empty(),
{
    lemma_in_progress_from(b, 0);
    lemma_empty_count_zero(b);
}

} // verus!
