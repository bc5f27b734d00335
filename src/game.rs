use vstd::prelude::*;

use crate::board::{in_bounds, is_legal, mark_of, other_player, Board, Cell, Player, Point};
use crate::evaluate::{get_winner, verdict, Verdict};
use crate::turn::change_player;

verus! {

/// What a move did to the game.
#[derive(Clone, Copy, Debug, PartialEq, Eq, Structural)]
pub enum Turn {
    /// The move was illegal; the same player must offer another.
    Rejected,
    /// The move was made and the named player moves next.
    Next(Player),
    /// The game has ended, with the named winner or none for a tie.
    Over(Option<Player>),
}

/// The winner that a verdict names, if any.
pub open spec fn winner_of(v: Verdict) -> Option<Player> {
    match v {
        Verdict::PlayerAWins => Some(Player::PlayerA),
        Verdict::PlayerBWins => Some(Player::PlayerB),
        _ => None,
    }
}

/// The winner that `v` names: `None` for a tie or a game in progress.
pub fn winner(v: Verdict) -> (w: Option<Player>)
    ensures
        w == winner_of(v),
{
    match v {
        Verdict::PlayerAWins => Some(Player::PlayerA),
        Verdict::PlayerBWins => Some(Player::PlayerB),
        _ => None,
    }
}

/// A game: the grid and the player whose turn it is.
#[derive(Clone, Copy, Debug)]
pub struct Game {
    pub board: Board,
    pub current: Player,
}

impl Game {
    /// A game on an empty grid, with `first` to move.
    pub fn new(first: Player) -> (g: Game)
        ensures
            g.current == first,
            forall|r: int, c: int| in_bounds(r, c) ==> #[trigger] g.board.cell(r, c) == Cell::Empty,
    {
        Game { board: Board::new(), current: first }
    }

    /// The verdict of the game's grid.
    pub fn verdict(&self) -> (v: Verdict)
        ensures
            v == verdict(self.board),
    {
        get_winner(&self.board)
    }

    /// Offers `pos` as the current player's move. An ended game is left as
    /// it is; an illegal move is rejected without passing the turn; a legal
    /// one is made, and then either the game ends or the turn passes.
    pub fn play(&mut self, pos: Point) -> (t: Turn)
        ensures
            verdict(old(self).board) != Verdict::InProgress ==> t == Turn::Over(
                winner_of(verdict(old(self).board)),
            ) && *final(self) == *old(self),
            verdict(old(self).board) == Verdict::InProgress && !is_legal(old(self).board, pos)
                ==> t == Turn::Rejected && *final(self) == *old(self),
            verdict(old(self).board) == Verdict::InProgress && is_legal(old(self).board, pos)
                ==> {
                &&& final(self).board.is_update_of(
                    old(self).board,
                    pos.row as int,
                    pos.col as int,
                    mark_of(old(self).current),
                )
                &&& final(self).board.empty_count() + 1 == old(self).board.empty_count()
                &&& verdict(final(self).board) == Verdict::InProgress ==> final(self).current
                    == other_player(old(self).current) && t == Turn::Next(final(self).current)
                &&& verdict(final(self).board) != Verdict::InProgress ==> final(self).current
                    == old(self).current && t == Turn::Over(winner_of(verdict(final(self).board)))
            },
    {
        let before = get_winner(&self.board);
        if before != Verdict::InProgress {
            return Turn::Over(winner(before));
        }
        if self.board.apply(&pos, self.current).is_err() {
            return Turn::Rejected;
        }
        let after = get_winner(&self.board);
        if after != Verdict::InProgress {
            return Turn::Over(winner(after));
        }
        change_player(&mut self.current);
        Turn::Next(self.current)
    }
}

} // verus!
