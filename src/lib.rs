//! A verified engine for a turn-based game on a 3×3 grid: the board, the
//! verdict of a grid (win, tie or still in progress), move validation, turn
//! alternation, the step function of a game, the bot's move and the parser
//! for a typed move.

pub mod board;
pub mod bot;
pub mod evaluate;
pub mod game;
pub mod input;
pub mod turn;
