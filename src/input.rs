use vstd::prelude::*;

use crate::board::{GameError, Point};

verus! {

/// The grid coordinate that a one-based digit character names: `'1'..='3'`
/// give `0..3`, any other digit is off the grid, and a non-digit is `None`.
pub open spec fn coordinate_of(c: char) -> Option<Result<usize, GameError>> {
    if '1' <= c <= '3' {
        Some(Ok((c as int - '1' as int) as usize))
    } else if '0' <= c <= '9' {
        Some(Err(GameError::OutOfBounds))
    } else {
        None
    }
}

/// The move that a console line names: its first two characters are the
/// one-based row and column digits. A line that does not start with two
/// digits is `InputParseError`; a digit outside `1..=3` is `OutOfBounds`.
pub open spec fn move_of(s: Seq<char>) -> Result<Point, GameError> {
    if s.len() < 2 {
        Err(GameError::InputParseError)
    } else {
        match (coordinate_of(s[0]), coordinate_of(s[1])) {
            (Some(Ok(row)), Some(Ok(col))) => Ok(Point { row, col }),
            (Some(_), Some(_)) => Err(GameError::OutOfBounds),
            _ => Err(GameError::InputParseError),
        }
    }
}

fn coordinate(c: char) -> (r: Option<Result<usize, GameError>>)
    ensures
        r == coordinate_of(c),
{
    if '1' <= c && c <= '3' {
        Some(Ok((c as u32 - '1' as u32) as usize))
    } else if '0' <= c && c <= '9' {
        Some(Err(GameError::OutOfBounds))
    } else {
        None
    }
}

/// Reads a move from a console line.
pub fn parse_move(line: &str) -> (r: Result<Point, GameError>)
    ensures
        r == move_of(line@),
{
    let mut chars = line.chars();
    proof {
        vstd::string::axiom_spec_iter(line);
    }
    let first = chars.next();
    let second = chars.next();
    match (first, second) {
        (Some(a), Some(b)) => {
            match (coordinate(a), coordinate(b)) {
                (Some(Ok(row)), Some(Ok(col))) => Ok(Point { row, col }),
                (Some(_), Some(_)) => Err(GameError::OutOfBounds),
                _ => Err(GameError::InputParseError),
            }
        },
        _ => Err(GameError::InputParseError),
    }
}

} // verus!
