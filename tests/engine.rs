use tictactoe::board::{is_legal_movement, Board, Cell, GameError, Player, Point};
use tictactoe::bot::get_next_ia_position;
use tictactoe::evaluate::{get_winner, get_winner_by_str, Verdict};
use tictactoe::game::{winner, Game, Turn};
use tictactoe::input::parse_move;
use tictactoe::turn::{change_player, first_player_for, set_first_player};

const E: Cell = Cell::Empty;
const A: Cell = Cell::PlayerA;
const B: Cell = Cell::PlayerB;

fn board(cells: [[Cell; 3]; 3]) -> Board {
    Board { cells }
}

#[test]
fn empty_board_is_in_progress() {
    assert_eq!(get_winner(&Board::new()), Verdict::InProgress);
    assert_eq!(Board::new().count_empty(), 9);
}

#[test]
fn row_of_player_a_wins() {
    let b = board([[E, E, E], [A, A, A], [B, B, E]]);
    assert_eq!(get_winner(&b), Verdict::PlayerAWins);
}

#[test]
fn column_of_player_b_wins() {
    let b = board([[A, E, B], [A, E, B], [E, A, B]]);
    assert_eq!(get_winner(&b), Verdict::PlayerBWins);
}

#[test]
fn main_diagonal_wins() {
    let b = board([[B, A, E], [A, B, E], [E, A, B]]);
    assert_eq!(get_winner(&b), Verdict::PlayerBWins);
}

#[test]
fn anti_diagonal_wins() {
    let b = board([[B, B, A], [E, A, E], [A, E, B]]);
    assert_eq!(get_winner(&b), Verdict::PlayerAWins);
}

#[test]
fn winning_line_on_full_board_beats_tie() {
    let b = board([[A, A, A], [B, B, A], [A, B, B]]);
    assert_eq!(b.count_empty(), 0);
    assert_eq!(get_winner(&b), Verdict::PlayerAWins);
}

#[test]
fn row_scan_decides_between_two_lines() {
    let b = board([[B, E, A], [B, E, A], [B, E, A]]);
    assert_eq!(get_winner(&b), Verdict::PlayerBWins);
    let b = board([[A, A, A], [B, B, B], [E, E, E]]);
    assert_eq!(get_winner(&b), Verdict::PlayerAWins);
}

#[test]
fn full_board_without_line_is_tie() {
    let b = board([[A, B, A], [A, B, B], [B, A, A]]);
    assert_eq!(get_winner(&b), Verdict::Tie);
}

#[test]
fn open_board_without_line_is_in_progress() {
    let b = board([[A, B, A], [A, B, B], [B, A, E]]);
    assert_eq!(b.count_empty(), 1);
    assert_eq!(get_winner(&b), Verdict::InProgress);
}

#[test]
fn single_line_verdicts() {
    assert_eq!(get_winner_by_str([A, A, A]), Verdict::PlayerAWins);
    assert_eq!(get_winner_by_str([B, B, B]), Verdict::PlayerBWins);
    assert_eq!(get_winner_by_str([E, E, E]), Verdict::InProgress);
    assert_eq!(get_winner_by_str([A, A, B]), Verdict::InProgress);
    assert_eq!(get_winner_by_str([A, E, A]), Verdict::InProgress);
}

#[test]
fn legality_of_moves() {
    let b = board([[A, E, E], [E, B, E], [E, E, E]]);
    assert!(is_legal_movement(&b, &Point { row: 0, col: 1 }));
    assert!(is_legal_movement(&b, &Point { row: 2, col: 2 }));
    assert!(!is_legal_movement(&b, &Point { row: 0, col: 0 }));
    assert!(!is_legal_movement(&b, &Point { row: 1, col: 1 }));
    assert!(!is_legal_movement(&b, &Point { row: 3, col: 0 }));
    assert!(!is_legal_movement(&b, &Point { row: 0, col: 3 }));
    assert!(!is_legal_movement(&b, &Point { row: usize::MAX, col: usize::MAX }));
}

#[test]
fn board_get_and_set() {
    let mut b = Board::new();
    assert_eq!(b.get(1, 2), Ok(E));
    assert_eq!(b.get(3, 0), Err(GameError::OutOfBounds));
    assert_eq!(b.get(0, 3), Err(GameError::OutOfBounds));
    assert_eq!(b.set(1, 2, A), Ok(()));
    assert_eq!(b.get(1, 2), Ok(A));
    assert_eq!(b.set(1, 2, B), Err(GameError::OccupiedCell));
    assert_eq!(b.get(1, 2), Ok(A));
    assert_eq!(b.set(5, 0, B), Err(GameError::OutOfBounds));
    assert_eq!(b.count_empty(), 8);
}

#[test]
fn apply_marks_or_rejects() {
    let mut b = Board::new();
    assert_eq!(b.apply(&Point { row: 2, col: 0 }, Player::PlayerB), Ok(()));
    assert_eq!(b.get(2, 0), Ok(B));
    assert_eq!(b.apply(&Point { row: 2, col: 0 }, Player::PlayerA), Err(GameError::IllegalMove));
    assert_eq!(b.apply(&Point { row: 0, col: 7 }, Player::PlayerA), Err(GameError::IllegalMove));
    assert_eq!(b.get(2, 0), Ok(B));
    assert_eq!(b.count_empty(), 8);
}

#[test]
fn change_player_toggles() {
    let mut p = Player::PlayerA;
    change_player(&mut p);
    assert_eq!(p, Player::PlayerB);
    change_player(&mut p);
    assert_eq!(p, Player::PlayerA);
    let mut q = Player::PlayerB;
    change_player(&mut q);
    change_player(&mut q);
    assert_eq!(q, Player::PlayerB);
}

#[test]
fn first_player_from_coin() {
    assert_eq!(first_player_for(0), Player::PlayerA);
    assert_eq!(first_player_for(1), Player::PlayerB);
}

#[test]
fn first_player_from_rng_is_one_of_both() {
    let mut rng = rand::thread_rng();
    let mut seen_a = false;
    let mut seen_b = false;
    for _ in 0..200 {
        match set_first_player(&mut rng) {
            Player::PlayerA => seen_a = true,
            Player::PlayerB => seen_b = true,
        }
    }
    assert!(seen_a && seen_b);
}

#[test]
fn bot_takes_first_empty_cell() {
    let b = board([[A, B, E], [E, E, E], [E, E, E]]);
    assert_eq!(get_next_ia_position(&b), Point { row: 0, col: 2 });
    let b = board([[A, B, A], [B, A, E], [E, E, E]]);
    assert_eq!(get_next_ia_position(&b), Point { row: 1, col: 2 });
    assert_eq!(get_next_ia_position(&Board::new()), Point { row: 0, col: 0 });
}

#[test]
fn bot_on_full_board_answers_origin() {
    let b = board([[A, B, A], [A, B, B], [B, A, A]]);
    assert_eq!(get_next_ia_position(&b), Point { row: 0, col: 0 });
}

#[test]
fn game_player_a_wins_top_row() {
    let mut g = Game::new(Player::PlayerA);
    assert_eq!(g.play(Point { row: 0, col: 0 }), Turn::Next(Player::PlayerB));
    assert_eq!(g.play(Point { row: 1, col: 0 }), Turn::Next(Player::PlayerA));
    assert_eq!(g.play(Point { row: 0, col: 1 }), Turn::Next(Player::PlayerB));
    assert_eq!(g.play(Point { row: 1, col: 1 }), Turn::Next(Player::PlayerA));
    assert_eq!(g.play(Point { row: 0, col: 2 }), Turn::Over(Some(Player::PlayerA)));
    assert_eq!(g.verdict(), Verdict::PlayerAWins);
    assert_eq!(winner(g.verdict()), Some(Player::PlayerA));
    assert_eq!(g.play(Point { row: 2, col: 2 }), Turn::Over(Some(Player::PlayerA)));
    assert_eq!(g.board.get(2, 2), Ok(E));
}

#[test]
fn game_draw_has_no_winner() {
    let mut g = Game::new(Player::PlayerA);
    let moves = [(0, 0), (0, 1), (0, 2), (1, 1), (1, 0), (1, 2), (2, 1), (2, 0)];
    for (row, col) in moves {
        assert!(matches!(g.play(Point { row, col }), Turn::Next(_)));
    }
    assert_eq!(g.play(Point { row: 2, col: 2 }), Turn::Over(None));
    assert_eq!(g.verdict(), Verdict::Tie);
    assert_eq!(winner(g.verdict()), None);
}

#[test]
fn game_rejects_illegal_move_without_passing_turn() {
    let mut g = Game::new(Player::PlayerB);
    assert_eq!(g.play(Point { row: 1, col: 1 }), Turn::Next(Player::PlayerA));
    assert_eq!(g.play(Point { row: 1, col: 1 }), Turn::Rejected);
    assert_eq!(g.play(Point { row: 3, col: 1 }), Turn::Rejected);
    assert_eq!(g.current, Player::PlayerA);
    assert_eq!(g.board.count_empty(), 8);
    assert_eq!(g.play(Point { row: 0, col: 0 }), Turn::Next(Player::PlayerB));
    assert_eq!(g.board.get(0, 0), Ok(A));
}

#[test]
fn bot_against_bot_from_player_a() {
    let mut g = Game::new(Player::PlayerA);
    let mut turns = 0;
    let result = loop {
        let pos = get_next_ia_position(&g.board);
        assert!(is_legal_movement(&g.board, &pos));
        turns += 1;
        match g.play(pos) {
            Turn::Next(_) => {}
            Turn::Over(w) => break w,
            Turn::Rejected => panic!("bot move rejected"),
        }
    };
    assert_eq!(turns, 7);
    assert_eq!(result, Some(Player::PlayerA));
}

#[test]
fn parse_console_lines() {
    assert_eq!(parse_move("21\n"), Ok(Point { row: 1, col: 0 }));
    assert_eq!(parse_move("33"), Ok(Point { row: 2, col: 2 }));
    assert_eq!(parse_move("11 extra"), Ok(Point { row: 0, col: 0 }));
    assert_eq!(parse_move("41"), Err(GameError::OutOfBounds));
    assert_eq!(parse_move("10"), Err(GameError::OutOfBounds));
    assert_eq!(parse_move("a1"), Err(GameError::InputParseError));
    assert_eq!(parse_move("1"), Err(GameError::InputParseError));
    assert_eq!(parse_move(""), Err(GameError::InputParseError));
    assert_eq!(parse_move("\n"), Err(GameError::InputParseError));
    assert_eq!(parse_move("é1"), Err(GameError::InputParseError));
    assert_eq!(parse_move("1 2"), Err(GameError::InputParseError));
}
