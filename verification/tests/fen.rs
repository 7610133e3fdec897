use std::str::FromStr;

use chess::{Board, Square, ALL_SQUARES};
use royal_chess::game::GameController;
use royal_chess::bot::{choose_bot_move, evaluate_board, BotRolls};
use royal_chess::engine::{board_fen, in_check, legal_moves, piece_at, side_to_move};
use royal_chess::fen::fen_has_king_to_move;
use royal_chess::types::{Difficulty, PlayerColor};

const NO_KINGS: &str = "8/8/8/8/8/8/8/8 w - - 0 1";

#[test]
fn king_of_the_side_to_move_is_found() {
    assert!(fen_has_king_to_move("rnbqkbnr/pppppppp/8/8/8/8/PPPPPPPP/RNBQKBNR w KQkq - 0 1"));
    assert!(fen_has_king_to_move("k7/8/8/8/8/8/8/8 b - - 0 1"));
    assert!(!fen_has_king_to_move("k7/8/8/8/8/8/8/8 w - - 0 1"));
    assert!(!fen_has_king_to_move(NO_KINGS));
}

#[test]
fn reader_wraps_files_and_ranks() {
    assert!(fen_has_king_to_move("8K/8/8/8/8/8/8/7k w - - 0 1"));
    assert!(!fen_has_king_to_move("K7/8/8/8/8/8/8/8/p7 w - - 0 1"));
}

#[test]
fn texts_the_reader_refuses_early_are_sound() {
    assert!(fen_has_king_to_move("8/8/8/8/8/8/8/8 w"));
    assert!(fen_has_king_to_move("8/8/8/8/8/8/8/8 x - - 0 1"));
    assert!(fen_has_king_to_move("8/8/8/8/8/8/8/9 w - - 0 1"));
    assert!(fen_has_king_to_move(""));
}

#[test]
fn a_position_without_a_king_to_move_is_refused() {
    assert_eq!(board_fen(NO_KINGS), None);
    assert!(legal_moves(NO_KINGS).is_empty());
    assert!(!in_check(NO_KINGS));
    assert_eq!(side_to_move(NO_KINGS), PlayerColor::White);
    assert_eq!(piece_at("k7/8/8/8/8/8/8/8 w - - 0 1", 56), None);
    assert_eq!(evaluate_board(NO_KINGS), 0);
    let rolls = BotRolls { first: 0, second: 0, third: 0 };
    assert_eq!(choose_bot_move(NO_KINGS, Difficulty::Hard, rolls), None);
}

#[test]
fn shown_pieces_are_the_boards_pieces() {
    let mut game = GameController::default();
    for (f, t) in [("e2", "e4"), ("d7", "d5"), ("e4", "d5"), ("d8", "d5"), ("b1", "c3")] {
        assert!(game.make_move(f, t, None));
    }
    let board = Board::from_str(&game.fen).unwrap();
    let pieces = game.pieces();
    let occupied = ALL_SQUARES.iter().filter(|sq| board.piece_on(**sq).is_some()).count();
    assert_eq!(pieces.len(), occupied);
    for p in &pieces {
        let sq = Square::from_str(&p.square).unwrap();
        let piece = board.piece_on(sq).unwrap();
        assert_eq!(piece.to_index(), p.kind as usize);
        assert_eq!(board.color_on(sq).unwrap().to_index(), p.color as usize);
    }
}
