use std::str::FromStr;

use chess::{Board, MoveGen};
use royal_chess::bot::{choose_bot_move, evaluate_board, random_index, BotRolls, BotStyle, EASY_CAPTURE_ABOVE};
use royal_chess::engine::BoardMove;
use royal_chess::game::START_FEN;
use royal_chess::types::Difficulty;

/// A draw in [0, 1) as its numerator over 2^64.
fn draw(u: f64) -> u64 {
    (u * 18446744073709551616.0) as u64
}

fn is_legal(fen: &str, mv: BoardMove) -> bool {
    let board = Board::from_str(fen).unwrap();
    MoveGen::new_legal(&board).any(|legal| {
        legal.get_source().to_index() == mv.from as usize
            && legal.get_dest().to_index() == mv.to as usize
            && legal.get_promotion().map(|p| p.to_index()) == mv.promotion.map(|k| k as usize)
    })
}

#[test]
fn bot_returns_a_legal_move() {
    let rolls = BotRolls { first: draw(0.37), second: draw(0.37), third: draw(0.37) };
    let mv = choose_bot_move(START_FEN, Difficulty::Medium, rolls).unwrap();
    assert!(is_legal(START_FEN, mv));
}

#[test]
fn bot_plays_legal_moves_at_every_level() {
    let fen = "r1bqkb1r/pppp1ppp/2n2n2/4p2Q/2B1P3/8/PPPP1PPP/RNB1K1NR w KQkq - 4 4";
    for difficulty in [Difficulty::Easy, Difficulty::Medium, Difficulty::Hard] {
        for roll in [0.0, 0.12, 0.37, 0.6, 0.9999] {
            let rolls = BotRolls { first: draw(roll), second: draw(0.9999 - roll), third: draw(roll) };
            let mv = choose_bot_move(fen, difficulty, rolls).unwrap();
            assert!(is_legal(fen, mv));
        }
    }
}

#[test]
fn hard_bot_finds_mate_in_one() {
    let fen = "r1bqkb1r/pppp1ppp/2n2n2/4p2Q/2B1P3/8/PPPP1PPP/RNB1K1NR w KQkq - 4 4";
    let rolls = BotRolls { first: draw(0.9999), second: 0, third: 0 };
    let mv = choose_bot_move(fen, Difficulty::Hard, rolls).unwrap();
    assert_eq!((mv.from, mv.to), (39, 53));
}

#[test]
fn bot_has_no_move_when_mated() {
    let fen = "rnb1kbnr/pppp1ppp/8/4p3/6Pq/5P2/PPPPP2P/RNBQKBNR w KQkq - 1 3";
    let rolls = BotRolls { first: 0, second: 0, third: 0 };
    assert!(choose_bot_move(fen, Difficulty::Easy, rolls).is_none());
}

#[test]
fn evaluation_of_start_is_white_mobility() {
    assert_eq!(evaluate_board(START_FEN), 20);
}

#[test]
fn evaluation_scores_mate() {
    let fen = "rnb1kbnr/pppp1ppp/8/4p3/6Pq/5P2/PPPPP2P/RNBQKBNR w KQkq - 1 3";
    assert_eq!(evaluate_board(fen), -100_000);
}

#[test]
fn evaluation_counts_material() {
    let fen = "4k3/8/8/8/8/8/8/Q3K3 w - - 0 1";
    let mobility = MoveGen::new_legal(&Board::from_str(fen).unwrap()).len() as i32;
    assert_eq!(mobility, 22);
    assert_eq!(evaluate_board(fen), 900 + mobility);
}

#[test]
fn random_index_scales_the_draw() {
    assert_eq!(random_index(0, draw(0.5)), 0);
    assert_eq!(random_index(1, draw(0.9999)), 0);
    assert_eq!(random_index(10, draw(0.37)), 3);
    assert_eq!(random_index(4, draw(0.9999)), 3);
    assert_eq!(random_index(4, u64::MAX), 3);
    for (u, len) in [(0.37f64, 7usize), (0.5, 3), (0.999, 20), (0.1, 4608), (0.0, 5)] {
        let expected = ((u * len as f64).floor() as usize).min(len - 1);
        assert_eq!(random_index(len, draw(u)), expected);
    }
}

#[test]
fn random_index_takes_any_length() {
    assert_eq!(random_index(2_000_000, 1 << 63), 1_000_000);
    assert_eq!(random_index(usize::MAX, 1 << 63), usize::MAX / 2);
    assert_eq!(random_index(usize::MAX, u64::MAX), usize::MAX - 1);
}

#[test]
fn thresholds_are_the_floats_exactly() {
    assert_eq!(EASY_CAPTURE_ABOVE, draw(0.55));
    let m = BotStyle::medium();
    assert_eq!(m.best_below, draw(0.34));
    assert_eq!(m.second_below, draw(0.34 + 0.28));
    assert_eq!(m.third_below, draw(0.34 + 0.28 + 0.18));
    assert_eq!(m.mistake_below, draw(0.24));
    let h = BotStyle::hard();
    assert_eq!(h.best_below, draw(0.48));
    assert_eq!(h.second_below, draw(0.48 + 0.25));
    assert_eq!(h.third_below, draw(0.48 + 0.25 + 0.13));
    assert_eq!(h.mistake_below, draw(0.12));
}
