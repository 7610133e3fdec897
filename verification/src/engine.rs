//! The chess rules, as the `chess` crate knows them.
//!
//! A position is carried through the library as the FEN text that the crate
//! writes for it. Each item here parses that text with `Board::from_str` and
//! asks the crate one question about the board; what comes back is a plain
//! value of this library. What the crate answers is named, not restated: the
//! names below stand for the crate's move generator, its move application and
//! its check detection, on the FEN given.
//!
//! `Board::from_str` computes pins from the king square of the side to move
//! before it checks the board, and with no such king it reads its attack
//! tables past their end. So every item here is handed only text for which
//! `spec_king_to_move` holds; the public functions test that first and
//! answer as the crate answers a refused text where it fails.
use std::str::FromStr;

use chess::{Board, ChessMove, MoveGen, ALL_PIECES, ALL_SQUARES, EMPTY};
use vstd::prelude::*;

use crate::squares::{placement_field, scan_placement, spec_square_from_name, spec_square_name};
use crate::fen::{fen_has_king_to_move, read_fen, side_named, spec_king_to_move};
use crate::types::{PieceKind, PlayerColor};

verus! {

/// A move given by square indices (`rank * 8 + file`, a1 = 0, h8 = 63)
/// and the piece a pawn promotes to.
#[derive(Clone, Copy, Debug, PartialEq, Eq, Structural)]
pub struct BoardMove {
    pub from: u8,
    pub to: u8,
    pub promotion: Option<PieceKind>,
}

/// The FEN that the crate writes back for the board it reads from `fen`,
/// or `None` where it refuses `fen`.
pub uninterp spec fn crate_board_fen(fen: Seq<char>) -> Option<Seq<char>>;

/// The legal moves of the position `fen`, in the order of the crate's
/// move generator; empty where the crate refuses `fen`.
pub uninterp spec fn crate_legal_moves(fen: Seq<char>) -> Seq<BoardMove>;

/// The FEN of the position after `mv` is played in `fen`.
pub uninterp spec fn spec_play(fen: Seq<char>, mv: BoardMove) -> Seq<char>;

/// Whether the side to move in `fen` is in check (`false` where the crate
/// refuses `fen`).
pub uninterp spec fn crate_in_check(fen: Seq<char>) -> bool;

/// The side to move in `fen` (White where the crate refuses `fen`).
pub uninterp spec fn crate_side_to_move(fen: Seq<char>) -> PlayerColor;

/// The piece and its color on square `sq` of `fen` (`None` where the
/// crate refuses `fen`).
pub uninterp spec fn crate_piece_at(fen: Seq<char>, sq: u8) -> Option<(PieceKind, PlayerColor)>;

/// The crate's form of `fen`; `None` for a text it cannot be handed.
pub open spec fn spec_board_fen(fen: Seq<char>) -> Option<Seq<char>> {
    if spec_king_to_move(fen) { crate_board_fen(fen) } else { None }
}

/// The legal moves of `fen`; none for a text the crate cannot be handed.
pub open spec fn spec_legal_moves(fen: Seq<char>) -> Seq<BoardMove> {
    if spec_king_to_move(fen) { crate_legal_moves(fen) } else { Seq::empty() }
}

/// Whether the side to move in `fen` is in check; not for a text the crate
/// cannot be handed.
pub open spec fn spec_in_check(fen: Seq<char>) -> bool {
    spec_king_to_move(fen) && crate_in_check(fen)
}

/// The side to move in `fen`; White for a text the crate cannot be handed.
pub open spec fn spec_side_to_move(fen: Seq<char>) -> PlayerColor {
    if spec_king_to_move(fen) { crate_side_to_move(fen) } else { PlayerColor::White }
}

/// The piece on `sq` in `fen`; none for a text the crate cannot be handed.
pub open spec fn spec_piece_at(fen: Seq<char>, sq: u8) -> Option<(PieceKind, PlayerColor)> {
    if spec_king_to_move(fen) { crate_piece_at(fen, sq) } else { None }
}

/// A move generated by the crate: both squares on the board, and a
/// promotion, if any, to a knight, bishop, rook or queen.
pub open spec fn generated_move(mv: BoardMove) -> bool {
    &&& mv.from < 64
    &&& mv.to < 64
    &&& match mv.promotion {
        Some(k) => k != PieceKind::Pawn && k != PieceKind::King,
        None => true,
    }
}

/// What the crate's move generator keeps to for each move `mv` it yields,
/// given the piece on the move's source square and the side to move: that
/// piece belongs to the side to move, and the move names a promotion
/// exactly when it takes a pawn to its last rank.
pub open spec fn generator_law(mv: BoardMove, piece: Option<(PieceKind, PlayerColor)>, side: PlayerColor) -> bool {
    match piece {
        Some((kind, color)) => {
            &&& color == side
            &&& (kind == PieceKind::Pawn && ((color == PlayerColor::White && mv.to / 8 == 7)
                || (color == PlayerColor::Black && mv.to / 8 == 0))) == mv.promotion is Some
        },
        None => false,
    }
}

/// Whether the placement field of `s`, read piece by piece as a FEN lists
/// its pieces, gives exactly the pieces of the board the crate reads from
/// `s`: no piece past the last file, each listed piece on its square, and
/// every occupied square listed.
pub open spec fn lists_board(s: Seq<char>) -> bool {
    let scan = scan_placement(placement_field(s));
    &&& !scan.overflow
    &&& forall|i: int| 0 <= i < scan.pieces.len() ==> {
        let p = #[trigger] scan.pieces[i];
        &&& spec_square_from_name(p.2) is Some
        &&& crate_piece_at(s, spec_square_from_name(p.2).unwrap()) == Some((p.0, p.1))
    }
    &&& forall|sq: u8| sq < 64 && (#[trigger] crate_piece_at(s, sq)) is Some
        ==> exists|i: int| 0 <= i < scan.pieces.len() && (#[trigger] scan.pieces[i]).2 == spec_square_name(sq)
}

/// Index of a piece kind in the crate's `ALL_PIECES` order.
pub open spec fn spec_kind_index(kind: PieceKind) -> int {
    match kind {
        PieceKind::Pawn => 0,
        PieceKind::Knight => 1,
        PieceKind::Bishop => 2,
        PieceKind::Rook => 3,
        PieceKind::Queen => 4,
        PieceKind::King => 5,
    }
}

/// The piece kind at index `index` of the crate's `ALL_PIECES` order
/// (a king past the end).
pub fn kind_from_index(index: usize) -> (r: PieceKind)
    ensures
        index < 6 ==> spec_kind_index(r) == index,
{
    match index {
        0 => PieceKind::Pawn,
        1 => PieceKind::Knight,
        2 => PieceKind::Bishop,
        3 => PieceKind::Rook,
        4 => PieceKind::Queen,
        _ => PieceKind::King,
    }
}

/// Index of a piece kind in the crate's `ALL_PIECES` order.
pub fn kind_index(kind: PieceKind) -> (r: usize)
    ensures
        r == spec_kind_index(kind),
{
    match kind {
        PieceKind::Pawn => 0,
        PieceKind::Knight => 1,
        PieceKind::Bishop => 2,
        PieceKind::Rook => 3,
        PieceKind::Queen => 4,
        PieceKind::King => 5,
    }
}

/// The color at index `index` of the crate's `ALL_COLORS` order.
pub fn color_from_index(index: usize) -> (r: PlayerColor)
    ensures
        r == (if index == 0 { PlayerColor::White } else { PlayerColor::Black }),
{
    if index == 0 {
        PlayerColor::White
    } else {
        PlayerColor::Black
    }
}

/// Reads `fen` with `Board::from_str` and writes it back with the board's
/// `Display`: the crate's own form of the position, or `None` where
/// `from_str` refuses the text. The text written has the side to move's
/// king on the board, lists the board's pieces as `play_move` says, and
/// reads back to the same board.
#[verifier::external_body]
fn read_board_fen(fen: &str) -> (r: Option<String>)
    requires
        spec_king_to_move(fen@),
    ensures
        match r {
            Some(s) => crate_board_fen(fen@) == Some(s@) && spec_king_to_move(s@) && lists_board(s@),
            None => crate_board_fen(fen@).is_none(),
        },
{
    match Board::from_str(fen) {
        Ok(board) => Some(board.to_string()),
        Err(_) => None,
    }
}

/// `MoveGen::new_legal` on the board read from `fen`, each move given by its
/// square indices; empty where `from_str` refuses the text. The crate's
/// generator keeps at most 18 source squares, each with at most 64
/// destinations and 4 promotions, and yields only knight, bishop, rook or
/// queen promotions. It moves only pieces of the side to move, and gives a
/// pawn move to the last rank once for each promotion piece and any other
/// move without one.
#[verifier::external_body]
fn read_legal_moves(fen: &str) -> (r: Vec<BoardMove>)
    requires
        spec_king_to_move(fen@),
    ensures
        r@ == crate_legal_moves(fen@),
        r@.len() <= 4608,
        forall|i: int| 0 <= i < r@.len() ==> generated_move(#[trigger] r@[i]),
        forall|i: int| 0 <= i < r@.len()
            ==> generator_law(#[trigger] r@[i], crate_piece_at(fen@, r@[i].from), crate_side_to_move(fen@)),
{
    match Board::from_str(fen) {
        Ok(board) => MoveGen::new_legal(&board).map(|m: ChessMove| BoardMove {
            from: m.get_source().to_index() as u8,
            to: m.get_dest().to_index() as u8,
            promotion: m.get_promotion().map(|p| kind_from_index(p.to_index())),
        }).collect(),
        Err(_) => Vec::new(),
    }
}

/// `Board::make_move_new` with `mv` on the board read from `fen`, written
/// back as FEN. The crate unwraps the piece on the source square, so the
/// move must be one of the legal moves (which leaves out every text the
/// crate cannot be handed, since it has none). The new board has the
/// other side to move, keeps both kings (a legal move takes no king), and
/// is written as six fields: placement, side, castling, en passant and the
/// two counters. The placement field lists the board's pieces rank by
/// rank from the eighth, file by file from `a`, runs of empty squares as
/// digits, and the crate reads that text back to the same board.
#[verifier::external_body]
pub fn play_move(fen: &str, mv: BoardMove) -> (r: String)
    requires
        spec_legal_moves(fen@).contains(mv),
    ensures
        r@ == spec_play(fen@, mv),
        spec_king_to_move(r@),
        lists_board(r@),
        crate_side_to_move(r@) == crate_side_to_move(fen@).spec_opposite(),
{
    let promotion = match mv.promotion {
        Some(kind) => Some(ALL_PIECES[kind_index(kind)]),
        None => None,
    };
    let chess_move = ChessMove::new(ALL_SQUARES[mv.from as usize], ALL_SQUARES[mv.to as usize], promotion);
    match Board::from_str(fen) {
        Ok(board) => board.make_move_new(chess_move).to_string(),
        Err(_) => String::new(),
    }
}

/// Whether `Board::checkers` is non-empty on the board read from `fen`
/// (`false` where `from_str` refuses the text).
#[verifier::external_body]
fn read_in_check(fen: &str) -> (r: bool)
    requires
        spec_king_to_move(fen@),
    ensures
        r == crate_in_check(fen@),
{
    match Board::from_str(fen) {
        Ok(board) => *board.checkers() != EMPTY,
        Err(_) => false,
    }
}

/// `Board::side_to_move` on the board read from `fen` (White where
/// `from_str` refuses the text).
#[verifier::external_body]
fn read_side_to_move(fen: &str) -> (r: PlayerColor)
    requires
        spec_king_to_move(fen@),
    ensures
        r == crate_side_to_move(fen@),
        crate_board_fen(fen@) is Some ==> side_named(read_fen(fen@).side) == Some(r),
{
    match Board::from_str(fen) {
        Ok(board) => color_from_index(board.side_to_move().to_index()),
        Err(_) => PlayerColor::White,
    }
}

/// `Board::piece_on` with `Board::color_on` for square `sq` of the board
/// read from `fen` (`None` where `from_str` refuses the text).
#[verifier::external_body]
fn read_piece_at(fen: &str, sq: u8) -> (r: Option<(PieceKind, PlayerColor)>)
    requires
        sq < 64,
        spec_king_to_move(fen@),
    ensures
        r == crate_piece_at(fen@, sq),
        crate_board_fen(fen@) is Some ==> r == read_fen(fen@).placement.board[sq as int],
{
    let board = match Board::from_str(fen) {
        Ok(board) => board,
        Err(_) => return None,
    };
    match (board.piece_on(ALL_SQUARES[sq as usize]), board.color_on(ALL_SQUARES[sq as usize])) {
        (Some(piece), Some(color)) => Some((kind_from_index(piece.to_index()), color_from_index(color.to_index()))),
        _ => None,
    }
}

/// The crate's form of the position `fen`, or `None` where it refuses the
/// text or cannot be handed it.
pub fn board_fen(fen: &str) -> (r: Option<String>)
    ensures
        match r {
            Some(s) => spec_board_fen(fen@) == Some(s@) && lists_board(s@),
            None => spec_board_fen(fen@).is_none(),
        },
{
    if fen_has_king_to_move(fen) { read_board_fen(fen) } else { None }
}

/// The legal moves of the position `fen`, in the crate's order.
pub fn legal_moves(fen: &str) -> (r: Vec<BoardMove>)
    ensures
        r@ == spec_legal_moves(fen@),
        r@.len() <= 4608,
        forall|i: int| 0 <= i < r@.len() ==> generated_move(#[trigger] r@[i]),
        forall|i: int| 0 <= i < r@.len()
            ==> generator_law(#[trigger] r@[i], spec_piece_at(fen@, r@[i].from), spec_side_to_move(fen@)),
{
    if fen_has_king_to_move(fen) { read_legal_moves(fen) } else { Vec::new() }
}

/// Whether the side to move in `fen` is in check.
pub fn in_check(fen: &str) -> (r: bool)
    ensures
        r == spec_in_check(fen@),
{
    fen_has_king_to_move(fen) && read_in_check(fen)
}

/// The side to move in `fen`.
pub fn side_to_move(fen: &str) -> (r: PlayerColor)
    ensures
        r == spec_side_to_move(fen@),
{
    if fen_has_king_to_move(fen) { read_side_to_move(fen) } else { PlayerColor::White }
}

/// The piece and its color on square `sq` of `fen`.
pub fn piece_at(fen: &str, sq: u8) -> (r: Option<(PieceKind, PlayerColor)>)
    requires
        sq < 64,
    ensures
        r == spec_piece_at(fen@, sq),
{
    if fen_has_king_to_move(fen) { read_piece_at(fen, sq) } else { None }
}


/// Whether play goes on, or how it ended.
#[derive(Clone, Copy, Debug, PartialEq, Eq, Structural)]
pub enum GameStatus {
    Ongoing,
    Stalemate,
    Checkmate,
}

/// `Board::status` as the crate computes it: play goes on while there is a
/// legal move; without one, the side in check is mated, otherwise it is
/// stalemate.
pub open spec fn spec_status(fen: Seq<char>) -> GameStatus {
    if spec_legal_moves(fen).len() > 0 {
        GameStatus::Ongoing
    } else if spec_in_check(fen) {
        GameStatus::Checkmate
    } else {
        GameStatus::Stalemate
    }
}

/// The status of the position `fen`.
pub fn board_status(fen: &str) -> (r: GameStatus)
    ensures
        r == spec_status(fen@),
{
    let moves = legal_moves(fen);
    if moves.len() > 0 {
        GameStatus::Ongoing
    } else if in_check(fen) {
        GameStatus::Checkmate
    } else {
        GameStatus::Stalemate
    }
}

} // verus!
