//! The match in progress: moves, turn, status, history, replay and puzzles.
use vstd::prelude::*;

use crate::bot::{evaluate_board, spec_evaluate};
use crate::constants::{puzzle_well_formed, uci_text};
use crate::engine::{
    board_status, legal_moves, piece_at, play_move, side_to_move, in_check, spec_in_check,
    spec_legal_moves, spec_piece_at, spec_play, spec_side_to_move, spec_status, BoardMove,
    GameStatus,
};
use crate::squares::{spec_square_from_name, spec_square_name, square_from_name, square_name};
use crate::text::{owned, push_char, str_eq};
use crate::types::{
    BossState, CameraMode, CinematicMode, Difficulty, GameMode, LastAction, MoveData, PieceKind,
    PlayerColor, Puzzle,
};

verus! {

/// The position every game starts from.
pub const START_FEN: &'static str = "rnbqkbnr/pppppppp/8/8/8/8/PPPPPPPP/RNBQKBNR w KQkq - 0 1";

/// Pieces each side has taken.
#[derive(Clone, Debug)]
pub struct CapturedPieces {
    pub white: Vec<PieceKind>,
    pub black: Vec<PieceKind>,
}

impl Default for CapturedPieces {
    fn default() -> (r: Self)
        ensures
            r.white@ == Seq::<PieceKind>::empty(),
            r.black@ == Seq::<PieceKind>::empty(),
    {
        CapturedPieces { white: Vec::new(), black: Vec::new() }
    }
}

/// The state of a match. The position itself is `fen`, in the form the
/// `chess` crate writes it.
#[derive(Clone, Debug)]
pub struct GameController {
    pub fen: String,
    pub turn: PlayerColor,
    pub is_check: bool,
    pub is_game_over: bool,
    pub winner: Option<PlayerColor>,
    pub is_draw: bool,
    pub history: Vec<String>,
    pub history_uci: Vec<String>,
    pub history_fen: Vec<String>,
    pub captured: CapturedPieces,
    pub evaluation: i32,
    pub selected_square: Option<String>,
    pub valid_moves: Vec<String>,
    pub last_move: Option<MoveData>,
    pub last_action: Option<LastAction>,
    pub cinematic_mode: CinematicMode,
    pub commentary: String,
    pub game_mode: GameMode,
    pub difficulty: Difficulty,
    pub player_color: PlayerColor,
    pub camera_mode: CameraMode,
    pub promotion_pending: Option<MoveData>,
    pub is_replay_mode: bool,
    pub replay_index: usize,
    pub boss_state: BossState,
    pub puzzle: Option<Puzzle>,
    pub puzzle_move_index: usize,
    pub is_puzzle_solved: bool,
    pub hint_square: Option<String>,
}

/// The character that names a promotion piece in UCI (a queen for a pawn
/// or a king, which cannot be promoted to).
pub open spec fn spec_promotion_char(kind: PieceKind) -> char {
    match kind {
        PieceKind::Queen => 'q',
        PieceKind::Rook => 'r',
        PieceKind::Bishop => 'b',
        PieceKind::Knight => 'n',
        PieceKind::Pawn => 'q',
        PieceKind::King => 'q',
    }
}

/// The character that names a promotion piece in UCI.
pub fn promotion_char(kind: PieceKind) -> (c: char)
    ensures
        c == spec_promotion_char(kind),
{
    match kind {
        PieceKind::Queen => 'q',
        PieceKind::Rook => 'r',
        PieceKind::Bishop => 'b',
        PieceKind::Knight => 'n',
        PieceKind::Pawn | PieceKind::King => 'q',
    }
}

/// The promotion piece a UCI character names, either case.
pub open spec fn spec_piece_from_promotion_char(c: char) -> Option<PieceKind> {
    if c == 'q' || c == 'Q' {
        Some(PieceKind::Queen)
    } else if c == 'r' || c == 'R' {
        Some(PieceKind::Rook)
    } else if c == 'b' || c == 'B' {
        Some(PieceKind::Bishop)
    } else if c == 'n' || c == 'N' {
        Some(PieceKind::Knight)
    } else {
        None
    }
}

/// The promotion piece a UCI character names, either case.
pub fn piece_from_promotion_char(c: char) -> (r: Option<PieceKind>)
    ensures
        r == spec_piece_from_promotion_char(c),
{
    if c == 'q' || c == 'Q' {
        Some(PieceKind::Queen)
    } else if c == 'r' || c == 'R' {
        Some(PieceKind::Rook)
    } else if c == 'b' || c == 'B' {
        Some(PieceKind::Bishop)
    } else if c == 'n' || c == 'N' {
        Some(PieceKind::Knight)
    } else {
        None
    }
}

/// A move in UCI: the two square names and the promotion character, if any.
pub open spec fn spec_uci(from: Seq<char>, to: Seq<char>, promotion: Option<PieceKind>) -> Seq<char> {
    match promotion {
        Some(kind) => from + to + seq![spec_promotion_char(kind)],
        None => from + to,
    }
}

fn uci_for(from: &str, to: &str, promotion: Option<PieceKind>) -> (r: String)
    ensures
        r@ == spec_uci(from@, to@, promotion),
{
    let mut r = owned(from);
    r.append(to);
    match promotion {
        Some(kind) => push_char(&mut r, promotion_char(kind)),
        None => {},
    }
    r
}

/// The move as the history lists it: piece letter (none for a pawn), from
/// square, `x` for a capture or `-`, to square, and `=` with the promotion
/// piece's letter.
pub open spec fn spec_notation(
    kind: PieceKind,
    from: Seq<char>,
    to: Seq<char>,
    capture: bool,
    promotion: Option<PieceKind>,
) -> Seq<char> {
    let head = if kind == PieceKind::Pawn { Seq::empty() } else { kind.spec_label() };
    let mark = if capture { "x"@ } else { "-"@ };
    let tail = match promotion {
        Some(p) => "="@ + p.spec_label(),
        None => Seq::empty(),
    };
    head + from + mark + to + tail
}

fn notation_for(
    kind: PieceKind,
    from: &str,
    to: &str,
    capture: bool,
    promotion: Option<PieceKind>,
) -> (r: String)
    ensures
        r@ == spec_notation(kind, from@, to@, capture, promotion),
{
    let mut r = String::new();
    if kind != PieceKind::Pawn {
        r.append(kind.label());
    }
    r.append(from);
    if capture {
        r.append("x");
    } else {
        r.append("-");
    }
    r.append(to);
    match promotion {
        Some(p) => {
            r.append("=");
            r.append(p.label());
        },
        None => {},
    }
    proof {
        let head = if kind == PieceKind::Pawn { Seq::<char>::empty() } else { kind.spec_label() };
        assert(Seq::<char>::empty() + head =~= head);
    }
    r
}

/// The square whose piece a move takes: the destination when it is
/// occupied, else the square beside the source on the destination's file
/// when a pawn moves diagonally.
pub open spec fn spec_captured_square(fen: Seq<char>, from: u8, to: u8, moved: PieceKind) -> Option<u8> {
    if spec_piece_at(fen, to) is Some {
        Some(to)
    } else if moved == PieceKind::Pawn && from % 8 != to % 8 {
        Some(((from / 8) * 8 + to % 8) as u8)
    } else {
        None
    }
}

fn captured_square_for(fen: &str, from: u8, to: u8, moved: PieceKind) -> (r: Option<u8>)
    requires
        from < 64,
        to < 64,
    ensures
        r == spec_captured_square(fen@, from, to, moved),
        r matches Some(sq) ==> sq < 64,
{
    if piece_at(fen, to).is_some() {
        return Some(to);
    }
    if moved == PieceKind::Pawn && from % 8 != to % 8 {
        return Some((from / 8) * 8 + to % 8);
    }
    None
}

/// Whether a pawn moving from `from` to `to` reaches its last rank (the
/// mover counted as White where the source square reads empty).
pub open spec fn spec_needs_promotion(fen: Seq<char>, from: u8, to: u8, kind: PieceKind) -> bool {
    kind == PieceKind::Pawn && {
        let color = match spec_piece_at(fen, from) {
            Some((_, c)) => c,
            None => PlayerColor::White,
        };
        (color == PlayerColor::White && to / 8 == 7) || (color == PlayerColor::Black && to / 8 == 0)
    }
}

fn needs_promotion(fen: &str, from: u8, to: u8, kind: PieceKind) -> (r: bool)
    requires
        from < 64,
    ensures
        r == spec_needs_promotion(fen@, from, to, kind),
{
    if kind != PieceKind::Pawn {
        return false;
    }
    let color = match piece_at(fen, from) {
        Some((_, c)) => c,
        None => PlayerColor::White,
    };
    (color == PlayerColor::White && to / 8 == 7) || (color == PlayerColor::Black && to / 8 == 0)
}

fn contains_move(moves: &Vec<BoardMove>, mv: BoardMove) -> (r: bool)
    ensures
        r == moves@.contains(mv),
{
    let mut i: usize = 0;
    while i < moves.len()
        invariant
            i <= moves@.len(),
            forall|j: int| 0 <= j < i ==> moves@[j] != mv,
        decreases moves@.len() - i,
    {
        if moves[i] == mv {
            return true;
        }
        i = i + 1;
    }
    false
}

/// The winner and end of game that the status of the position implies.
pub open spec fn status_fields(fen: Seq<char>) -> (bool, bool, Option<PlayerColor>) {
    match spec_status(fen) {
        GameStatus::Ongoing => (false, false, None),
        GameStatus::Stalemate => (true, true, None),
        GameStatus::Checkmate => (true, false, Some(spec_side_to_move(fen).spec_opposite())),
    }
}

/// The commentary after a legal move.
pub open spec fn spec_move_commentary(
    over: bool,
    winner: Option<PlayerColor>,
    check: bool,
    capture: bool,
    mover: PlayerColor,
    to: Seq<char>,
    notation: Seq<char>,
) -> Seq<char> {
    if over {
        match winner {
            Some(w) => "CHECKMATE. "@ + w.spec_label() + " wins."@,
            None => "Draw."@,
        }
    } else if check {
        "CHECK. The king is in danger."@
    } else if capture {
        mover.spec_label() + " captures on "@ + to + "."@
    } else {
        notation + " - "@ + mover.spec_label() + " moves."@
    }
}

/// What an attempt to move from `from` to `to` comes to in `fen`.
pub enum MoveAttempt {
    /// A square name does not parse, or the source square is empty.
    NotAMove,
    /// A pawn reaches its last rank and no promotion piece was given.
    NeedsPromotion,
    /// The move is not among the legal moves.
    Illegal,
    /// The move is legal: the move, the moving piece and its color.
    Legal(BoardMove, PieceKind, PlayerColor),
}

/// How an attempt to move is classified.
pub open spec fn spec_move_attempt(
    fen: Seq<char>,
    from: Seq<char>,
    to: Seq<char>,
    promotion: Option<PieceKind>,
) -> MoveAttempt {
    match (spec_square_from_name(from), spec_square_from_name(to)) {
        (Some(f), Some(t)) => match spec_piece_at(fen, f) {
            None => MoveAttempt::NotAMove,
            Some((kind, color)) => {
                let mv = BoardMove { from: f, to: t, promotion };
                if spec_needs_promotion(fen, f, t, kind) && promotion is None {
                    MoveAttempt::NeedsPromotion
                } else if !spec_legal_moves(fen).contains(mv) {
                    MoveAttempt::Illegal
                } else {
                    MoveAttempt::Legal(mv, kind, color)
                }
            },
        },
        _ => MoveAttempt::NotAMove,
    }
}

/// Whether `from`, `to` and `promotion` name one of the legal moves of
/// `fen`.
pub open spec fn legal_request(fen: Seq<char>, from: Seq<char>, to: Seq<char>, promotion: Option<PieceKind>) -> bool {
    match (spec_square_from_name(from), spec_square_from_name(to)) {
        (Some(f), Some(t)) => spec_legal_moves(fen).contains(BoardMove { from: f, to: t, promotion }),
        _ => false,
    }
}

/// The cinematic played after a legal move.
pub open spec fn spec_cinematic(over: bool, winner: Option<PlayerColor>, capture: bool) -> CinematicMode {
    if over && winner is Some {
        CinematicMode::GiantKingEnding
    } else if capture {
        CinematicMode::KillCam
    } else {
        CinematicMode::Off
    }
}

/// The piece a legal move takes, if any.
pub open spec fn spec_captured_piece(fen: Seq<char>, mv: BoardMove, kind: PieceKind) -> Option<PieceKind> {
    match spec_captured_square(fen, mv.from, mv.to, kind) {
        Some(sq) => match spec_piece_at(fen, sq) {
            Some((k, _)) => Some(k),
            None => None,
        },
        None => None,
    }
}

/// Hit points of a boss after one of its pieces is taken.
pub open spec fn spec_boss_after_capture(boss: BossState, capture: bool) -> BossState {
    if capture && boss.is_active {
        BossState { boss_hp: if boss.boss_hp > 150 { (boss.boss_hp - 150) as i32 } else { 0 }, ..boss }
    } else {
        boss
    }
}

/// The state after the legal move `mv` of a `kind` piece of `color`,
/// requested as `from` to `to` with `promotion`.
#[verifier::opaque]
pub open spec fn after_legal_move(
    old: GameController,
    new: GameController,
    from: Seq<char>,
    to: Seq<char>,
    promotion: Option<PieceKind>,
    mv: BoardMove,
    kind: PieceKind,
    color: PlayerColor,
) -> bool {
    let capture_square = spec_captured_square(old.fen@, mv.from, mv.to, kind);
    let capture = spec_captured_piece(old.fen@, mv, kind);
    let fen = spec_play(old.fen@, mv);
    let notation = spec_notation(kind, from, to, capture is Some, promotion);
    &&& new.fen@ == fen
    &&& new.status_matches()
    &&& new.turn == spec_side_to_move(old.fen@).spec_opposite()
    &&& crate::engine::lists_board(fen)
    &&& new.history@.len() == old.history@.len() + 1
    &&& new.history@.drop_last() == old.history@
    &&& new.history@.last()@ == notation
    &&& new.history_uci@.len() == old.history_uci@.len() + 1
    &&& new.history_uci@.drop_last() == old.history_uci@
    &&& new.history_uci@.last()@ == spec_uci(from, to, promotion)
    &&& new.history_fen@.len() == old.history_fen@.len() + 1
    &&& new.history_fen@.drop_last() == old.history_fen@
    &&& new.history_fen@.last()@ == fen
    &&& (match new.last_move {
        Some(m) => m.from@ == from && m.to@ == to && m.promotion == promotion,
        None => false,
    })
    &&& (match capture {
        Some(k) => if color == PlayerColor::White {
            new.captured.white@ == old.captured.white@.push(k) && new.captured.black@ == old.captured.black@
        } else {
            new.captured.white@ == old.captured.white@ && new.captured.black@ == old.captured.black@.push(k)
        },
        None => new.captured.white@ == old.captured.white@ && new.captured.black@ == old.captured.black@,
    })
    &&& new.boss_state == spec_boss_after_capture(old.boss_state, capture is Some)
    &&& new.evaluation == spec_evaluate(fen)
    &&& new.selected_square is None
    &&& new.valid_moves@.len() == 0
    &&& new.hint_square is None
    &&& new.promotion_pending is None
    &&& new.cinematic_mode == spec_cinematic(new.is_game_over, new.winner, capture is Some)
    &&& (match new.last_action {
        Some(a) => {
            &&& a.action_type@ == (if capture is Some { "capture"@ } else { "move"@ })
            &&& a.from@ == from
            &&& a.to@ == to
            &&& a.piece == kind
            &&& a.captured_piece == capture
            &&& match capture_square {
                Some(sq) => a.captured_square matches Some(name) && name@ == spec_square_name(sq),
                None => a.captured_square is None,
            }
            &&& a.is_check == new.is_check
            &&& a.is_checkmate == (new.is_game_over && new.winner is Some)
        },
        None => false,
    })
    &&& new.commentary@ == spec_move_commentary(
        new.is_game_over,
        new.winner,
        new.is_check,
        capture is Some,
        color,
        to,
        notation,
    )
    &&& new.game_mode == old.game_mode
    &&& new.difficulty == old.difficulty
    &&& new.player_color == old.player_color
    &&& new.camera_mode == old.camera_mode
    &&& new.is_replay_mode == old.is_replay_mode
    &&& new.replay_index == old.replay_index
    &&& new.puzzle == old.puzzle
    &&& new.puzzle_move_index == old.puzzle_move_index
    &&& new.is_puzzle_solved == old.is_puzzle_solved
}

/// The state after an attempt to move from `from` to `to`, which returned
/// `r`. A pawn reaching its last rank without a promotion piece is kept
/// pending only when `allow_pending` is set.
pub open spec fn applied(
    old: GameController,
    new: GameController,
    from: Seq<char>,
    to: Seq<char>,
    promotion: Option<PieceKind>,
    allow_pending: bool,
    r: bool,
) -> bool {
    match spec_move_attempt(old.fen@, from, to, promotion) {
        MoveAttempt::NotAMove => !r && new == old,
        MoveAttempt::NeedsPromotion => !r && if allow_pending {
            &&& new == (GameController {
                promotion_pending: new.promotion_pending,
                commentary: new.commentary,
                ..old
            })
            &&& new.promotion_pending matches Some(m) && m.from@ == from && m.to@ == to && m.promotion is None
            &&& new.commentary@ == "Promotion available."@
        } else {
            new == old
        },
        MoveAttempt::Illegal => {
            &&& !r
            &&& new == (GameController { commentary: new.commentary, ..old })
            &&& new.commentary@ == "Invalid move."@
        },
        MoveAttempt::Legal(mv, kind, color) => r && after_legal_move(old, new, from, to, promotion, mv, kind, color),
    }
}


/// The parts of a UCI move: from square, to square, promotion piece.
pub open spec fn uci_parts(m: Seq<char>) -> (Seq<char>, Seq<char>, Option<PieceKind>) {
    (
        m.subrange(0, 2),
        m.subrange(2, 4),
        if m.len() > 4 { spec_piece_from_promotion_char(m[4]) } else { None },
    )
}

/// The state after the puzzle cursor moves on past the player's move: the
/// puzzle is solved at the end of the solution; otherwise, where the next
/// move is the opponent's reply, the reply is played and the cursor moves
/// past it when it was legal.
pub open spec fn advanced(old: GameController, new: GameController) -> bool {
    match old.puzzle {
        None => new == old,
        Some(p) => {
            let i = old.puzzle_move_index + 1;
            if i >= p.moves@.len() {
                &&& new == (GameController {
                    puzzle_move_index: i as usize,
                    is_puzzle_solved: true,
                    commentary: new.commentary,
                    ..old
                })
                &&& new.commentary@ == "Puzzle solved. Excellent work."@
            } else if i % 2 == 1 {
                let (f, t, promotion) = uci_parts(p.moves@[i]@);
                let stepped = GameController { puzzle_move_index: i as usize, ..old };
                exists|mid: GameController, b: bool|
                    #![trigger applied(stepped, mid, f, t, promotion, false, b)]
                    applied(stepped, mid, f, t, promotion, false, b) && if b {
                        if i + 1 >= p.moves@.len() {
                            &&& new == (GameController {
                                puzzle_move_index: (i + 1) as usize,
                                is_puzzle_solved: true,
                                commentary: new.commentary,
                                ..mid
                            })
                            &&& new.commentary@ == "Puzzle solved. Excellent work."@
                        } else {
                            new == (GameController { puzzle_move_index: (i + 1) as usize, ..mid })
                        }
                    } else {
                        new == mid
                    }
            } else {
                new == (GameController { puzzle_move_index: i as usize, ..old })
            }
        },
    }
}

/// Whether a puzzle in progress refuses a move that is not the next move
/// of its solution.
pub open spec fn puzzle_refuses(g: GameController, from: Seq<char>, to: Seq<char>, promotion: Option<PieceKind>) -> bool {
    &&& g.game_mode == GameMode::Puzzles
    &&& !g.is_puzzle_solved
    &&& match g.puzzle {
        Some(p) => g.puzzle_move_index < p.moves@.len() && p.moves@[g.puzzle_move_index as int]@ != spec_uci(from, to, promotion),
        None => false,
    }
}


/// The state after `make_move(from, to, promotion)` returned `r`: nothing
/// moves once the game is over or while a replay is shown; a puzzle in
/// progress refuses any move but the next of its solution; otherwise the
/// attempt is made, and a legal move in an unsolved puzzle moves the
/// puzzle on.
pub open spec fn made_move(
    old: GameController,
    new: GameController,
    from: Seq<char>,
    to: Seq<char>,
    promotion: Option<PieceKind>,
    r: bool,
) -> bool {
    if old.is_game_over || old.is_replay_mode {
        !r && new == old
    } else if puzzle_refuses(old, from, to, promotion) {
        &&& !r
        &&& new == (GameController {
            commentary: new.commentary,
            selected_square: None,
            valid_moves: new.valid_moves,
            ..old
        })
        &&& new.commentary@ == "Incorrect move. Try again."@
        &&& new.valid_moves@.len() == 0
    } else {
        exists|mid: GameController|
            #![trigger applied(old, mid, from, to, promotion, true, r)]
            applied(old, mid, from, to, promotion, true, r) && if r && mid.game_mode == GameMode::Puzzles
                && !mid.is_puzzle_solved {
                advanced(mid, new)
            } else {
                new == mid
            }
    }
}


/// `g` with its commentary replaced by `c`.
pub open spec fn with_commentary(g: GameController, c: String) -> GameController {
    GameController { commentary: c, ..g }
}

/// The state every match starts from.
pub open spec fn is_new_game(g: GameController) -> bool {
    &&& g.fen@ == START_FEN@
    &&& g.turn == PlayerColor::White
    &&& !g.is_check
    &&& !g.is_game_over
    &&& g.winner is None
    &&& !g.is_draw
    &&& g.history@.len() == 0
    &&& g.history_uci@.len() == 0
    &&& g.history_fen@.len() == 1
    &&& g.history_fen@[0]@ == START_FEN@
    &&& g.captured.white@.len() == 0
    &&& g.captured.black@.len() == 0
    &&& g.evaluation == 0
    &&& g.selected_square is None
    &&& g.valid_moves@.len() == 0
    &&& g.last_move is None
    &&& g.last_action is None
    &&& g.cinematic_mode == CinematicMode::Off
    &&& g.commentary@ == "Welcome to Royal 3D Chess."@
    &&& g.game_mode == GameMode::PlayerVsPlayer
    &&& g.difficulty == Difficulty::Medium
    &&& g.player_color == PlayerColor::White
    &&& g.camera_mode == CameraMode::Orbit
    &&& g.promotion_pending is None
    &&& !g.is_replay_mode
    &&& g.replay_index == 0
    &&& !g.boss_state.is_active
    &&& g.boss_state.boss_hp == 0
    &&& g.boss_state.max_hp == 0
    &&& g.boss_state.player_hp == 0
    &&& g.puzzle is None
    &&& g.puzzle_move_index == 0
    &&& !g.is_puzzle_solved
    &&& g.hint_square is None
}

/// The position shown: the replayed one while a replay is shown (the
/// current one where the replay cursor is past the history).
pub open spec fn spec_visible_fen(g: GameController) -> Seq<char> {
    if g.is_replay_mode && g.replay_index < g.history_fen@.len() {
        g.history_fen@[g.replay_index as int]@
    } else {
        g.fen@
    }
}

/// Whether the engine, not the player, moves next in this mode.
pub open spec fn spec_is_engine_turn(g: GameController) -> bool {
    (g.game_mode == GameMode::PlayerVsAi || g.game_mode == GameMode::Story || g.game_mode == GameMode::Boss
        || g.game_mode == GameMode::Puzzles) && g.turn != g.player_color
}

/// Whether the engine should move now on its own.
pub open spec fn spec_should_auto_bot_move(g: GameController) -> bool {
    (g.game_mode == GameMode::PlayerVsAi || g.game_mode == GameMode::Story || g.game_mode == GameMode::Boss)
        && !g.is_game_over && g.turn != g.player_color
}

/// The board the crate starts from, written back as FEN.
pub open spec fn spec_default_board_fen() -> Seq<char> {
    match crate::engine::spec_board_fen(START_FEN@) {
        Some(f) => f,
        None => START_FEN@,
    }
}

/// The commentary that opens a puzzle.
pub open spec fn spec_puzzle_commentary(p: Puzzle) -> Seq<char> {
    "Puzzle: "@ + p.description@ + " (Rating: "@ + crate::text::decimal(p.rating as nat) + ")"@
}

/// The state after `puzzle` is loaded into `old`.
pub open spec fn puzzle_loaded(old: GameController, new: GameController, p: Puzzle) -> bool {
    let fen = match crate::engine::spec_board_fen(p.fen@) {
        Some(f) => f,
        None => spec_default_board_fen(),
    };
    &&& new.fen@ == fen
    &&& new.turn == spec_side_to_move(fen)
    &&& new.history@.len() == 0
    &&& new.history_uci@.len() == 0
    &&& new.history_fen@.len() == 1
    &&& new.history_fen@[0]@ == fen
    &&& new.puzzle == Some(p)
    &&& new.puzzle_move_index == 0
    &&& !new.is_puzzle_solved
    &&& new.hint_square is None
    &&& new.player_color == new.turn
    &&& new.commentary@ == spec_puzzle_commentary(p)
    &&& new == (GameController {
        fen: new.fen,
        turn: new.turn,
        history: new.history,
        history_uci: new.history_uci,
        history_fen: new.history_fen,
        puzzle: new.puzzle,
        puzzle_move_index: new.puzzle_move_index,
        is_puzzle_solved: new.is_puzzle_solved,
        hint_square: new.hint_square,
        player_color: new.player_color,
        commentary: new.commentary,
        ..old
    })
}

/// The state a match starts in for `mode` and `difficulty`: a new game
/// greeting `player_name`; a boss fight at full hit points and hard
/// difficulty; or puzzle `puzzle_index` of the puzzle set.
pub open spec fn game_started(
    new: GameController,
    mode: GameMode,
    difficulty: Difficulty,
    player_name: Seq<char>,
    puzzle_index: usize,
) -> bool {
    exists|fresh: GameController|
        #![trigger is_new_game(fresh)]
        {
            let base = GameController {
                game_mode: mode,
                difficulty: if mode == GameMode::Boss { Difficulty::Hard } else { difficulty },
                commentary: new.commentary,
                boss_state: if mode == GameMode::Boss {
                    BossState { is_active: true, boss_hp: 2000, max_hp: 2000, player_hp: 100 }
                } else {
                    fresh.boss_state
                },
                ..fresh
            };
            &&& is_new_game(fresh)
            &&& if mode == GameMode::Puzzles {
                puzzle_loaded(base, new, crate::constants::spec_sample_puzzle(puzzle_index as int))
            } else {
                &&& new == base
                &&& new.commentary@ == "Match started. Good luck, "@ + player_name + "."@
            }
        }
}


/// The names of the squares that the moves from `sq` among `moves` reach,
/// in the order of `moves` (once per promotion piece).
pub open spec fn spec_targets(moves: Seq<BoardMove>, sq: u8) -> Seq<Seq<char>>
    decreases moves.len(),
{
    if moves.len() == 0 {
        Seq::empty()
    } else {
        let rest = spec_targets(moves.drop_last(), sq);
        if moves.last().from == sq {
            rest.push(spec_square_name(moves.last().to))
        } else {
            rest
        }
    }
}

/// Whether the views of `v` are `s`.
pub open spec fn names_are(v: Seq<String>, s: Seq<Seq<char>>) -> bool {
    &&& v.len() == s.len()
    &&& forall|i: int| 0 <= i < v.len() ==> #[trigger] v[i]@ == s[i]
}

/// The state after the player clicks `square` to select it. Nothing
/// changes once the game is over, during a replay, after a solved puzzle or
/// while the engine is to move; clicking the selected square, or a square
/// without a piece of the side to move, clears the selection; a square name
/// that does not parse changes nothing; otherwise the square is selected
/// with the squares its legal moves reach.
pub open spec fn selected(old: GameController, new: GameController, square: Seq<char>) -> bool {
    if old.is_game_over || old.is_replay_mode || old.is_puzzle_solved || spec_is_engine_turn(old) {
        new == old
    } else if old.selected_square matches Some(s) && s@ == square {
        &&& new == (GameController { selected_square: None, valid_moves: new.valid_moves, ..old })
        &&& new.valid_moves@.len() == 0
    } else {
        match spec_square_from_name(square) {
            None => new == old,
            Some(sq) => if spec_piece_at(old.fen@, sq) matches Some((_, c)) && c == old.turn {
                &&& new == (GameController {
                    selected_square: new.selected_square,
                    valid_moves: new.valid_moves,
                    ..old
                })
                &&& new.selected_square matches Some(s) && s@ == square
                &&& names_are(new.valid_moves@, spec_targets(spec_legal_moves(old.fen@), sq))
            } else {
                &&& new == (GameController { selected_square: None, valid_moves: new.valid_moves, ..old })
                &&& new.valid_moves@.len() == 0
            },
        }
    }
}

/// Whether `square` is among the squares the selection can move to.
pub open spec fn is_target(g: GameController, square: Seq<char>) -> bool {
    exists|i: int| 0 <= i < g.valid_moves@.len() && #[trigger] g.valid_moves@[i]@ == square
}


/// A replay of recorded moves: the position reached and the pieces each
/// side took.
pub struct ReplayState {
    pub fen: Seq<char>,
    pub white: Seq<PieceKind>,
    pub black: Seq<PieceKind>,
}

/// One recorded move replayed: a capture is counted for the mover whenever
/// the move names a square and a piece to move, and the position advances
/// only when the move is legal there.
pub open spec fn replay_step(st: ReplayState, uci: Seq<char>) -> ReplayState {
    let (f, t, promotion) = uci_parts(uci);
    match (spec_square_from_name(f), spec_square_from_name(t)) {
        (Some(fs), Some(ts)) => match spec_piece_at(st.fen, fs) {
            None => st,
            Some((kind, color)) => {
                let capture = spec_captured_piece(st.fen, BoardMove { from: fs, to: ts, promotion }, kind);
                let counted = match capture {
                    Some(k) => if color == PlayerColor::White {
                        ReplayState { white: st.white.push(k), ..st }
                    } else {
                        ReplayState { black: st.black.push(k), ..st }
                    },
                    None => st,
                };
                let mv = BoardMove { from: fs, to: ts, promotion };
                if spec_legal_moves(st.fen).contains(mv) {
                    ReplayState { fen: spec_play(st.fen, mv), ..counted }
                } else {
                    counted
                }
            },
        },
        _ => st,
    }
}

/// The recorded moves `ucis` replayed from the starting position.
pub open spec fn replay(ucis: Seq<Seq<char>>) -> ReplayState
    decreases ucis.len(),
{
    if ucis.len() == 0 {
        ReplayState { fen: spec_default_board_fen(), white: Seq::empty(), black: Seq::empty() }
    } else {
        replay_step(replay(ucis.drop_last()), ucis.last())
    }
}

/// The characters of each string.
pub open spec fn views(v: Seq<String>) -> Seq<Seq<char>> {
    v.map_values(|s: String| s@)
}

/// How many moves an undo takes back: two against the engine (the
/// engine's reply and the player's move), one otherwise; never the first
/// position, and never more moves than were recorded.
pub open spec fn undo_count(g: GameController) -> int {
    let remove: int = if g.game_mode == GameMode::PlayerVsAi || g.game_mode == GameMode::Story
        || g.game_mode == GameMode::Boss { 2 } else { 1 };
    let by_positions = g.history_fen@.len() - 1;
    let m = if remove < by_positions { remove } else { by_positions };
    let m2 = if m < g.history_uci@.len() { m } else { g.history_uci@.len() as int };
    if m2 < 0 { 0 } else { m2 }
}

/// The state after an undo: the last moves taken back, the position read
/// back from the history (the starting position where none is left or the
/// crate refuses it), the captures recounted from the remaining moves, and
/// the last move, action, cinematic and selection cleared.
pub open spec fn undone(old: GameController, new: GameController) -> bool {
    let k = undo_count(old);
    let fens = old.history_fen@.take(old.history_fen@.len() - k);
    let text = if fens.len() > 0 { fens.last()@ } else { START_FEN@ };
    let fen = match crate::engine::spec_board_fen(text) {
        Some(f) => f,
        None => spec_default_board_fen(),
    };
    let ucis = old.history_uci@.take(old.history_uci@.len() - k);
    let kept = if old.history@.len() >= k { old.history@.len() - k } else { 0 };
    &&& new.history_fen@ == fens
    &&& new.history_uci@ == ucis
    &&& new.history@ == old.history@.take(kept)
    &&& new.fen@ == fen
    &&& new.status_matches()
    &&& new.last_move is None
    &&& new.last_action is None
    &&& new.cinematic_mode == CinematicMode::Off
    &&& new.captured.white@ == replay(views(ucis)).white
    &&& new.captured.black@ == replay(views(ucis)).black
    &&& new.selected_square is None
    &&& new.valid_moves@.len() == 0
    &&& new == (GameController {
        fen: new.fen,
        turn: new.turn,
        is_check: new.is_check,
        is_game_over: new.is_game_over,
        winner: new.winner,
        is_draw: new.is_draw,
        history: new.history,
        history_uci: new.history_uci,
        history_fen: new.history_fen,
        captured: new.captured,
        selected_square: new.selected_square,
        valid_moves: new.valid_moves,
        last_move: new.last_move,
        last_action: new.last_action,
        cinematic_mode: new.cinematic_mode,
        ..old
    })
}


/// The state after `start_replay`: the replay shown at the latest position.
pub open spec fn replay_started(old: GameController, new: GameController) -> bool {
    &&& new == (GameController {
        is_replay_mode: true,
        replay_index: new.replay_index,
        selected_square: None,
        valid_moves: new.valid_moves,
        ..old
    })
    &&& new.replay_index == (if old.history_fen@.len() > 0 { old.history_fen@.len() - 1 } else { 0 })
    &&& new.valid_moves@.len() == 0
}

/// The replay cursor moved one position on, no further than the latest
/// recorded position.
pub open spec fn replay_stepped_on(g: GameController) -> GameController {
    let last = if g.history_fen@.len() > 0 { g.history_fen@.len() - 1 } else { 0 };
    let target = if g.replay_index + 1 < last { g.replay_index + 1 } else { last };
    GameController {
        replay_index: if target < g.history_fen@.len() { target as usize } else { g.replay_index },
        ..g
    }
}

/// The replay cursor moved one position back, no further than the start.
pub open spec fn replay_stepped_back(g: GameController) -> GameController {
    let target = if g.replay_index > 0 { g.replay_index - 1 } else { 0 };
    GameController {
        replay_index: if target < g.history_fen@.len() { target as usize } else { g.replay_index },
        ..g
    }
}

/// Whether the first four characters of `t` are ASCII.
pub open spec fn ascii_head(t: Seq<char>) -> bool {
    &&& t.len() >= 4
    &&& forall|i: int| 0 <= i < 4 ==> (t[i] as int) < 128
}

/// One word of a move list replayed: a word that starts with four ASCII
/// characters is tried as a move (a pawn reaching its last rank without a
/// promotion piece is left pending); any other word changes nothing.
pub open spec fn token_step(old: GameController, new: GameController, token: Seq<char>) -> bool {
    if ascii_head(token) {
        let (f, t, promotion) = uci_parts(token);
        exists|r: bool| #![trigger applied(old, new, f, t, promotion, true, r)] applied(old, new, f, t, promotion, true, r)
    } else {
        new == old
    }
}

/// The state after a move list is loaded for replay: a fresh match between
/// two players, each word of the list tried in turn, and the replay then
/// shown at the latest position.
pub open spec fn replay_loaded(new: GameController, moves: Seq<char>) -> bool {
    let ws = crate::text::words(moves);
    exists|states: Seq<GameController>|
        #![trigger states.len()]
        {
            &&& states.len() == ws.len() + 1
            &&& game_started(states[0], GameMode::PlayerVsPlayer, Difficulty::Medium, "Player"@, 0)
            &&& forall|i: int| 0 <= i < ws.len() ==> #[trigger] token_step(states[i], states[i + 1], ws[i])
            &&& replay_started(states[ws.len() as int], new)
        }
}

/// The state after a click on `square` returned `r`: a move of the
/// selection when `square` is among its targets, otherwise a selection.
pub open spec fn clicked(old: GameController, new: GameController, square: Seq<char>, r: bool) -> bool {
    match old.selected_square {
        Some(from) if is_target(old, square) => made_move(old, new, from@, square, None, r),
        _ => !r && selected(old, new, square),
    }
}

/// An attempt to move changes neither the mode, the players' sides, the
/// replay nor the puzzle.
pub proof fn lemma_applied_frame(
    old: GameController,
    new: GameController,
    from: Seq<char>,
    to: Seq<char>,
    promotion: Option<PieceKind>,
    allow_pending: bool,
    r: bool,
)
    requires
        applied(old, new, from, to, promotion, allow_pending, r),
    ensures
        new.game_mode == old.game_mode,
        new.difficulty == old.difficulty,
        new.player_color == old.player_color,
        new.camera_mode == old.camera_mode,
        new.is_replay_mode == old.is_replay_mode,
        new.replay_index == old.replay_index,
        new.puzzle == old.puzzle,
        new.puzzle_move_index == old.puzzle_move_index,
        new.is_puzzle_solved == old.is_puzzle_solved,
        !r ==> new.fen == old.fen && new.history_uci == old.history_uci && new.history_fen == old.history_fen
            && new.history == old.history && new.captured == old.captured,
{
    reveal(after_legal_move);
}

/// Moving the puzzle cursor on keeps the mode.
pub proof fn lemma_advanced_keeps_mode(old: GameController, new: GameController)
    requires
        advanced(old, new),
    ensures
        new.game_mode == old.game_mode,
{
    match old.puzzle {
        None => {},
        Some(p) => {
            let i = old.puzzle_move_index + 1;
            if i < p.moves@.len() && i % 2 == 1 {
                let (f, t, promotion) = uci_parts(p.moves@[i]@);
                let stepped = GameController { puzzle_move_index: i as usize, ..old };
                let (mid, b) = choose|mid: GameController, b: bool|
                    #![trigger applied(stepped, mid, f, t, promotion, false, b)]
                    applied(stepped, mid, f, t, promotion, false, b) && if b {
                        if i + 1 >= p.moves@.len() {
                            &&& new == (GameController {
                                puzzle_move_index: (i + 1) as usize,
                                is_puzzle_solved: true,
                                commentary: new.commentary,
                                ..mid
                            })
                            &&& new.commentary@ == "Puzzle solved. Excellent work."@
                        } else {
                            new == (GameController { puzzle_move_index: (i + 1) as usize, ..mid })
                        }
                    } else {
                        new == mid
                    };
                lemma_applied_frame(stepped, mid, f, t, promotion, false, b);
            }
        },
    }
}

/// A click on the board keeps the mode.
pub proof fn lemma_clicked_keeps_mode(old: GameController, new: GameController, square: Seq<char>, r: bool)
    requires
        clicked(old, new, square, r),
    ensures
        new.game_mode == old.game_mode,
{
    match old.selected_square {
        Some(from) if is_target(old, square) => {
            if !(old.is_game_over || old.is_replay_mode) && !puzzle_refuses(old, from@, square, None) {
                let mid = choose|mid: GameController|
                    #![trigger applied(old, mid, from@, square, None, true, r)]
                    applied(old, mid, from@, square, None, true, r) && if r && mid.game_mode == GameMode::Puzzles
                        && !mid.is_puzzle_solved {
                        advanced(mid, new)
                    } else {
                        new == mid
                    };
                lemma_applied_frame(old, mid, from@, square, None, true, r);
                if r && mid.game_mode == GameMode::Puzzles && !mid.is_puzzle_solved {
                    lemma_advanced_keeps_mode(mid, new);
                }
            }
        },
        _ => {},
    }
}

impl GameController {
    /// What every method relies on: the recorded moves and the puzzle's
    /// solution are written in UCI, and the puzzle cursor stays within one
    /// past the solution (within it while the puzzle is unsolved).
    pub open spec fn wf(&self) -> bool {
        &&& forall|i: int| 0 <= i < self.history_uci@.len() ==> uci_text(#[trigger] self.history_uci@[i]@)
        &&& match self.puzzle {
            Some(p) => {
                &&& puzzle_well_formed(p)
                &&& self.puzzle_move_index <= p.moves@.len() + 1
                &&& !self.is_puzzle_solved ==> self.puzzle_move_index <= p.moves@.len()
            },
            None => true,
        }
    }

    /// Turn, check, end of game, winner and draw as the position `fen` has them.
    pub open spec fn status_matches(&self) -> bool {
        let (over, draw, winner) = status_fields(self.fen@);
        &&& self.turn == spec_side_to_move(self.fen@)
        &&& self.is_check == spec_in_check(self.fen@)
        &&& self.is_game_over == over
        &&& self.is_draw == draw
        &&& self.winner == winner
    }

    /// Sets turn, check, end of game, winner and draw from the position.
    fn refresh_status(&mut self)
        ensures
            final(self).status_matches(),
            *final(self) == (GameController {
                turn: final(self).turn,
                is_check: final(self).is_check,
                is_game_over: final(self).is_game_over,
                is_draw: final(self).is_draw,
                winner: final(self).winner,
                ..*old(self)
            }),
    {
        self.turn = side_to_move(&self.fen);
        self.is_check = in_check(&self.fen);
        match board_status(&self.fen) {
            GameStatus::Ongoing => {
                self.is_game_over = false;
                self.is_draw = false;
                self.winner = None;
            },
            GameStatus::Stalemate => {
                self.is_game_over = true;
                self.is_draw = true;
                self.winner = None;
            },
            GameStatus::Checkmate => {
                self.is_game_over = true;
                self.is_draw = false;
                self.winner = Some(self.turn.opposite());
            },
        }
    }

    /// Rewrites the position in the crate's own form (when the crate reads
    /// it) and sets turn, check, end of game, winner and draw from it.
    pub fn sync_status(&mut self)
        ensures
            final(self).fen@ == (match crate::engine::spec_board_fen(old(self).fen@) {
                Some(f) => f,
                None => old(self).fen@,
            }),
            final(self).status_matches(),
            *final(self) == (GameController {
                fen: final(self).fen,
                turn: final(self).turn,
                is_check: final(self).is_check,
                is_game_over: final(self).is_game_over,
                is_draw: final(self).is_draw,
                winner: final(self).winner,
                ..*old(self)
            }),
    {
        match crate::engine::board_fen(&self.fen) {
            Some(f) => {
                self.fen = f;
            },
            None => {},
        }
        self.refresh_status();
    }

    /// Plays the move from `from` to `to` if it is legal, and records it.
    #[verifier::rlimit(60)]
    #[verifier::spinoff_prover]
    fn apply_move(&mut self, from: &str, to: &str, promotion: Option<PieceKind>, allow_pending: bool) -> (r: bool)
        requires
            old(self).wf(),
        ensures
            final(self).wf(),
            applied(*old(self), *final(self), from@, to@, promotion, allow_pending, r),
            legal_request(old(self).fen@, from@, to@, promotion) ==> r,
    {
        let moves = legal_moves(&self.fen);
        let from_sq = match square_from_name(from) {
            Some(sq) => sq,
            None => return false,
        };
        let to_sq = match square_from_name(to) {
            Some(sq) => sq,
            None => return false,
        };
        let candidate = BoardMove { from: from_sq, to: to_sq, promotion };
        proof {
            if moves@.contains(candidate) {
                let k = choose|k: int| 0 <= k < moves@.len() && moves@[k] == candidate;
                assert(crate::engine::generator_law(moves@[k], spec_piece_at(self.fen@, from_sq), spec_side_to_move(self.fen@)));
            }
        }
        let (kind, color) = match piece_at(&self.fen, from_sq) {
            Some(p) => p,
            None => return false,
        };
        if needs_promotion(&self.fen, from_sq, to_sq, kind) && promotion.is_none() {
            if allow_pending {
                self.promotion_pending = Some(MoveData { from: owned(from), to: owned(to), promotion: None });
                self.commentary = owned("Promotion available.");
            }
            return false;
        }
        if !contains_move(&moves, candidate) {
            self.commentary = owned("Invalid move.");
            return false;
        }
        self.commit_move(from, to, promotion, candidate, kind, color);
        true
    }

    /// Records a legal move: position, history, captures and boss hit points.
    fn record_move(&mut self, from: &str, to: &str, promotion: Option<PieceKind>, mv: BoardMove, kind: PieceKind, color: PlayerColor)
        -> (capture: Option<PieceKind>)
        requires
            old(self).wf(),
            mv.from < 64,
            mv.to < 64,
            spec_legal_moves(old(self).fen@).contains(mv),
            spec_square_from_name(from@) is Some,
            spec_square_from_name(to@) is Some,
        ensures
            final(self).wf(),
            capture == spec_captured_piece(old(self).fen@, mv, kind),
            ({
                let fen = spec_play(old(self).fen@, mv);
                let notation = spec_notation(kind, from@, to@, capture is Some, promotion);
                let new = *final(self);
                let old = *old(self);
                &&& new.fen@ == fen
                &&& new.history@.len() == old.history@.len() + 1
                &&& new.history@.drop_last() == old.history@
                &&& new.history@.last()@ == notation
                &&& new.history_uci@.len() == old.history_uci@.len() + 1
                &&& new.history_uci@.drop_last() == old.history_uci@
                &&& new.history_uci@.last()@ == spec_uci(from@, to@, promotion)
                &&& new.history_fen@.len() == old.history_fen@.len() + 1
                &&& new.history_fen@.drop_last() == old.history_fen@
                &&& new.history_fen@.last()@ == fen
                &&& (match new.last_move {
                    Some(m) => m.from@ == from@ && m.to@ == to@ && m.promotion == promotion,
                    None => false,
                })
                &&& (match capture {
                    Some(k) => if color == PlayerColor::White {
                        new.captured.white@ == old.captured.white@.push(k) && new.captured.black@ == old.captured.black@
                    } else {
                        new.captured.white@ == old.captured.white@ && new.captured.black@ == old.captured.black@.push(k)
                    },
                    None => new.captured.white@ == old.captured.white@ && new.captured.black@ == old.captured.black@,
                })
                &&& new.boss_state == spec_boss_after_capture(old.boss_state, capture is Some)
                &&& spec_side_to_move(fen) == spec_side_to_move(old.fen@).spec_opposite()
                &&& crate::engine::lists_board(fen)
                &&& new == (GameController {
                    fen: new.fen,
                    history: new.history,
                    history_uci: new.history_uci,
                    history_fen: new.history_fen,
                    last_move: new.last_move,
                    captured: new.captured,
                    boss_state: new.boss_state,
                    ..old
                })
            }),
    {
        let ghost old_self = *self;
        let capture_square = captured_square_for(&self.fen, mv.from, mv.to, kind);
        let capture: Option<PieceKind> = match capture_square {
            Some(sq) => match piece_at(&self.fen, sq) {
                Some((k, _)) => Some(k),
                None => None,
            },
            None => None,
        };
        let new_fen = play_move(&self.fen, mv);
        let uci = uci_for(from, to, promotion);
        let notation = notation_for(kind, from, to, capture.is_some(), promotion);
        self.fen = new_fen;
        self.history.push(notation);
        self.history_uci.push(uci);
        self.history_fen.push(self.fen.clone());
        self.last_move = Some(MoveData { from: owned(from), to: owned(to), promotion });
        match capture {
            Some(k) => {
                if color == PlayerColor::White {
                    self.captured.white.push(k);
                } else {
                    self.captured.black.push(k);
                }
                if self.boss_state.is_active {
                    self.boss_state.boss_hp = if self.boss_state.boss_hp > 150 {
                        self.boss_state.boss_hp - 150
                    } else {
                        0
                    };
                }
            },
            None => {},
        }
        proof {
            assert(self.history_uci@.drop_last() =~= old_self.history_uci@);
            assert(self.history@.drop_last() =~= old_self.history@);
            assert(self.history_fen@.drop_last() =~= old_self.history_fen@);
            assert(uci_text(spec_uci(from@, to@, promotion)));
            assert forall|i: int| 0 <= i < self.history_uci@.len() implies uci_text(#[trigger] self.history_uci@[i]@) by {
                if i < old_self.history_uci@.len() {
                    assert(self.history_uci@[i] == old_self.history_uci@[i]);
                }
            }
        }
        capture
    }

    /// Finishes a legal move: status, evaluation, cleared selection, the
    /// cinematic, the last action and the commentary.
    fn commit_move(&mut self, from: &str, to: &str, promotion: Option<PieceKind>, mv: BoardMove, kind: PieceKind, color: PlayerColor)
        requires
            old(self).wf(),
            spec_move_attempt(old(self).fen@, from@, to@, promotion) == MoveAttempt::Legal(mv, kind, color),
        ensures
            final(self).wf(),
            after_legal_move(*old(self), *final(self), from@, to@, promotion, mv, kind, color),
    {
        let ghost old_self = *self;
        let capture_square = captured_square_for(&self.fen, mv.from, mv.to, kind);
        let capture = self.record_move(from, to, promotion, mv, kind, color);
        let ghost recorded = *self;
        self.refresh_status();
        self.evaluation = evaluate_board(&self.fen);
        self.selected_square = None;
        self.valid_moves = Vec::new();
        self.hint_square = None;
        self.promotion_pending = None;
        let mate = self.is_game_over && self.winner.is_some();
        self.cinematic_mode = if mate {
            CinematicMode::GiantKingEnding
        } else if capture.is_some() {
            CinematicMode::KillCam
        } else {
            CinematicMode::Off
        };
        let captured_name = match capture_square {
            Some(sq) => Some(square_name(sq)),
            None => None,
        };
        self.last_action = Some(LastAction {
            action_type: if capture.is_some() { owned("capture") } else { owned("move") },
            from: owned(from),
            to: owned(to),
            piece: kind,
            captured_piece: capture,
            captured_square: captured_name,
            is_check: self.is_check,
            is_checkmate: mate,
        });
        self.commentary = self.move_commentary(color, to, capture.is_some(), kind, from, promotion);
        proof {
            reveal(after_legal_move);
        }
    }

    fn move_commentary(&self, color: PlayerColor, to: &str, capture: bool, kind: PieceKind, from: &str, promotion: Option<PieceKind>) -> (r: String)
        ensures
            r@ == spec_move_commentary(
                self.is_game_over,
                self.winner,
                self.is_check,
                capture,
                color,
                to@,
                spec_notation(kind, from@, to@, capture, promotion),
            ),
    {
        if self.is_game_over {
            match self.winner {
                Some(w) => crate::text::join3("CHECKMATE. ", w.label(), " wins."),
                None => owned("Draw."),
            }
        } else if self.is_check {
            owned("CHECK. The king is in danger.")
        } else if capture {
            let mut c = owned(color.label());
            c.append(" captures on ");
            c.append(to);
            c.append(".");
            c
        } else {
            let mut c = notation_for(kind, from, to, capture, promotion);
            c.append(" - ");
            c.append(color.label());
            c.append(" moves.");
            c
        }
    }

    /// Moves the puzzle cursor on past the player's move, playing the
    /// opponent's reply where the solution has one.
    fn advance_puzzle(&mut self)
        requires
            old(self).wf(),
            old(self).puzzle matches Some(p) ==> old(self).puzzle_move_index <= p.moves@.len(),
        ensures
            final(self).wf(),
            advanced(*old(self), *final(self)),
    {
        let puzzle = match self.puzzle {
            Some(p) => p,
            None => return,
        };
        self.puzzle_move_index = self.puzzle_move_index + 1;
        if self.puzzle_move_index >= puzzle.moves.len() {
            self.is_puzzle_solved = true;
            self.commentary = owned("Puzzle solved. Excellent work.");
            return;
        }
        if self.puzzle_move_index % 2 == 1 {
            let response: &str = puzzle.moves[self.puzzle_move_index];
            assert(uci_text(response@));
            let promotion = if response.unicode_len() > 4 {
                piece_from_promotion_char(response.get_char(4))
            } else {
                None
            };
            let from = crate::text::char_range(response, 0, 2);
            let to = crate::text::char_range(response, 2, 4);
            let ghost stepped = *self;
            let b = self.apply_move(from.as_str(), to.as_str(), promotion, false);
            let ghost mid = *self;
            proof {
                lemma_applied_frame(stepped, mid, from@, to@, promotion, false, b);
                assert(from@ == uci_parts(puzzle.moves@[stepped.puzzle_move_index as int]@).0);
                assert(to@ == uci_parts(puzzle.moves@[stepped.puzzle_move_index as int]@).1);
                assert(promotion == uci_parts(puzzle.moves@[stepped.puzzle_move_index as int]@).2);
                assert(applied(stepped, mid, from@, to@, promotion, false, b));
            }
            if b {
                self.puzzle_move_index = self.puzzle_move_index + 1;
                if self.puzzle_move_index >= puzzle.moves.len() {
                    self.is_puzzle_solved = true;
                    self.commentary = owned("Puzzle solved. Excellent work.");
                }
            }
        }
    }

    /// Plays the move from `from` to `to` (with `promotion` for a pawn that
    /// reaches its last rank). Nothing moves once the game is over or while
    /// a replay is shown; in a puzzle, only the next move of the solution is
    /// accepted, and the cursor then moves on.
    pub fn make_move(&mut self, from: &str, to: &str, promotion: Option<PieceKind>) -> (r: bool)
        requires
            old(self).wf(),
        ensures
            final(self).wf(),
            made_move(*old(self), *final(self), from@, to@, promotion, r),
            !(old(self).is_game_over || old(self).is_replay_mode) && !puzzle_refuses(*old(self), from@, to@, promotion)
                && legal_request(old(self).fen@, from@, to@, promotion) ==> r,
            r && old(self).game_mode != GameMode::Puzzles ==> final(self).turn == spec_side_to_move(old(self).fen@).spec_opposite(),
    {
        if self.is_game_over || self.is_replay_mode {
            return false;
        }
        if self.game_mode == GameMode::Puzzles && !self.is_puzzle_solved {
            match self.puzzle {
                Some(puzzle) => {
                    if self.puzzle_move_index < puzzle.moves.len() {
                        let expected: &str = puzzle.moves[self.puzzle_move_index];
                        let attempted = uci_for(from, to, promotion);
                        if !str_eq(expected, attempted.as_str()) {
                            self.commentary = owned("Incorrect move. Try again.");
                            self.selected_square = None;
                            self.valid_moves = Vec::new();
                            return false;
                        }
                    }
                },
                None => {},
            }
        }
        let ghost before = *self;
        let moved = self.apply_move(from, to, promotion, true);
        let ghost mid = *self;
        assert(applied(before, mid, from@, to@, promotion, true, moved));
        if !moved {
            return false;
        }
        proof {
            reveal(after_legal_move);
        }
        if self.game_mode == GameMode::Puzzles && !self.is_puzzle_solved {
            self.advance_puzzle();
        }
        true
    }

    /// Starts a match in `mode` at `difficulty`. A puzzle match opens
    /// puzzle `puzzle_index` of the puzzle set.
    pub fn init(&mut self, mode: GameMode, difficulty: Difficulty, player_name: &str, puzzle_index: usize)
        requires
            mode == GameMode::Puzzles ==> puzzle_index < crate::constants::PUZZLE_COUNT,
        ensures
            final(self).wf(),
            game_started(*final(self), mode, difficulty, player_name@, puzzle_index),
    {
        *self = Self::default();
        let ghost fresh = *self;
        self.game_mode = mode;
        self.difficulty = difficulty;
        self.commentary = crate::text::join3("Match started. Good luck, ", player_name, ".");
        if mode == GameMode::Boss {
            self.boss_state = BossState { is_active: true, boss_hp: 2000, max_hp: 2000, player_hp: 100 };
            self.difficulty = Difficulty::Hard;
        }
        let ghost base = *self;
        if mode == GameMode::Puzzles {
            self.load_puzzle(crate::constants::sample_puzzle(puzzle_index));
        }
        assert(is_new_game(fresh));
    }

    /// Starts the story chapter `chapter_id` (the first chapter where the
    /// story has no such chapter), opening with the chapter's introduction.
    pub fn start_story_chapter(&mut self, chapter_id: u32, player_name: &str)
        ensures
            final(self).wf(),
            ({
                let chapter = match crate::constants::spec_chapter_index(chapter_id) {
                    Some(i) => crate::constants::spec_story_chapter(i),
                    None => crate::constants::spec_story_chapter(0),
                };
                &&& exists|greeting: String|
                    #![trigger with_commentary(*final(self), greeting)]
                    game_started(
                        with_commentary(*final(self), greeting),
                        GameMode::Story,
                        chapter.difficulty,
                        player_name@,
                        0,
                    )
                &&& final(self).commentary@ == chapter.intro_text@
            }),
    {
        let chapter = match crate::constants::find_story_chapter(chapter_id) {
            Some(c) => c,
            None => crate::constants::story_chapter(0),
        };
        self.init(GameMode::Story, chapter.difficulty, player_name, 0);
        let ghost started = *self;
        self.commentary = owned(chapter.intro_text);
        assert(started == with_commentary(*self, started.commentary));
    }

    /// Opens `puzzle`: its position (the starting position where the crate
    /// refuses its FEN), an empty history, the solution cursor at its start,
    /// and the player on the side to move.
    ///
    /// The solution must be written in UCI, each move at least four ASCII
    /// characters, as every puzzle of the puzzle set is. The hint and the
    /// opponent's replies slice the first four characters of a solution
    /// move, which panics on a shorter one; the library asks for this when
    /// a puzzle is opened, not only when such a move is first read.
    pub fn load_puzzle(&mut self, puzzle: Puzzle)
        requires
            puzzle_well_formed(puzzle),
            old(self).wf(),
        ensures
            final(self).wf(),
            puzzle_loaded(*old(self), *final(self), puzzle),
    {
        self.fen = match crate::engine::board_fen(puzzle.fen) {
            Some(f) => f,
            None => default_board_fen(),
        };
        self.turn = side_to_move(&self.fen);
        self.history = Vec::new();
        self.history_uci = Vec::new();
        self.history_fen = vec![self.fen.clone()];
        self.puzzle = Some(puzzle);
        self.puzzle_move_index = 0;
        self.is_puzzle_solved = false;
        self.hint_square = None;
        self.player_color = self.turn;
        let mut c = crate::text::join3("Puzzle: ", puzzle.description, " (Rating: ");
        crate::text::push_decimal(&mut c, puzzle.rating as u64);
        c.append(")");
        self.commentary = c;
    }

    /// The position shown: the replayed one while a replay is shown.
    pub fn visible_fen(&self) -> (r: &str)
        ensures
            r@ == spec_visible_fen(*self),
    {
        if self.is_replay_mode && self.replay_index < self.history_fen.len() {
            self.history_fen[self.replay_index].as_str()
        } else {
            self.fen.as_str()
        }
    }

    /// The pieces of the position shown.
    pub fn pieces(&self) -> (r: Vec<crate::types::ChessPieceView>)
        requires
            !crate::squares::scan_placement(crate::squares::placement_field(spec_visible_fen(*self))).overflow,
        ensures
            r@.len() == crate::squares::scan_placement(crate::squares::placement_field(spec_visible_fen(*self))).pieces.len(),
            forall|i: int|
                0 <= i < r@.len() ==> {
                    let p = #[trigger] crate::squares::scan_placement(crate::squares::placement_field(spec_visible_fen(*self))).pieces[i];
                    &&& r@[i].kind == p.0
                    &&& r@[i].color == p.1
                    &&& r@[i].square@ == p.2
                },
    {
        crate::squares::pieces_from_fen(self.visible_fen())
    }

    /// Shows the replay, at the latest position.
    pub fn start_replay(&mut self)
        ensures
            replay_started(*old(self), *final(self)),
    {
        self.is_replay_mode = true;
        self.replay_index = if self.history_fen.len() > 0 { self.history_fen.len() - 1 } else { 0 };
        self.selected_square = None;
        self.valid_moves = Vec::new();
    }

    /// Leaves the replay, its cursor back at the latest position.
    pub fn stop_replay(&mut self)
        ensures
            *final(self) == (GameController {
                is_replay_mode: false,
                replay_index: final(self).replay_index,
                ..*old(self)
            }),
            final(self).replay_index == (if old(self).history_fen@.len() > 0 { old(self).history_fen@.len() - 1 } else { 0 }),
    {
        self.is_replay_mode = false;
        self.replay_index = if self.history_fen.len() > 0 { self.history_fen.len() - 1 } else { 0 };
    }

    /// Moves the replay cursor to `index`, if the history reaches it.
    pub fn set_replay_index(&mut self, index: usize)
        ensures
            *final(self) == (GameController {
                replay_index: if index < old(self).history_fen@.len() { index } else { old(self).replay_index },
                ..*old(self)
            }),
    {
        if index < self.history_fen.len() {
            self.replay_index = index;
        }
    }

    /// Moves the replay cursor one position on, no further than the latest.
    pub fn next_replay_move(&mut self)
        requires
            old(self).replay_index < usize::MAX,
        ensures
            *final(self) == replay_stepped_on(*old(self)),
    {
        let last = if self.history_fen.len() > 0 { self.history_fen.len() - 1 } else { 0 };
        let next = self.replay_index + 1;
        self.set_replay_index(if next < last { next } else { last });
    }

    /// Moves the replay cursor one position back, no further than the start.
    pub fn prev_replay_move(&mut self)
        ensures
            *final(self) == replay_stepped_back(*old(self)),
    {
        self.set_replay_index(if self.replay_index > 0 { self.replay_index - 1 } else { 0 });
    }

    /// Marks the source square of the next move of the puzzle's solution.
    pub fn show_puzzle_hint(&mut self)
        requires
            old(self).wf(),
        ensures
            final(self).wf(),
            match old(self).puzzle {
                Some(p) if old(self).puzzle_move_index < p.moves@.len() => {
                    &&& *final(self) == (GameController {
                        hint_square: final(self).hint_square,
                        commentary: final(self).commentary,
                        ..*old(self)
                    })
                    &&& final(self).hint_square matches Some(h)
                        && h@ == p.moves@[old(self).puzzle_move_index as int]@.subrange(0, 2)
                    &&& final(self).commentary@ == "Hint shown."@
                },
                _ => *final(self) == *old(self),
            },
    {
        match self.puzzle {
            Some(puzzle) => {
                if self.puzzle_move_index < puzzle.moves.len() {
                    let expected: &str = puzzle.moves[self.puzzle_move_index];
                    assert(uci_text(expected@));
                    self.hint_square = Some(crate::text::char_range(expected, 0, 2));
                    self.commentary = owned("Hint shown.");
                }
            },
            None => {},
        }
    }

    /// Whether the engine should move now on its own.
    pub fn should_auto_bot_move(&self) -> (r: bool)
        ensures
            r == spec_should_auto_bot_move(*self),
    {
        (self.game_mode == GameMode::PlayerVsAi || self.game_mode == GameMode::Story || self.game_mode == GameMode::Boss)
            && !self.is_game_over && self.turn != self.player_color
    }

    /// Whether the engine, not the player, moves next in this mode.
    fn is_engine_turn(&self) -> (r: bool)
        ensures
            r == spec_is_engine_turn(*self),
    {
        (self.game_mode == GameMode::PlayerVsAi || self.game_mode == GameMode::Story || self.game_mode == GameMode::Boss
            || self.game_mode == GameMode::Puzzles) && self.turn != self.player_color
    }

    /// Selects `square` to move from, listing where its piece can go.
    pub fn select_square(&mut self, square: &str)
        ensures
            selected(*old(self), *final(self), square@),
    {
        if self.is_game_over || self.is_replay_mode || self.is_puzzle_solved {
            return;
        }
        if self.is_engine_turn() {
            return;
        }
        let same = match &self.selected_square {
            Some(s) => str_eq(s.as_str(), square),
            None => false,
        };
        if same {
            self.selected_square = None;
            self.valid_moves = Vec::new();
            return;
        }
        let sq = match square_from_name(square) {
            Some(sq) => sq,
            None => return,
        };
        let own = match piece_at(&self.fen, sq) {
            Some((_, c)) => c == self.turn,
            None => false,
        };
        if !own {
            self.selected_square = None;
            self.valid_moves = Vec::new();
            return;
        }
        self.selected_square = Some(owned(square));
        let moves = legal_moves(&self.fen);
        let mut targets: Vec<String> = Vec::new();
        let mut i: usize = 0;
        while i < moves.len()
            invariant
                i <= moves@.len(),
                forall|j: int| 0 <= j < moves@.len() ==> crate::engine::generated_move(#[trigger] moves@[j]),
                names_are(targets@, spec_targets(moves@.take(i as int), sq)),
            decreases moves@.len() - i,
        {
            assert(moves@.take(i + 1).drop_last() =~= moves@.take(i as int));
            if moves[i].from == sq {
                assert(crate::engine::generated_move(moves@[i as int]));
                targets.push(square_name(moves[i].to));
            }
            i = i + 1;
        }
        assert(moves@.take(moves@.len() as int) =~= moves@);
        self.valid_moves = targets;
    }

    /// Whether `square` is among the squares the selection can move to.
    fn targets_contain(&self, square: &str) -> (r: bool)
        ensures
            r == is_target(*self, square@),
    {
        let mut i: usize = 0;
        while i < self.valid_moves.len()
            invariant
                i <= self.valid_moves@.len(),
                forall|j: int| 0 <= j < i ==> self.valid_moves@[j]@ != square@,
            decreases self.valid_moves@.len() - i,
        {
            if str_eq(self.valid_moves[i].as_str(), square) {
                return true;
            }
            i = i + 1;
        }
        false
    }

    /// Handles a click on `square`: moves the selected piece there when it
    /// can go there, otherwise selects the square.
    pub fn click_square(&mut self, square: &str) -> (r: bool)
        requires
            old(self).wf(),
        ensures
            final(self).wf(),
            clicked(*old(self), *final(self), square@, r),
    {
        match self.selected_square.clone() {
            Some(from) => {
                if self.targets_contain(square) {
                    return self.make_move(from.as_str(), square, None);
                }
            },
            None => {},
        }
        self.select_square(square);
        false
    }

    /// Completes the pending promotion with `promotion`.
    pub fn set_promotion(&mut self, promotion: PieceKind) -> (r: bool)
        requires
            old(self).wf(),
        ensures
            final(self).wf(),
            match old(self).promotion_pending {
                Some(m) => made_move(
                    GameController { promotion_pending: None, ..*old(self) },
                    *final(self),
                    m.from@,
                    m.to@,
                    Some(promotion),
                    r,
                ),
                None => !r && *final(self) == *old(self),
            },
    {
        let pending = match self.promotion_pending.take() {
            Some(m) => m,
            None => return false,
        };
        self.make_move(pending.from.as_str(), pending.to.as_str(), Some(promotion))
    }

    /// Takes back the last move (the last two against the engine).
    #[verifier::rlimit(40)]
    #[verifier::spinoff_prover]
    pub fn undo(&mut self)
        requires
            old(self).wf(),
        ensures
            final(self).wf(),
            undone(*old(self), *final(self)),
    {
        let ghost old_self = *self;
        let remove_count: usize = if self.game_mode == GameMode::PlayerVsAi || self.game_mode == GameMode::Story
            || self.game_mode == GameMode::Boss { 2 } else { 1 };
        let mut n: usize = 0;
        while n < remove_count && self.history_fen.len() > 1 && self.history_uci.len() > 0
            invariant
                n <= remove_count,
                remove_count <= 2,
                remove_count == (if old_self.game_mode == GameMode::PlayerVsAi || old_self.game_mode == GameMode::Story
                    || old_self.game_mode == GameMode::Boss { 2usize } else { 1usize }),
                n <= undo_count(old_self),
                self.history_fen@ == old_self.history_fen@.take(old_self.history_fen@.len() - n),
                self.history_uci@ == old_self.history_uci@.take(old_self.history_uci@.len() - n),
                self.history@ == old_self.history@.take(if old_self.history@.len() >= n { old_self.history@.len() - n } else { 0 }),
                *self == (GameController {
                    history: self.history,
                    history_uci: self.history_uci,
                    history_fen: self.history_fen,
                    ..old_self
                }),
                old_self.wf(),
            decreases remove_count - n,
        {
            self.history_fen.pop();
            self.history.pop();
            self.history_uci.pop();
            n = n + 1;
        }
        assert(n == undo_count(old_self));
        let text: String = if self.history_fen.len() > 0 {
            self.history_fen[self.history_fen.len() - 1].clone()
        } else {
            owned(START_FEN)
        };
        self.fen = match crate::engine::board_fen(text.as_str()) {
            Some(f) => f,
            None => default_board_fen(),
        };
        self.refresh_status();
        self.last_move = None;
        self.last_action = None;
        self.cinematic_mode = CinematicMode::Off;
        self.recalculate_captured();
        self.selected_square = None;
        self.valid_moves = Vec::new();
    }

    /// Recounts the captures by replaying the recorded moves.
    fn recalculate_captured(&mut self)
        requires
            old(self).wf(),
        ensures
            final(self).captured.white@ == replay(views(old(self).history_uci@)).white,
            final(self).captured.black@ == replay(views(old(self).history_uci@)).black,
            *final(self) == (GameController { captured: final(self).captured, ..*old(self) }),
    {
        let ghost ucis = views(self.history_uci@);
        let mut white: Vec<PieceKind> = Vec::new();
        let mut black: Vec<PieceKind> = Vec::new();
        let mut fen = default_board_fen();
        let mut i: usize = 0;
        while i < self.history_uci.len()
            invariant
                i <= self.history_uci@.len(),
                ucis == views(self.history_uci@),
                forall|j: int| 0 <= j < self.history_uci@.len() ==> uci_text(#[trigger] self.history_uci@[j]@),
                replay(ucis.take(i as int)) == (ReplayState { fen: fen@, white: white@, black: black@ }),
            decreases self.history_uci@.len() - i,
        {
            let uci: &str = self.history_uci[i].as_str();
            assert(uci_text(uci@));
            assert(ucis.take(i + 1).drop_last() =~= ucis.take(i as int));
            assert(ucis.take(i + 1).last() == uci@);
            let from = crate::text::char_range(uci, 0, 2);
            let to = crate::text::char_range(uci, 2, 4);
            let promotion = if uci.unicode_len() > 4 {
                piece_from_promotion_char(uci.get_char(4))
            } else {
                None
            };
            match (square_from_name(from.as_str()), square_from_name(to.as_str())) {
                (Some(fs), Some(ts)) => {
                    match piece_at(fen.as_str(), fs) {
                        Some((kind, color)) => {
                            let capture_square = captured_square_for(fen.as_str(), fs, ts, kind);
                            let capture: Option<PieceKind> = match capture_square {
                                Some(sq) => match piece_at(fen.as_str(), sq) {
                                    Some((k, _)) => Some(k),
                                    None => None,
                                },
                                None => None,
                            };
                            match capture {
                                Some(k) => {
                                    if color == PlayerColor::White {
                                        white.push(k);
                                    } else {
                                        black.push(k);
                                    }
                                },
                                None => {},
                            }
                            let mv = BoardMove { from: fs, to: ts, promotion };
                            let moves = legal_moves(fen.as_str());
                            if contains_move(&moves, mv) {
                                fen = play_move(fen.as_str(), mv);
                            }
                        },
                        None => {},
                    }
                },
                _ => {},
            }
            i = i + 1;
        }
        assert(ucis.take(self.history_uci@.len() as int) =~= ucis);
        self.captured = CapturedPieces { white, black };
    }

    /// Loads a move list in UCI (white-space separated) into a fresh match
    /// between two players and shows its replay.
    pub fn load_replay_from_uci(&mut self, moves: &str)
        ensures
            final(self).wf(),
            replay_loaded(*final(self), moves@),
    {
        self.init(GameMode::PlayerVsPlayer, Difficulty::Medium, "Player", 0);
        let tokens = crate::text::split_words(moves);
        let ghost ws = crate::text::words(moves@);
        let ghost mut states: Seq<GameController> = seq![*self];
        let mut i: usize = 0;
        while i < tokens.len()
            invariant
                i <= tokens@.len(),
                tokens@.len() == ws.len(),
                forall|j: int| 0 <= j < tokens@.len() ==> #[trigger] tokens@[j]@ == ws[j],
                self.wf(),
                states.len() == i + 1,
                states[i as int] == *self,
                game_started(states[0], GameMode::PlayerVsPlayer, Difficulty::Medium, "Player"@, 0),
                forall|j: int| 0 <= j < i ==> #[trigger] token_step(states[j], states[j + 1], ws[j]),
            decreases tokens@.len() - i,
        {
            let token = &tokens[i];
            let ghost before = *self;
            assert(token@ == ws[i as int]);
            let head = token.len() >= 4 && token[0] < '\u{80}' && token[1] < '\u{80}' && token[2] < '\u{80}'
                && token[3] < '\u{80}';
            if head {
                let from_chars = vec![token[0], token[1]];
                let to_chars = vec![token[2], token[3]];
                let from = crate::text::string_of(&from_chars);
                let to = crate::text::string_of(&to_chars);
                let promotion = if token.len() > 4 {
                    piece_from_promotion_char(token[4])
                } else {
                    None
                };
                proof {
                    let t = ws[i as int];
                    assert(from@ =~= t.subrange(0, 2));
                    assert(to@ =~= t.subrange(2, 4));
                    assert(ascii_head(t)) by {
                        assert forall|k: int| 0 <= k < 4 implies (t[k] as int) < 128 by {
                            if k == 0 {} else if k == 1 {} else if k == 2 {} else {}
                        }
                    }
                }
                let r = self.apply_move(from.as_str(), to.as_str(), promotion, true);
                proof {
                    let t = ws[i as int];
                    assert(uci_parts(t).0 == from@);
                    assert(uci_parts(t).1 == to@);
                    assert(uci_parts(t).2 == promotion);
                    assert(applied(before, *self, from@, to@, promotion, true, r));
                    assert(token_step(before, *self, t));
                }
            } else {
                proof {
                    let t = ws[i as int];
                    if ascii_head(t) {
                        assert((t[0] as int) < 128);
                        assert((t[1] as int) < 128);
                        assert((t[2] as int) < 128);
                        assert((t[3] as int) < 128);
                    }
                }
            }
            proof {
                assert(token_step(before, *self, ws[i as int]));
                states = states.push(*self);
            }
            i = i + 1;
        }
        let ghost last = *self;
        self.start_replay();
        assert(states.len() == ws.len() + 1);
    }

    /// Lets the engine play its move, drawing on `rolls`.
    pub fn make_bot_move(&mut self, rolls: crate::bot::BotRolls) -> (r: bool)
        requires
            old(self).wf(),
        ensures
            final(self).wf(),
            old(self).is_game_over ==> !r && *final(self) == *old(self),
            !old(self).is_game_over ==> match crate::bot::spec_bot_choice(old(self).fen@, old(self).difficulty, rolls) {
                None => !r && *final(self) == *old(self),
                Some(mv) => applied(
                    *old(self),
                    *final(self),
                    spec_square_name(mv.from),
                    spec_square_name(mv.to),
                    mv.promotion,
                    false,
                    r,
                ),
            },
            !old(self).is_game_over && crate::bot::spec_bot_choice(old(self).fen@, old(self).difficulty, rolls) is Some ==> r,
            r ==> final(self).turn == spec_side_to_move(old(self).fen@).spec_opposite(),
    {
        if self.is_game_over {
            return false;
        }
        let mv = match crate::bot::choose_bot_move(self.fen.as_str(), self.difficulty, rolls) {
            Some(mv) => mv,
            None => return false,
        };
        let from = square_name(mv.from);
        let to = square_name(mv.to);
        proof {
            crate::laws::lemma_square_name_round_trip(mv.from);
            crate::laws::lemma_square_name_round_trip(mv.to);
            reveal(after_legal_move);
        }
        self.apply_move(from.as_str(), to.as_str(), mv.promotion, false)
    }
}

/// The board the crate starts from, written back as FEN.
fn default_board_fen() -> (r: String)
    ensures
        r@ == spec_default_board_fen(),
{
    match crate::engine::board_fen(START_FEN) {
        Some(f) => f,
        None => owned(START_FEN),
    }
}

impl Default for GameController {
    fn default() -> (r: Self)
        ensures
            is_new_game(r),
            r.wf(),
    {
        GameController {
            fen: owned(START_FEN),
            turn: PlayerColor::White,
            is_check: false,
            is_game_over: false,
            winner: None,
            is_draw: false,
            history: Vec::new(),
            history_uci: Vec::new(),
            history_fen: vec![owned(START_FEN)],
            captured: CapturedPieces::default(),
            evaluation: 0,
            selected_square: None,
            valid_moves: Vec::new(),
            last_move: None,
            last_action: None,
            cinematic_mode: CinematicMode::Off,
            commentary: owned("Welcome to Royal 3D Chess."),
            game_mode: GameMode::PlayerVsPlayer,
            difficulty: Difficulty::Medium,
            player_color: PlayerColor::White,
            camera_mode: CameraMode::Orbit,
            promotion_pending: None,
            is_replay_mode: false,
            replay_index: 0,
            boss_state: BossState::default(),
            puzzle: None,
            puzzle_move_index: 0,
            is_puzzle_solved: false,
            hint_square: None,
        }
    }
}

} // verus!
