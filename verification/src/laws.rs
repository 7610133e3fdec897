//! Properties that tie the library's operations together.
use vstd::prelude::*;

use crate::app::{match_recorded, story_unlocked, AppModel};
use crate::game::{
    advanced, after_legal_move, applied, clicked, is_target, made_move, selected, views, spec_default_board_fen, undo_count, undone,
    lemma_applied_frame, spec_is_engine_turn, spec_promotion_char, spec_targets, replay_stepped_back, replay_stepped_on, GameController, MoveAttempt,
};
use crate::menu::{lemma_trimmed_idempotent, spec_name_or_player, trim_end, trim_start, trimmed};
use crate::squares::{spec_square_from_name, spec_square_name};
use crate::bot::{spec_evaluate, spec_minimax, spec_piece_value, spec_rank_score, spec_tactical_bonus};
use crate::engine::{lists_board, spec_in_check, spec_legal_moves, spec_piece_at, spec_play, spec_side_to_move, spec_status, BoardMove, GameStatus};
use crate::storage::spec_matches_key;
use crate::types::{BossState, GameMode, PieceKind, PlayerColor};

verus! {

/// The opposite of the opposite color is the color itself, and no color
/// is its own opposite.
pub proof fn lemma_opposite_involution(c: PlayerColor)
    ensures
        c.spec_opposite().spec_opposite() == c,
        c.spec_opposite() != c,
{
}

/// Reading the name of a square gives back the square.
pub proof fn lemma_square_name_round_trip(sq: u8)
    requires
        sq < 64,
    ensures
        spec_square_from_name(spec_square_name(sq)) == Some(sq),
{
    let name = spec_square_name(sq);
    assert(name[0] == ((sq % 8) + 97) as char);
    assert(name[1] == ((sq / 8) + 49) as char);
}

/// A lower-case square name is the name of the square it reads as.
pub proof fn lemma_lowercase_name_round_trip(name: Seq<char>)
    requires
        spec_square_from_name(name) is Some,
        'a' <= name[0] && name[0] <= 'h',
    ensures
        spec_square_name(spec_square_from_name(name).unwrap()) =~= name,
{
    let sq = spec_square_from_name(name).unwrap();
    let f = name[0] as int - 'a' as int;
    let k = name[1] as int - '1' as int;
    assert(sq == k * 8 + f);
    assert(sq % 8 == f) by (nonlinear_arith)
        requires
            sq == k * 8 + f,
            0 <= f < 8,
            0 <= k < 8;
    assert(sq / 8 == k) by (nonlinear_arith)
        requires
            sq == k * 8 + f,
            0 <= f < 8,
            0 <= k < 8;
}

/// A move that `make_move` refuses leaves the position, the recorded
/// moves, the positions and the captures as they were.
pub proof fn lemma_refused_move_keeps_position(
    old: GameController,
    new: GameController,
    from: Seq<char>,
    to: Seq<char>,
    promotion: Option<PieceKind>,
)
    requires
        made_move(old, new, from, to, promotion, false),
    ensures
        new.fen == old.fen,
        new.history == old.history,
        new.history_uci == old.history_uci,
        new.history_fen == old.history_fen,
        new.captured == old.captured,
        new.is_puzzle_solved == old.is_puzzle_solved,
{
    if !(old.is_game_over || old.is_replay_mode) && !crate::game::puzzle_refuses(old, from, to, promotion) {
        let mid = choose|mid: GameController|
            #![trigger applied(old, mid, from, to, promotion, true, false)]
            applied(old, mid, from, to, promotion, true, false) && if false && mid.game_mode == GameMode::Puzzles
                && !mid.is_puzzle_solved {
                crate::game::advanced(mid, new)
            } else {
                new == mid
            };
        lemma_applied_frame(old, mid, from, to, promotion, true, false);
    }
}

/// Where no engine replies and no puzzle answers (two players at one
/// board, a battle or a local room), an undo right after a move played
/// through `make_move` takes back exactly that move: the recorded moves,
/// their notation and the positions are those from before it, and the
/// position is read back from the last of them.
pub proof fn lemma_undo_reverses_move(
    g0: GameController,
    g1: GameController,
    g2: GameController,
    from: Seq<char>,
    to: Seq<char>,
    promotion: Option<PieceKind>,
)
    requires
        g0.game_mode == GameMode::PlayerVsPlayer || g0.game_mode == GameMode::Battle
            || g0.game_mode == GameMode::OnlineLocal,
        g0.history_fen@.len() >= 1,
        made_move(g0, g1, from, to, promotion, true),
        undone(g1, g2),
    ensures
        g2.history@ == g0.history@,
        g2.history_uci@ == g0.history_uci@,
        g2.history_fen@ == g0.history_fen@,
        g2.fen@ == (match crate::engine::spec_board_fen(g0.history_fen@.last()@) {
            Some(f) => f,
            None => spec_default_board_fen(),
        }),
{
    reveal(after_legal_move);
    assert(!(g0.is_game_over || g0.is_replay_mode));
    assert(!crate::game::puzzle_refuses(g0, from, to, promotion));
    let mid = choose|mid: GameController|
        #![trigger applied(g0, mid, from, to, promotion, true, true)]
        applied(g0, mid, from, to, promotion, true, true) && if true && mid.game_mode == GameMode::Puzzles
            && !mid.is_puzzle_solved {
            crate::game::advanced(mid, g1)
        } else {
            g1 == mid
        };
    match crate::game::spec_move_attempt(g0.fen@, from, to, promotion) {
        MoveAttempt::Legal(mv, kind, color) => {
            assert(g1 == mid);
            assert(undo_count(g1) == 1);
            assert(g1.history_fen@.take(g1.history_fen@.len() - 1) =~= g0.history_fen@);
            assert(g1.history_uci@.take(g1.history_uci@.len() - 1) =~= g0.history_uci@);
            assert(g1.history@.take(g1.history@.len() - 1) =~= g0.history@);
        },
        _ => {},
    }
}

/// A finished match is recorded once: recording again, with the match
/// unchanged, adds nothing.
pub proof fn lemma_match_recorded_once(
    a: AppModel,
    b: AppModel,
    c: AppModel,
    id1: u64,
    date1: Seq<char>,
    saves1: Seq<Seq<char>>,
    id2: u64,
    date2: Seq<char>,
    saves2: Seq<Seq<char>>,
)
    requires
        a.game.history_uci@.len() > 0,
        match_recorded(a, b, id1, date1, saves1),
        match_recorded(b, c, id2, date2, saves2),
    ensures
        c.matches == b.matches,
        saves2.len() == 0,
{
}

/// Whether no chapter is listed twice.
pub open spec fn no_repeats(s: Seq<u32>) -> bool {
    forall|i: int, j: int| 0 <= i < j < s.len() ==> s[i] != s[j]
}

/// A story chapter is completed at most once: unlocking keeps the list of
/// completed chapters free of repeats.
pub proof fn lemma_chapter_completed_once(a: AppModel, b: AppModel, saves: Seq<Seq<char>>)
    requires
        no_repeats(a.campaign_progress.completed_chapters@),
        story_unlocked(a, b, saves),
    ensures
        no_repeats(b.campaign_progress.completed_chapters@),
{
    let p = a.campaign_progress.completed_chapters@;
    let q = b.campaign_progress.completed_chapters@;
    if q != p {
        let id = a.campaign_progress.current_chapter;
        assert(q == p.push(id));
        assert forall|i: int, j: int| 0 <= i < j < q.len() implies q[i] != q[j] by {
            if j == q.len() - 1 {
                assert(q[i] == p[i]);
                if p[i] == id {
                    assert(p.contains(id));
                }
            } else {
                assert(q[i] == p[i] && q[j] == p[j]);
            }
        }
    }
}

/// Taking a boss's piece never leaves it below zero hit points, and never
/// heals it.
pub proof fn lemma_boss_hp_stays_in_range(boss: BossState, capture: bool)
    requires
        boss.boss_hp >= 0,
    ensures
        crate::game::spec_boss_after_capture(boss, capture).boss_hp >= 0,
        crate::game::spec_boss_after_capture(boss, capture).boss_hp <= boss.boss_hp,
{
}

/// Different players keep their match histories under different keys.
pub proof fn lemma_matches_key_injective(a: Seq<char>, b: Seq<char>)
    requires
        spec_matches_key(a) == spec_matches_key(b),
    ensures
        a == b,
{
    let prefix = crate::storage::MATCHES_KEY@ + "_"@;
    assert(spec_matches_key(a).subrange(prefix.len() as int, spec_matches_key(a).len() as int) =~= a);
    assert(spec_matches_key(b).subrange(prefix.len() as int, spec_matches_key(b).len() as int) =~= b);
}

/// In a replay, a step on from any position before the latest one and a
/// step back return to that position; every other part of the game stays
/// as it was.
pub proof fn lemma_replay_step_on_then_back(g: GameController)
    requires
        g.replay_index + 1 < g.history_fen@.len(),
    ensures
        replay_stepped_back(replay_stepped_on(g)) == g,
{
    assert(g.history_fen@.len() == g.history_fen.len());
    let g1 = replay_stepped_on(g);
    assert(g1.replay_index == g.replay_index + 1);
    let g2 = replay_stepped_back(g1);
    assert(g2.replay_index == g.replay_index);
    assert(g2 == g);
}

/// Stepping back from any position after the first and then on returns to
/// that position.
pub proof fn lemma_replay_step_back_then_on(g: GameController)
    requires
        0 < g.replay_index < g.history_fen@.len(),
    ensures
        replay_stepped_on(replay_stepped_back(g)) == g,
{
    let g1 = replay_stepped_back(g);
    assert(g1.replay_index == g.replay_index - 1);
    let g2 = replay_stepped_on(g1);
    assert(g2.replay_index == g.replay_index);
    assert(g2 == g);
}

/// Typing again the name that was taken from what the player typed gives
/// the same name.
pub proof fn lemma_name_or_player_idempotent(value: Seq<char>)
    ensures
        spec_name_or_player(spec_name_or_player(value)) == spec_name_or_player(value),
{
    lemma_trimmed_idempotent(value);
    let player = "Player"@;
    if trimmed(value).len() == 0 {
        reveal_strlit("Player");
        assert(trim_start(player) == player);
        assert(trim_end(player) == player);
    }
}

/// Against the engine (a match with the engine, a story chapter or a
/// boss), an undo after the player's move and the engine's reply takes
/// back both: the recorded moves, their notation and the positions are
/// those from before the player's move, and the position is read back
/// from the last of them.
pub proof fn lemma_undo_reverses_move_and_reply(
    g0: GameController,
    g1: GameController,
    g2: GameController,
    g3: GameController,
    from: Seq<char>,
    to: Seq<char>,
    promotion: Option<PieceKind>,
    reply_from: Seq<char>,
    reply_to: Seq<char>,
    reply_promotion: Option<PieceKind>,
)
    requires
        g0.game_mode == GameMode::PlayerVsAi || g0.game_mode == GameMode::Story
            || g0.game_mode == GameMode::Boss,
        g0.history_fen@.len() >= 1,
        made_move(g0, g1, from, to, promotion, true),
        applied(g1, g2, reply_from, reply_to, reply_promotion, false, true),
        undone(g2, g3),
    ensures
        g3.history@ == g0.history@,
        g3.history_uci@ == g0.history_uci@,
        g3.history_fen@ == g0.history_fen@,
        g3.fen@ == (match crate::engine::spec_board_fen(g0.history_fen@.last()@) {
            Some(f) => f,
            None => spec_default_board_fen(),
        }),
{
    reveal(after_legal_move);
    assert(!(g0.is_game_over || g0.is_replay_mode));
    assert(!crate::game::puzzle_refuses(g0, from, to, promotion));
    let mid = choose|mid: GameController|
        #![trigger applied(g0, mid, from, to, promotion, true, true)]
        applied(g0, mid, from, to, promotion, true, true) && if true && mid.game_mode == GameMode::Puzzles
            && !mid.is_puzzle_solved {
            crate::game::advanced(mid, g1)
        } else {
            g1 == mid
        };
    match crate::game::spec_move_attempt(g0.fen@, from, to, promotion) {
        MoveAttempt::Legal(mv, kind, color) => {
            assert(g1 == mid);
            match crate::game::spec_move_attempt(g1.fen@, reply_from, reply_to, reply_promotion) {
                MoveAttempt::Legal(mv2, kind2, color2) => {
                    assert(g2.history_fen@.len() == g0.history_fen@.len() + 2);
                    assert(undo_count(g2) == 2);
                    assert(g2.history_fen@.take(g2.history_fen@.len() - 2) =~= g0.history_fen@) by {
                        assert(g2.history_fen@.drop_last() == g1.history_fen@);
                        assert(g1.history_fen@.drop_last() == g0.history_fen@);
                        assert(g2.history_fen@.take(g2.history_fen@.len() - 2) =~= g1.history_fen@.drop_last());
                    }
                    assert(g2.history_uci@.take(g2.history_uci@.len() - 2) =~= g0.history_uci@) by {
                        assert(g2.history_uci@.drop_last() == g1.history_uci@);
                        assert(g1.history_uci@.drop_last() == g0.history_uci@);
                        assert(g2.history_uci@.take(g2.history_uci@.len() - 2) =~= g1.history_uci@.drop_last());
                    }
                    assert(g2.history@.take(g2.history@.len() - 2) =~= g0.history@) by {
                        assert(g2.history@.drop_last() == g1.history@);
                        assert(g1.history@.drop_last() == g0.history@);
                        assert(g2.history@.take(g2.history@.len() - 2) =~= g1.history@.drop_last());
                    }
                },
                _ => {},
            }
        },
        _ => {},
    }
}

/// Two games that show the same: the same position, status, recorded
/// moves and positions, captures, evaluation, commentary and puzzle
/// progress.
pub open spec fn same_outcome(a: GameController, b: GameController) -> bool {
    &&& a.fen@ == b.fen@
    &&& a.turn == b.turn
    &&& a.is_check == b.is_check
    &&& a.is_game_over == b.is_game_over
    &&& a.winner == b.winner
    &&& a.is_draw == b.is_draw
    &&& views(a.history@) == views(b.history@)
    &&& views(a.history_uci@) == views(b.history_uci@)
    &&& views(a.history_fen@) == views(b.history_fen@)
    &&& a.captured.white@ == b.captured.white@
    &&& a.captured.black@ == b.captured.black@
    &&& a.evaluation == b.evaluation
    &&& a.boss_state == b.boss_state
    &&& a.commentary@ == b.commentary@
    &&& a.promotion_pending is Some == b.promotion_pending is Some
    &&& a.game_mode == b.game_mode
    &&& a.puzzle_move_index == b.puzzle_move_index
    &&& a.is_puzzle_solved == b.is_puzzle_solved
}

proof fn lemma_pushed_views(oa: Seq<String>, ob: Seq<String>, a: Seq<String>, b: Seq<String>)
    requires
        views(oa) == views(ob),
        a.len() == oa.len() + 1,
        b.len() == ob.len() + 1,
        a.drop_last() == oa,
        b.drop_last() == ob,
        a.last()@ == b.last()@,
    ensures
        views(a) == views(b),
{
    assert(views(oa).len() == oa.len() && views(ob).len() == ob.len());
    assert forall|i: int| 0 <= i < a.len() implies #[trigger] views(a)[i] == views(b)[i] by {
        if i < oa.len() {
            assert(a[i] == a.drop_last()[i]);
            assert(b[i] == b.drop_last()[i]);
            assert(views(oa)[i] == views(ob)[i]);
        }
    }
    assert(views(a) =~= views(b));
}

/// Attempts at the same move in two games that show the same agree on
/// whether the move is played and on what the games then show.
proof fn lemma_applied_agree(
    o1: GameController,
    o2: GameController,
    n1: GameController,
    n2: GameController,
    from: Seq<char>,
    to: Seq<char>,
    promotion: Option<PieceKind>,
    allow_pending: bool,
    r1: bool,
    r2: bool,
)
    requires
        same_outcome(o1, o2),
        applied(o1, n1, from, to, promotion, allow_pending, r1),
        applied(o2, n2, from, to, promotion, allow_pending, r2),
    ensures
        r1 == r2,
        same_outcome(n1, n2),
{
    reveal(after_legal_move);
    match crate::game::spec_move_attempt(o1.fen@, from, to, promotion) {
        MoveAttempt::Legal(mv, kind, color) => {
            lemma_pushed_views(o1.history@, o2.history@, n1.history@, n2.history@);
            lemma_pushed_views(o1.history_uci@, o2.history_uci@, n1.history_uci@, n2.history_uci@);
            lemma_pushed_views(o1.history_fen@, o2.history_fen@, n1.history_fen@, n2.history_fen@);
        },
        _ => {},
    }
}

/// An attempt to move in a game fixes what the game then shows, and
/// whether the move was played.
pub proof fn lemma_applied_determined(
    old: GameController,
    n1: GameController,
    n2: GameController,
    from: Seq<char>,
    to: Seq<char>,
    promotion: Option<PieceKind>,
    allow_pending: bool,
    r1: bool,
    r2: bool,
)
    requires
        applied(old, n1, from, to, promotion, allow_pending, r1),
        applied(old, n2, from, to, promotion, allow_pending, r2),
    ensures
        r1 == r2,
        same_outcome(n1, n2),
{
    lemma_applied_agree(old, old, n1, n2, from, to, promotion, allow_pending, r1, r2);
}

/// Moving the puzzle cursor on in two games that show the same and hold
/// the same puzzle leaves them showing the same.
#[verifier::rlimit(80)]
#[verifier::spinoff_prover]
proof fn lemma_advanced_agree(m1: GameController, m2: GameController, n1: GameController, n2: GameController)
    requires
        same_outcome(m1, m2),
        m1.puzzle == m2.puzzle,
        advanced(m1, n1),
        advanced(m2, n2),
    ensures
        same_outcome(n1, n2),
{
    match m1.puzzle {
        None => {},
        Some(p) => {
            let i = m1.puzzle_move_index + 1;
            if i < p.moves@.len() && i % 2 == 1 {
                let (f, t, promotion) = crate::game::uci_parts(p.moves@[i]@);
                let s1 = GameController { puzzle_move_index: i as usize, ..m1 };
                let s2 = GameController { puzzle_move_index: i as usize, ..m2 };
                let (q1, b1) = choose|mid: GameController, b: bool|
                    #![trigger applied(s1, mid, f, t, promotion, false, b)]
                    applied(s1, mid, f, t, promotion, false, b) && if b {
                        if i + 1 >= p.moves@.len() {
                            &&& n1 == (GameController {
                                puzzle_move_index: (i + 1) as usize,
                                is_puzzle_solved: true,
                                commentary: n1.commentary,
                                ..mid
                            })
                            &&& n1.commentary@ == "Puzzle solved. Excellent work."@
                        } else {
                            n1 == (GameController { puzzle_move_index: (i + 1) as usize, ..mid })
                        }
                    } else {
                        n1 == mid
                    };
                let (q2, b2) = choose|mid: GameController, b: bool|
                    #![trigger applied(s2, mid, f, t, promotion, false, b)]
                    applied(s2, mid, f, t, promotion, false, b) && if b {
                        if i + 1 >= p.moves@.len() {
                            &&& n2 == (GameController {
                                puzzle_move_index: (i + 1) as usize,
                                is_puzzle_solved: true,
                                commentary: n2.commentary,
                                ..mid
                            })
                            &&& n2.commentary@ == "Puzzle solved. Excellent work."@
                        } else {
                            n2 == (GameController { puzzle_move_index: (i + 1) as usize, ..mid })
                        }
                    } else {
                        n2 == mid
                    };
                lemma_applied_agree(s1, s2, q1, q2, f, t, promotion, false, b1, b2);
            }
        },
    }
}

/// `make_move` fixes what the game then shows, and whether the move was
/// played.
pub proof fn lemma_made_move_determined(
    old: GameController,
    n1: GameController,
    n2: GameController,
    from: Seq<char>,
    to: Seq<char>,
    promotion: Option<PieceKind>,
    r1: bool,
    r2: bool,
)
    requires
        made_move(old, n1, from, to, promotion, r1),
        made_move(old, n2, from, to, promotion, r2),
    ensures
        r1 == r2,
        same_outcome(n1, n2),
{
    if !(old.is_game_over || old.is_replay_mode) && !crate::game::puzzle_refuses(old, from, to, promotion) {
        let m1 = choose|mid: GameController|
            #![trigger applied(old, mid, from, to, promotion, true, r1)]
            applied(old, mid, from, to, promotion, true, r1) && if r1 && mid.game_mode == GameMode::Puzzles
                && !mid.is_puzzle_solved {
                crate::game::advanced(mid, n1)
            } else {
                n1 == mid
            };
        let m2 = choose|mid: GameController|
            #![trigger applied(old, mid, from, to, promotion, true, r2)]
            applied(old, mid, from, to, promotion, true, r2) && if r2 && mid.game_mode == GameMode::Puzzles
                && !mid.is_puzzle_solved {
                crate::game::advanced(mid, n2)
            } else {
                n2 == mid
            };
        lemma_applied_frame(old, m1, from, to, promotion, true, r1);
        lemma_applied_frame(old, m2, from, to, promotion, true, r2);
        lemma_applied_determined(old, m1, m2, from, to, promotion, true, r1, r2);
        if r1 && m1.game_mode == GameMode::Puzzles && !m1.is_puzzle_solved {
            lemma_advanced_agree(m1, m2, n1, n2);
        }
    }
}

/// A click on a square the selected piece can move to plays the same move as `make_move` from the selected square to it: the
/// click and the move agree on whether a move was played and on what the
/// game then shows.
pub proof fn lemma_target_click_is_move(
    old: GameController,
    clicked_game: GameController,
    moved_game: GameController,
    from: Seq<char>,
    square: Seq<char>,
    r_click: bool,
    r_move: bool,
)
    requires
        old.selected_square matches Some(s) && s@ == from,
        is_target(old, square),
        clicked(old, clicked_game, square, r_click),
        made_move(old, moved_game, from, square, None, r_move),
    ensures
        r_click == r_move,
        same_outcome(clicked_game, moved_game),
{
    lemma_made_move_determined(old, clicked_game, moved_game, from, square, None, r_click, r_move);
}

/// A click on a square the selected piece cannot move to (or with nothing
/// selected) plays no move and acts as `select_square` on it.
pub proof fn lemma_other_click_selects(old: GameController, new: GameController, square: Seq<char>, r: bool)
    requires
        !(old.selected_square is Some && is_target(old, square)),
        clicked(old, new, square, r),
    ensures
        !r,
        selected(old, new, square),
{
}

/// A played move leaves a position written by the crate, whose placement
/// field lists exactly the pieces of the crate's board.
pub proof fn lemma_played_position_lists_board(
    old: GameController,
    new: GameController,
    from: Seq<char>,
    to: Seq<char>,
    promotion: Option<PieceKind>,
    allow_pending: bool,
)
    requires
        applied(old, new, from, to, promotion, allow_pending, true),
    ensures
        lists_board(new.fen@),
{
    reveal(after_legal_move);
}

/// After `make_move` plays a move (and, in a puzzle, the reply that
/// follows it), the position lists exactly the pieces of the crate's
/// board, so the pieces shown outside a replay are the board's pieces.
#[verifier::rlimit(80)]
#[verifier::spinoff_prover]
pub proof fn lemma_pieces_after_move_are_the_boards(
    old: GameController,
    new: GameController,
    from: Seq<char>,
    to: Seq<char>,
    promotion: Option<PieceKind>,
)
    requires
        made_move(old, new, from, to, promotion, true),
    ensures
        lists_board(new.fen@),
        !new.is_replay_mode ==> lists_board(crate::game::spec_visible_fen(new)),
{
    reveal(after_legal_move);
    let mid = choose|mid: GameController|
        #![trigger applied(old, mid, from, to, promotion, true, true)]
        applied(old, mid, from, to, promotion, true, true) && if true && mid.game_mode == GameMode::Puzzles
            && !mid.is_puzzle_solved {
            advanced(mid, new)
        } else {
            new == mid
        };
    lemma_played_position_lists_board(old, mid, from, to, promotion, true);
    if mid.game_mode == GameMode::Puzzles && !mid.is_puzzle_solved {
        match mid.puzzle {
            None => {},
            Some(p) => {
                let i = mid.puzzle_move_index + 1;
                if i < p.moves@.len() && i % 2 == 1 {
                    let (f, t, pr) = crate::game::uci_parts(p.moves@[i]@);
                    let st = GameController { puzzle_move_index: i as usize, ..mid };
                    let (q, b) = choose|q: GameController, b: bool|
                        #![trigger applied(st, q, f, t, pr, false, b)]
                        applied(st, q, f, t, pr, false, b) && if b {
                            if i + 1 >= p.moves@.len() {
                                &&& new == (GameController {
                                    puzzle_move_index: (i + 1) as usize,
                                    is_puzzle_solved: true,
                                    commentary: new.commentary,
                                    ..q
                                })
                                &&& new.commentary@ == "Puzzle solved. Excellent work."@
                            } else {
                                new == (GameController { puzzle_move_index: (i + 1) as usize, ..q })
                            }
                        } else {
                            new == q
                        };
                    lemma_applied_frame(st, q, f, t, pr, false, b);
                    if b {
                        lemma_played_position_lists_board(st, q, f, t, pr, false);
                    }
                }
            },
        }
    }
}

/// A move ranks by its value to the side that makes it: the value of the
/// position it reaches (its evaluation, or its search value from there
/// with White maximising) as White sees it when White moves, negated when
/// Black moves, plus the move's tactical bonus.
pub proof fn lemma_rank_is_the_movers_view(fen: Seq<char>, mv: BoardMove, depth: u8)
    ensures
        ({
            let next = spec_play(fen, mv);
            let white_value = if depth <= 1 {
                spec_evaluate(next)
            } else {
                spec_minimax(next, (depth - 1) as nat, spec_side_to_move(next) == PlayerColor::White)
            };
            &&& spec_side_to_move(fen) == PlayerColor::White
                ==> spec_rank_score(fen, mv, depth) == white_value + spec_tactical_bonus(fen, mv)
            &&& spec_side_to_move(fen) == PlayerColor::Black
                ==> spec_rank_score(fen, mv, depth) == -white_value + spec_tactical_bonus(fen, mv)
        }),
{
}

/// A move that mates ranks as a win for the side that makes it, whichever
/// color that is: 100000 plus its tactical bonus, which counts 20000 for
/// the mate, at every search depth.
pub proof fn lemma_mating_move_ranks_as_a_win(fen: Seq<char>, mv: BoardMove, depth: u8)
    requires
        spec_status(spec_play(fen, mv)) == GameStatus::Checkmate,
        spec_side_to_move(spec_play(fen, mv)) == spec_side_to_move(fen).spec_opposite(),
    ensures
        spec_rank_score(fen, mv, depth) == 100_000 + spec_tactical_bonus(fen, mv),
        spec_tactical_bonus(fen, mv) >= 20_000,
{
    let next = spec_play(fen, mv);
    assert(spec_minimax(next, (depth - 1) as nat, spec_side_to_move(next) == PlayerColor::White) == spec_evaluate(next));
    assert(spec_piece_value(PieceKind::Pawn) >= 0 && spec_piece_value(PieceKind::Knight) >= 0
        && spec_piece_value(PieceKind::Bishop) >= 0 && spec_piece_value(PieceKind::Rook) >= 0
        && spec_piece_value(PieceKind::Queen) >= 0 && spec_piece_value(PieceKind::King) >= 0);
}

/// A side to move with no legal move and not in check is stalemated: the
/// position evaluates to exactly 0. With no legal move and in check it is
/// mated: -100000 when White is mated, 100000 when Black is.
pub proof fn lemma_positions_without_moves_evaluate(fen: Seq<char>)
    requires
        spec_legal_moves(fen).len() == 0,
    ensures
        !spec_in_check(fen) ==> spec_evaluate(fen) == 0,
        spec_in_check(fen) && spec_side_to_move(fen) == PlayerColor::White ==> spec_evaluate(fen) == -100_000,
        spec_in_check(fen) && spec_side_to_move(fen) == PlayerColor::Black ==> spec_evaluate(fen) == 100_000,
{
}

proof fn lemma_targets_cover(moves: Seq<BoardMove>, sq: u8, k: int)
    requires
        0 <= k < moves.len(),
        moves[k].from == sq,
    ensures
        spec_targets(moves, sq).contains(spec_square_name(moves[k].to)),
    decreases moves.len(),
{
    let ts = spec_targets(moves, sq);
    let rest = spec_targets(moves.drop_last(), sq);
    if k == moves.len() - 1 {
        assert(ts == rest.push(spec_square_name(moves[k].to)));
        assert(ts[rest.len() as int] == spec_square_name(moves[k].to));
    } else {
        assert(moves.drop_last()[k] == moves[k]);
        lemma_targets_cover(moves.drop_last(), sq, k);
        let j = choose|j: int| 0 <= j < rest.len() && rest[j] == spec_square_name(moves[k].to);
        if moves.last().from == sq {
            assert(ts[j] == rest[j]);
        } else {
            assert(ts == rest);
        }
    }
}

proof fn lemma_targets_sound(moves: Seq<BoardMove>, sq: u8, t: Seq<char>)
    requires
        spec_targets(moves, sq).contains(t),
    ensures
        exists|k: int| 0 <= k < moves.len() && moves[k].from == sq && #[trigger] spec_square_name(moves[k].to) == t,
    decreases moves.len(),
{
    let rest = spec_targets(moves.drop_last(), sq);
    if moves.last().from == sq && t == spec_square_name(moves.last().to) {
        assert(moves[moves.len() - 1].from == sq);
    } else {
        if moves.last().from == sq {
            let j = choose|j: int| 0 <= j < spec_targets(moves, sq).len() && spec_targets(moves, sq)[j] == t;
            assert(rest.contains(t)) by {
                assert(j < rest.len());
                assert(rest[j] == t);
            }
        }
        lemma_targets_sound(moves.drop_last(), sq, t);
        let k = choose|k: int| 0 <= k < moves.drop_last().len() && moves.drop_last()[k].from == sq
            && #[trigger] spec_square_name(moves.drop_last()[k].to) == t;
        assert(moves[k] == moves.drop_last()[k]);
    }
}

/// Whether a legal move of `fen` from `sq` reaches the square named `t`.
pub open spec fn reached_from(fen: Seq<char>, sq: u8, t: Seq<char>) -> bool {
    exists|mv: BoardMove| #[trigger] spec_legal_moves(fen).contains(mv) && mv.from == sq && t == spec_square_name(mv.to)
}

/// Selecting a piece of the side to move lists as targets exactly the
/// squares its legal moves reach: every destination of every legal move
/// from the square (promotions included) is listed, and each listed square
/// is such a destination.
pub proof fn lemma_selection_lists_legal_targets(old: GameController, new: GameController, square: Seq<char>, sq: u8)
    requires
        selected(old, new, square),
        !(old.is_game_over || old.is_replay_mode || old.is_puzzle_solved || spec_is_engine_turn(old)),
        !(old.selected_square matches Some(s) && s@ == square),
        spec_square_from_name(square) == Some(sq),
        spec_piece_at(old.fen@, sq) matches Some((_, c)) && c == old.turn,
    ensures
        forall|mv: BoardMove| #[trigger] spec_legal_moves(old.fen@).contains(mv) && mv.from == sq
            ==> exists|i: int| 0 <= i < new.valid_moves@.len() && #[trigger] new.valid_moves@[i]@ == spec_square_name(mv.to),
        forall|i: int| 0 <= i < new.valid_moves@.len() ==> reached_from(old.fen@, sq, #[trigger] new.valid_moves@[i]@),
{
    let moves = spec_legal_moves(old.fen@);
    let ts = spec_targets(moves, sq);
    assert forall|mv: BoardMove| #[trigger] moves.contains(mv) && mv.from == sq
        implies exists|i: int| 0 <= i < new.valid_moves@.len() && #[trigger] new.valid_moves@[i]@ == spec_square_name(mv.to) by {
        let k = choose|k: int| 0 <= k < moves.len() && moves[k] == mv;
        lemma_targets_cover(moves, sq, k);
        let j = choose|j: int| 0 <= j < ts.len() && ts[j] == spec_square_name(mv.to);
        assert(new.valid_moves@[j]@ == spec_square_name(mv.to));
    }
    assert forall|i: int| 0 <= i < new.valid_moves@.len() implies reached_from(old.fen@, sq, #[trigger] new.valid_moves@[i]@) by {
        assert(ts[i] == new.valid_moves@[i]@);
        assert(ts.contains(ts[i]));
        lemma_targets_sound(moves, sq, ts[i]);
        let k = choose|k: int| 0 <= k < moves.len() && moves[k].from == sq && #[trigger] spec_square_name(moves[k].to) == ts[i];
        let mv = moves[k];
        assert(spec_legal_moves(old.fen@).contains(mv));
        assert(mv.from == sq && new.valid_moves@[i]@ == spec_square_name(mv.to));
    }
}

/// A finished match is recorded, newest first, with the result from the
/// player's side: "win" exactly when the winner is the player's color,
/// "loss" exactly when the other color won, and "draw" exactly when there
/// is no winner.
pub proof fn lemma_recorded_result(old: AppModel, new: AppModel, id: u64, date: Seq<char>, saves: Seq<Seq<char>>)
    requires
        match_recorded(old, new, id, date, saves),
        old.game.history_fen@.len() != old.recorded(),
        old.game.history_uci@.len() > 0,
        old.user is Some,
    ensures
        new.matches@.len() == old.matches@.len() + 1,
        (new.matches@[0].result@ == "win"@) == (old.game.winner == Some(old.game.player_color)),
        (new.matches@[0].result@ == "loss"@)
            == (old.game.winner is Some && old.game.winner != Some(old.game.player_color)),
        (new.matches@[0].result@ == "draw"@) == (old.game.winner is None),
{
    reveal_strlit("win");
    reveal_strlit("loss");
    reveal_strlit("draw");
    assert("win"@ != "loss"@ && "win"@ != "draw"@ && "loss"@ != "draw"@) by {
        assert("win"@[0] != "loss"@[0]);
        assert("win"@[0] != "draw"@[0]);
        assert("loss"@[0] != "draw"@[0]);
    }
}

/// The UCI text recorded for a played move reads back as that move: its
/// first two characters name the source square, the next two the target,
/// and, for a move with a promotion piece, its fifth and last character is
/// that piece's letter.
pub proof fn lemma_recorded_uci_reads_back(
    old: GameController,
    new: GameController,
    from: Seq<char>,
    to: Seq<char>,
    promotion: Option<PieceKind>,
    allow_pending: bool,
)
    requires
        applied(old, new, from, to, promotion, allow_pending, true),
        promotion matches Some(k) ==> k != PieceKind::Pawn && k != PieceKind::King,
    ensures
        crate::game::uci_parts(new.history_uci@.last()@) == (from, to, promotion),
        promotion matches Some(k) ==> new.history_uci@.last()@.len() == 5
            && new.history_uci@.last()@[4] == spec_promotion_char(k),
        promotion is None ==> new.history_uci@.last()@.len() == 4,
{
    reveal(after_legal_move);
    let u = new.history_uci@.last()@;
    assert(from.len() == 2 && to.len() == 2);
    assert(u.subrange(0, 2) =~= from);
    assert(u.subrange(2, 4) =~= to);
}

} // verus!
