//! Position evaluation and the engine opponent.
use vstd::prelude::*;

use crate::engine::{
    board_status, in_check, legal_moves, piece_at, play_move, side_to_move, spec_in_check,
    spec_legal_moves, spec_piece_at, spec_play, spec_side_to_move, spec_status, BoardMove,
    GameStatus,
};
use crate::types::{Difficulty, PieceKind, PlayerColor};

verus! {

/// Material value of a piece, in centipawns.
pub open spec fn spec_piece_value(kind: PieceKind) -> int {
    match kind {
        PieceKind::Pawn => 100,
        PieceKind::Knight => 320,
        PieceKind::Bishop => 330,
        PieceKind::Rook => 500,
        PieceKind::Queen => 900,
        PieceKind::King => 20_000,
    }
}

/// Material value of a piece, in centipawns.
pub fn piece_value(kind: PieceKind) -> (r: i32)
    ensures
        r == spec_piece_value(kind),
{
    match kind {
        PieceKind::Pawn => 100,
        PieceKind::Knight => 320,
        PieceKind::Bishop => 330,
        PieceKind::Rook => 500,
        PieceKind::Queen => 900,
        PieceKind::King => 20_000,
    }
}

/// What the piece on square `sq` is worth to White: its value, 4 more in
/// the sixteen central squares, 2 more for a knight or bishop on ranks 3
/// to 6; negative for a black piece.
pub open spec fn spec_square_score(fen: Seq<char>, sq: int) -> int {
    match spec_piece_at(fen, sq as u8) {
        None => 0,
        Some((kind, color)) => {
            let rank = sq / 8;
            let file = sq % 8;
            let central = if 2 <= rank <= 5 && 2 <= file <= 5 { 4int } else { 0int };
            let minor = if (kind == PieceKind::Knight || kind == PieceKind::Bishop) && 2 <= rank <= 5 {
                2int
            } else {
                0int
            };
            let v = spec_piece_value(kind) + central + minor;
            if color == PlayerColor::White { v } else { -v }
        },
    }
}

/// Sum of the square scores of squares `0..n`.
pub open spec fn spec_material(fen: Seq<char>, n: int) -> int
    decreases n,
{
    if n <= 0 {
        0
    } else {
        spec_material(fen, n - 1) + spec_square_score(fen, n - 1)
    }
}

/// The static evaluation of `fen`, from White's side: a mate is worth
/// 100000 to the winner, a stalemate 0; otherwise material and placement,
/// plus the number of legal moves for the side to move.
pub open spec fn spec_evaluate(fen: Seq<char>) -> int {
    match spec_status(fen) {
        GameStatus::Checkmate => if spec_side_to_move(fen) == PlayerColor::White {
            -100_000
        } else {
            100_000
        },
        GameStatus::Stalemate => 0,
        GameStatus::Ongoing => {
            let mobility = spec_legal_moves(fen).len() as int;
            spec_material(fen, 64) + if spec_side_to_move(fen) == PlayerColor::White {
                mobility
            } else {
                -mobility
            }
        },
    }
}

/// Largest size of an evaluation.
pub open spec fn eval_bound() -> int {
    1_300_000
}

proof fn lemma_material_bound(fen: Seq<char>, n: int)
    requires
        0 <= n <= 64,
    ensures
        -20_006 * n <= spec_material(fen, n) <= 20_006 * n,
    decreases n,
{
    if n > 0 {
        lemma_material_bound(fen, n - 1);
    }
}

/// An evaluation lies within `eval_bound()` when the position has at most
/// as many legal moves as the crate's generator can hold.
proof fn lemma_evaluate_bound(fen: Seq<char>)
    requires
        spec_legal_moves(fen).len() <= 4608,
    ensures
        -eval_bound() <= spec_evaluate(fen) <= eval_bound(),
{
    lemma_material_bound(fen, 64);
}

/// The static evaluation of `fen`, from White's side.
pub fn evaluate_board(fen: &str) -> (r: i32)
    ensures
        r == spec_evaluate(fen@),
        -eval_bound() <= r <= eval_bound(),
{
    let moves = legal_moves(fen);
    proof {
        lemma_evaluate_bound(fen@);
    }
    let side = side_to_move(fen);
    if moves.len() == 0 {
        if in_check(fen) {
            return if side == PlayerColor::White { -100_000 } else { 100_000 };
        }
        return 0;
    }
    let mut score: i32 = 0;
    let mut sq: u8 = 0;
    while sq < 64
        invariant
            sq <= 64,
            score == spec_material(fen@, sq as int),
        decreases 64 - sq,
    {
        proof {
            lemma_material_bound(fen@, sq as int);
        }
        match piece_at(fen, sq) {
            None => {},
            Some((kind, color)) => {
                let rank = sq / 8;
                let file = sq % 8;
                let mut value = piece_value(kind);
                if 2 <= rank && rank <= 5 && 2 <= file && file <= 5 {
                    value = value + 4;
                }
                if (kind == PieceKind::Knight || kind == PieceKind::Bishop) && 2 <= rank && rank <= 5 {
                    value = value + 2;
                }
                if color == PlayerColor::White {
                    score = score + value;
                } else {
                    score = score - value;
                }
            },
        }
        sq = sq + 1;
    }
    let mobility = moves.len() as i32;
    if side == PlayerColor::White {
        score + mobility
    } else {
        score - mobility
    }
}


/// `s` with `x` placed after every item whose score is at least `x`'s:
/// one step of a stable sort by falling score.
pub open spec fn insert_desc(s: Seq<(BoardMove, i32)>, x: (BoardMove, i32)) -> Seq<(BoardMove, i32)>
    decreases s.len(),
{
    if s.len() == 0 {
        seq![x]
    } else if s[0].1 >= x.1 {
        seq![s[0]] + insert_desc(s.drop_first(), x)
    } else {
        seq![x] + s
    }
}

/// `s` sorted by falling score, items of equal score in their order in `s`.
pub open spec fn sort_desc(s: Seq<(BoardMove, i32)>) -> Seq<(BoardMove, i32)>
    decreases s.len(),
{
    if s.len() == 0 {
        s
    } else {
        insert_desc(sort_desc(s.drop_last()), s.last())
    }
}

proof fn lemma_insert_at(s: Seq<(BoardMove, i32)>, x: (BoardMove, i32), p: int)
    requires
        0 <= p <= s.len(),
        forall|j: int| 0 <= j < p ==> s[j].1 >= x.1,
        p == s.len() || s[p].1 < x.1,
    ensures
        insert_desc(s, x) == s.insert(p, x),
    decreases p,
{
    if p == 0 {
        assert(insert_desc(s, x) =~= s.insert(0, x));
    } else {
        let t = s.drop_first();
        assert forall|j: int| 0 <= j < p - 1 implies t[j].1 >= x.1 by {
            assert(t[j] == s[j + 1]);
        }
        if p - 1 < t.len() {
            assert(t[p - 1] == s[p]);
        }
        lemma_insert_at(t, x, p - 1);
        assert(seq![s[0]] + t.insert(p - 1, x) =~= s.insert(p, x));
    }
}

proof fn lemma_insert_members(s: Seq<(BoardMove, i32)>, x: (BoardMove, i32))
    ensures
        insert_desc(s, x).len() == s.len() + 1,
        forall|y: (BoardMove, i32)| #[trigger] insert_desc(s, x).contains(y) ==> y == x || s.contains(y),
    decreases s.len(),
{
    if s.len() > 0 && s[0].1 >= x.1 {
        let t = s.drop_first();
        lemma_insert_members(t, x);
        assert forall|y: (BoardMove, i32)| #[trigger] insert_desc(s, x).contains(y) implies y == x || s.contains(y) by {
            let r = insert_desc(s, x);
            let k = choose|k: int| 0 <= k < r.len() && r[k] == y;
            if k == 0 {
                assert(s[0] == y);
            } else {
                assert(insert_desc(t, x)[k - 1] == y);
                assert(insert_desc(t, x).contains(y));
                if y != x {
                    let m = choose|m: int| 0 <= m < t.len() && t[m] == y;
                    assert(s[m + 1] == y);
                }
            }
        }
    } else if s.len() > 0 {
        assert forall|y: (BoardMove, i32)| #[trigger] insert_desc(s, x).contains(y) implies y == x || s.contains(y) by {
            let r = insert_desc(s, x);
            let k = choose|k: int| 0 <= k < r.len() && r[k] == y;
            if k > 0 {
                assert(s[k - 1] == y);
            }
        }
    }
}

/// Sorting keeps the items: the same number, each from the input.
pub proof fn lemma_sort_members(s: Seq<(BoardMove, i32)>)
    ensures
        sort_desc(s).len() == s.len(),
        forall|y: (BoardMove, i32)| #[trigger] sort_desc(s).contains(y) ==> s.contains(y),
    decreases s.len(),
{
    if s.len() > 0 {
        lemma_sort_members(s.drop_last());
        lemma_insert_members(sort_desc(s.drop_last()), s.last());
        assert forall|y: (BoardMove, i32)| #[trigger] sort_desc(s).contains(y) implies s.contains(y) by {
            if y == s.last() {
                assert(s[s.len() - 1] == y);
            } else {
                assert(sort_desc(s.drop_last()).contains(y));
                assert(s.drop_last().contains(y));
                let m = choose|m: int| 0 <= m < s.drop_last().len() && s.drop_last()[m] == y;
                assert(s[m] == y);
            }
        }
    }
}

/// Whether the scores of `s` never rise.
pub open spec fn sorted_desc(s: Seq<(BoardMove, i32)>) -> bool {
    forall|i: int, j: int| 0 <= i < j < s.len() ==> s[i].1 >= s[j].1
}

proof fn lemma_insert_sorted(s: Seq<(BoardMove, i32)>, x: (BoardMove, i32))
    requires
        sorted_desc(s),
    ensures
        sorted_desc(insert_desc(s, x)),
        forall|i: int| 0 <= i < insert_desc(s, x).len() ==> #[trigger] insert_desc(s, x)[i] == x
            || s.contains(insert_desc(s, x)[i]),
    decreases s.len(),
{
    lemma_insert_members(s, x);
    if s.len() > 0 && s[0].1 >= x.1 {
        let t = s.drop_first();
        lemma_insert_sorted(t, x);
        let r = insert_desc(s, x);
        assert forall|i: int, j: int| 0 <= i < j < r.len() implies r[i].1 >= r[j].1 by {
            if i == 0 {
                let y = r[j];
                assert(insert_desc(t, x)[j - 1] == y);
                assert(insert_desc(t, x).contains(y));
                if y != x {
                    let m = choose|m: int| 0 <= m < t.len() && t[m] == y;
                    assert(s[m + 1] == y);
                }
            } else {
                assert(insert_desc(t, x)[i - 1] == r[i]);
                assert(insert_desc(t, x)[j - 1] == r[j]);
            }
        }
    }
    assert forall|i: int| 0 <= i < insert_desc(s, x).len() implies #[trigger] insert_desc(s, x)[i] == x
        || s.contains(insert_desc(s, x)[i]) by {
        assert(insert_desc(s, x).contains(insert_desc(s, x)[i]));
    }
}

/// The ranking lists scores best first.
pub proof fn lemma_sort_sorted(s: Seq<(BoardMove, i32)>)
    ensures
        sorted_desc(sort_desc(s)),
    decreases s.len(),
{
    if s.len() > 0 {
        lemma_sort_sorted(s.drop_last());
        lemma_insert_sorted(sort_desc(s.drop_last()), s.last());
    }
}

/// A stable sort by falling score.
fn sort_by_score(items: &Vec<(BoardMove, i32)>) -> (r: Vec<(BoardMove, i32)>)
    ensures
        r@ == sort_desc(items@),
{
    let mut out: Vec<(BoardMove, i32)> = Vec::new();
    let mut i: usize = 0;
    while i < items.len()
        invariant
            i <= items@.len(),
            out@ == sort_desc(items@.take(i as int)),
        decreases items@.len() - i,
    {
        let x = items[i];
        let mut p: usize = 0;
        while p < out.len() && out[p].1 >= x.1
            invariant
                p <= out@.len(),
                forall|j: int| 0 <= j < p ==> out@[j].1 >= x.1,
            decreases out@.len() - p,
        {
            p = p + 1;
        }
        proof {
            lemma_insert_at(out@, x, p as int);
            assert(items@.take(i + 1).drop_last() =~= items@.take(i as int));
            assert(items@.take(i + 1).last() == x);
        }
        out.insert(p, x);
        i = i + 1;
    }
    assert(items@.take(items@.len() as int) =~= items@);
    out
}

/// How attractive a move looks before searching it: ten times the value
/// of what it takes, four times the value of its promotion piece, and
/// 50000 for a mate.
pub open spec fn spec_move_score(fen: Seq<char>, mv: BoardMove) -> int {
    let capture = match spec_piece_at(fen, mv.to) {
        Some((k, _)) => spec_piece_value(k) * 10,
        None => 0,
    };
    let promotion = match mv.promotion {
        Some(k) => spec_piece_value(k) * 4,
        None => 0,
    };
    let mate = if spec_status(spec_play(fen, mv)) == GameStatus::Checkmate { 50_000int } else { 0int };
    capture + promotion + mate
}

/// How attractive a move looks before searching it.
fn move_score(fen: &str, mv: BoardMove) -> (r: i32)
    requires
        spec_legal_moves(fen@).contains(mv),
        crate::engine::generated_move(mv),
    ensures
        r == spec_move_score(fen@, mv),
{
    let mut score: i32 = 0;
    match piece_at(fen, mv.to) {
        Some((k, _)) => {
            score = score + piece_value(k) * 10;
        },
        None => {},
    }
    match mv.promotion {
        Some(k) => {
            score = score + piece_value(k) * 4;
        },
        None => {},
    }
    let next = play_move(fen, mv);
    if board_status(next.as_str()) == GameStatus::Checkmate {
        score = score + 50_000;
    }
    score
}

/// Each move paired with its move score.
pub open spec fn scored(fen: Seq<char>, moves: Seq<BoardMove>) -> Seq<(BoardMove, i32)> {
    moves.map_values(|m: BoardMove| (m, spec_move_score(fen, m) as i32))
}

/// The moves of `s`, without their scores.
pub open spec fn moves_of(s: Seq<(BoardMove, i32)>) -> Seq<BoardMove> {
    s.map_values(|x: (BoardMove, i32)| x.0)
}

/// The legal moves of `fen`, most attractive first (stable among equals).
pub open spec fn spec_ordered_moves(fen: Seq<char>) -> Seq<BoardMove> {
    moves_of(sort_desc(scored(fen, spec_legal_moves(fen))))
}

/// The legal moves of `fen`, most attractive first.
fn ordered_moves(fen: &str) -> (r: Vec<BoardMove>)
    ensures
        r@ == spec_ordered_moves(fen@),
        forall|i: int| 0 <= i < r@.len() ==> spec_legal_moves(fen@).contains(#[trigger] r@[i]),
        forall|i: int| 0 <= i < r@.len() ==> crate::engine::generated_move(#[trigger] r@[i]),
        r@.len() == spec_legal_moves(fen@).len(),
        r@.len() <= 4608,
{
    let moves = legal_moves(fen);
    let mut items: Vec<(BoardMove, i32)> = Vec::new();
    let mut i: usize = 0;
    while i < moves.len()
        invariant
            i <= moves@.len(),
            moves@ == spec_legal_moves(fen@),
            forall|j: int| 0 <= j < moves@.len() ==> crate::engine::generated_move(#[trigger] moves@[j]),
            items@ == scored(fen@, moves@.take(i as int)),
        decreases moves@.len() - i,
    {
        let mv = moves[i];
        assert(moves@.contains(mv));
        let score = move_score(fen, mv);
        items.push((mv, score));
        assert(scored(fen@, moves@.take(i + 1)) =~= scored(fen@, moves@.take(i as int)).push((mv, score)));
        i = i + 1;
    }
    assert(moves@.take(moves@.len() as int) =~= moves@);
    let sorted = sort_by_score(&items);
    proof {
        lemma_sort_members(items@);
    }
    let mut r: Vec<BoardMove> = Vec::new();
    let mut k: usize = 0;
    while k < sorted.len()
        invariant
            k <= sorted@.len(),
            sorted@ == sort_desc(items@),
            items@ == scored(fen@, moves@),
            moves@ == spec_legal_moves(fen@),
            sorted@.len() == items@.len(),
            forall|y: (BoardMove, i32)| #[trigger] sorted@.contains(y) ==> items@.contains(y),
            forall|j: int| 0 <= j < moves@.len() ==> crate::engine::generated_move(#[trigger] moves@[j]),
            r@ == moves_of(sorted@.take(k as int)),
            forall|j: int| 0 <= j < r@.len() ==> moves@.contains(#[trigger] r@[j]),
        decreases sorted@.len() - k,
    {
        let x = sorted[k];
        assert(sorted@.contains(x));
        assert(items@.contains(x));
        let ghost m = choose|m: int| 0 <= m < items@.len() && items@[m] == x;
        assert(moves@[m] == x.0);
        r.push(x.0);
        assert(moves_of(sorted@.take(k + 1)) =~= moves_of(sorted@.take(k as int)).push(x.0));
        k = k + 1;
    }
    assert(sorted@.take(sorted@.len() as int) =~= sorted@);
    proof {
        assert forall|i: int| 0 <= i < r@.len() implies crate::engine::generated_move(#[trigger] r@[i]) by {
            let m = choose|m: int| 0 <= m < moves@.len() && moves@[m] == r@[i];
        }
    }
    r
}


/// The smallest score the search uses as a bound.
pub open spec fn low_bound() -> int {
    i32::MIN + 1
}

/// The largest score the search uses as a bound.
pub open spec fn high_bound() -> int {
    i32::MAX - 1
}

/// The minimax value of `fen` searched `depth` plies deep, from White's
/// side: the static evaluation at depth zero or when play has ended,
/// otherwise the best value of a move for the side to search (largest
/// when `maximizing`).
pub open spec fn spec_minimax(fen: Seq<char>, depth: nat, maximizing: bool) -> int
    decreases depth, 1nat, 0nat,
{
    if depth == 0 || spec_status(fen) != GameStatus::Ongoing {
        spec_evaluate(fen)
    } else {
        let moves = spec_ordered_moves(fen);
        best_of(fen, moves, depth, maximizing, moves.len())
    }
}

/// The best of the first `n` of `moves` searched one ply less deep (the
/// search's bound when `n` is zero).
pub open spec fn best_of(fen: Seq<char>, moves: Seq<BoardMove>, depth: nat, maximizing: bool, n: nat) -> int
    decreases depth, 0nat, n,
{
    if depth == 0 || n == 0 {
        if maximizing { low_bound() } else { high_bound() }
    } else {
        let rest = best_of(fen, moves, depth, maximizing, (n - 1) as nat);
        let v = spec_minimax(spec_play(fen, moves[n - 1]), (depth - 1) as nat, !maximizing);
        if maximizing {
            if v > rest { v } else { rest }
        } else {
            if v < rest { v } else { rest }
        }
    }
}

/// Best of more moves is at least as good.
proof fn lemma_best_monotone(fen: Seq<char>, moves: Seq<BoardMove>, depth: nat, maximizing: bool, k: nat, n: nat)
    requires
        k <= n,
    ensures
        maximizing ==> best_of(fen, moves, depth, maximizing, k) <= best_of(fen, moves, depth, maximizing, n),
        !maximizing ==> best_of(fen, moves, depth, maximizing, k) >= best_of(fen, moves, depth, maximizing, n),
    decreases n - k,
{
    if k < n {
        lemma_best_monotone(fen, moves, depth, maximizing, k, (n - 1) as nat);
    }
}

/// Alpha-beta search of `fen`, `depth` plies deep, within the window
/// `alpha`..`beta`. Within the window the result is the minimax value; a
/// result at or below `alpha` bounds the minimax value from above, one at
/// or above `beta` bounds it from below.
fn minimax(fen: &str, depth: u8, alpha: i32, beta: i32, maximizing: bool) -> (r: i32)
    requires
        low_bound() <= alpha < beta <= high_bound(),
    ensures
        -eval_bound() <= r <= eval_bound(),
        r <= alpha ==> spec_minimax(fen@, depth as nat, maximizing) <= r,
        r >= beta ==> spec_minimax(fen@, depth as nat, maximizing) >= r,
        alpha < r < beta ==> spec_minimax(fen@, depth as nat, maximizing) == r,
    decreases depth,
{
    if depth == 0 || board_status(fen) != GameStatus::Ongoing {
        return evaluate_board(fen);
    }
    let moves = ordered_moves(fen);
    let ghost n = moves@.len() as nat;
    let ghost d = depth as nat;
    assert(moves@.len() > 0);
    let mut a: i32 = alpha;
    let mut b: i32 = beta;
    let ghost alpha0 = a as int;
    let ghost beta0 = b as int;
    let mut i: usize = 0;
    if maximizing {
        let mut value: i32 = i32::MIN + 1;
        while i < moves.len()
            invariant
                moves@ == spec_ordered_moves(fen@),
                n == moves@.len(),
                n > 0,
                d == depth,
                depth > 0,
                spec_status(fen@) == GameStatus::Ongoing,
                forall|j: int| 0 <= j < moves@.len() ==> spec_legal_moves(fen@).contains(#[trigger] moves@[j]),
                i <= n,
                low_bound() <= alpha0 < beta0 <= high_bound(),
                maximizing,
                alpha0 == alpha,
                beta0 == beta,
                b == beta0,
                a == (if alpha0 > value { alpha0 } else { value as int }),
                value < b,
                i == 0 ==> value == i32::MIN + 1,
                i > 0 ==> -eval_bound() <= value <= eval_bound(),
                best_of(fen@, moves@, d, true, i as nat) <= value,
                value > alpha0 ==> best_of(fen@, moves@, d, true, i as nat) == value,
            decreases n - i,
        {
            let next = play_move(fen, moves[i]);
            let child = minimax(next.as_str(), depth - 1, a, b, false);
            assert(best_of(fen@, moves@, d, true, (i + 1) as nat) == (if spec_minimax(next@, (d - 1) as nat, false) > best_of(fen@, moves@, d, true, i as nat) {
                spec_minimax(next@, (d - 1) as nat, false)
            } else {
                best_of(fen@, moves@, d, true, i as nat)
            }));
            if child > value {
                value = child;
            }
            if value > a {
                a = value;
            }
            i = i + 1;
            if b <= a {
                proof {
                    lemma_best_monotone(fen@, moves@, d, true, i as nat, n);
                    assert(value >= beta0);
                    assert(value == child);
                    assert(spec_minimax(fen@, d, true) == best_of(fen@, moves@, d, true, n));
                }
                return value;
            }
        }
        value
    } else {
        let mut value: i32 = i32::MAX - 1;
        while i < moves.len()
            invariant
                moves@ == spec_ordered_moves(fen@),
                n == moves@.len(),
                n > 0,
                d == depth,
                depth > 0,
                spec_status(fen@) == GameStatus::Ongoing,
                forall|j: int| 0 <= j < moves@.len() ==> spec_legal_moves(fen@).contains(#[trigger] moves@[j]),
                i <= n,
                low_bound() <= alpha0 < beta0 <= high_bound(),
                !maximizing,
                alpha0 == alpha,
                beta0 == beta,
                a == alpha0,
                b == (if beta0 < value { beta0 } else { value as int }),
                value > a,
                i == 0 ==> value == i32::MAX - 1,
                i > 0 ==> -eval_bound() <= value <= eval_bound(),
                best_of(fen@, moves@, d, false, i as nat) >= value,
                value < beta0 ==> best_of(fen@, moves@, d, false, i as nat) == value,
            decreases n - i,
        {
            let next = play_move(fen, moves[i]);
            let child = minimax(next.as_str(), depth - 1, a, b, true);
            assert(best_of(fen@, moves@, d, false, (i + 1) as nat) == (if spec_minimax(next@, (d - 1) as nat, true) < best_of(fen@, moves@, d, false, i as nat) {
                spec_minimax(next@, (d - 1) as nat, true)
            } else {
                best_of(fen@, moves@, d, false, i as nat)
            }));
            if child < value {
                value = child;
            }
            if value < b {
                b = value;
            }
            i = i + 1;
            if b <= a {
                proof {
                    lemma_best_monotone(fen@, moves@, d, false, i as nat, n);
                    assert(value <= alpha0);
                    assert(value == child);
                    assert(spec_minimax(fen@, d, false) == best_of(fen@, moves@, d, false, n));
                }
                return value;
            }
        }
        value
    }
}


/// Random draws for the engine's choices, each a number in [0, 1) given
/// exactly as its numerator over 2^64 (every draw of a 64-bit float in
/// that range, from 2^-11 up, and every multiple of 2^-53, is such a
/// fraction). They are used in order, as the choices call for them; at
/// most three are needed.
#[derive(Clone, Copy, Debug)]
pub struct BotRolls {
    pub first: u64,
    pub second: u64,
    pub third: u64,
}

/// A draw below this (the 64-bit float nearest 0.55, over 2^64) leaves the
/// easy opponent's captures aside.
pub const EASY_CAPTURE_ABOVE: u64 = 10145709240540254208;

/// How a difficulty plays: search depth; the bounds, over 2^64, below
/// which a draw takes the best, else the second, else the third ranked
/// move (the 64-bit float sums of the chances of those moves); the bound
/// below which a draw makes a deliberate slip; and how many top moves it
/// considers.
#[derive(Clone, Copy, Debug)]
pub struct BotStyle {
    pub depth: u8,
    pub best_below: u64,
    pub second_below: u64,
    pub third_below: u64,
    pub mistake_below: u64,
    pub pool: usize,
}

impl BotStyle {
    pub open spec fn spec_medium() -> BotStyle {
        BotStyle {
            depth: 1,
            best_below: 6271892985061248000,
            second_below: 11436981325699923968,
            third_below: 14757395258967642112,
            mistake_below: 4427218577690292224,
            pool: 6,
        }
    }

    pub open spec fn spec_hard() -> BotStyle {
        BotStyle {
            depth: 2,
            best_below: 8854437155380584448,
            second_below: 13466123173807972352,
            third_below: 15864199903390214144,
            mistake_below: 2213609288845146112,
            pool: 4,
        }
    }

    /// The medium opponent: chances 0.34, 0.28 and 0.18, slips 0.24.
    pub fn medium() -> (r: BotStyle)
        ensures
            r == BotStyle::spec_medium(),
    {
        BotStyle {
            depth: 1,
            best_below: 6271892985061248000,
            second_below: 11436981325699923968,
            third_below: 14757395258967642112,
            mistake_below: 4427218577690292224,
            pool: 6,
        }
    }

    /// The hard opponent: chances 0.48, 0.25 and 0.13, slips 0.12.
    pub fn hard() -> (r: BotStyle)
        ensures
            r == BotStyle::spec_hard(),
    {
        BotStyle {
            depth: 2,
            best_below: 8854437155380584448,
            second_below: 13466123173807972352,
            third_below: 15864199903390214144,
            mistake_below: 2213609288845146112,
            pool: 4,
        }
    }
}

/// An index below `len` picked by a draw (0 when there is at most one).
pub open spec fn spec_random_index(len: nat, roll: u64) -> nat {
    if len <= 1 {
        0
    } else {
        let i = (roll as nat * len) / 0x1_0000_0000_0000_0000nat;
        if i < len - 1 { i } else { (len - 1) as nat }
    }
}

/// An index below `len` picked by a draw (0 when there is at most one).
pub fn random_index(len: usize, roll: u64) -> (r: usize)
    ensures
        r == spec_random_index(len as nat, roll),
        len > 0 ==> r < len,
{
    if len <= 1 {
        return 0;
    }
    proof {
        assert((roll as u128) * (len as u128) <= 18_446_744_073_709_551_615u128 * 18_446_744_073_709_551_615u128) by (nonlinear_arith)
            requires
                roll <= 18_446_744_073_709_551_615u64,
                len <= 18_446_744_073_709_551_615u128;
    }
    let i: u128 = (roll as u128) * (len as u128) / 0x1_0000_0000_0000_0000u128;
    if i < (len - 1) as u128 {
        i as usize
    } else {
        len - 1
    }
}

/// What a human would notice about a move: a sixth of the value taken, a
/// fifth of the promotion piece's value, 18 for a check and 20000 for a
/// mate.
pub open spec fn spec_tactical_bonus(fen: Seq<char>, mv: BoardMove) -> int {
    let capture = match spec_piece_at(fen, mv.to) {
        Some((k, _)) => spec_piece_value(k) / 6,
        None => 0,
    };
    let promotion = match mv.promotion {
        Some(k) => spec_piece_value(k) / 5,
        None => 0,
    };
    let next = spec_play(fen, mv);
    let check = if spec_in_check(next) { 18int } else { 0int };
    let mate = if spec_status(next) == GameStatus::Checkmate { 20_000int } else { 0int };
    capture + promotion + check + mate
}

fn human_tactical_bonus(fen: &str, mv: BoardMove) -> (r: i32)
    requires
        spec_legal_moves(fen@).contains(mv),
        crate::engine::generated_move(mv),
    ensures
        r == spec_tactical_bonus(fen@, mv),
        0 <= r <= 30_000,
{
    let mut score: i32 = 0;
    match piece_at(fen, mv.to) {
        Some((k, _)) => {
            score = score + piece_value(k) / 6;
        },
        None => {},
    }
    match mv.promotion {
        Some(k) => {
            score = score + piece_value(k) / 5;
        },
        None => {},
    }
    let next = play_move(fen, mv);
    if in_check(next.as_str()) {
        score = score + 18;
    }
    if board_status(next.as_str()) == GameStatus::Checkmate {
        score = score + 20_000;
    }
    score
}

/// The value of a move for the side to move in `fen`: the evaluation of
/// the position it leads to (searched `depth - 1` plies more when `depth`
/// is above one), turned to the mover's side, plus its tactical bonus.
pub open spec fn spec_rank_score(fen: Seq<char>, mv: BoardMove, depth: u8) -> int {
    let next = spec_play(fen, mv);
    let raw = if depth <= 1 {
        spec_evaluate(next)
    } else {
        spec_minimax(next, (depth - 1) as nat, spec_side_to_move(next) == PlayerColor::White)
    };
    let perspective = if spec_side_to_move(fen) == PlayerColor::White { raw } else { -raw };
    perspective + spec_tactical_bonus(fen, mv)
}

/// `moves` paired with their values, best first (stable among equals).
pub open spec fn spec_ranked(fen: Seq<char>, moves: Seq<BoardMove>, depth: u8) -> Seq<(BoardMove, i32)> {
    sort_desc(moves.map_values(|m: BoardMove| (m, spec_rank_score(fen, m, depth) as i32)))
}

fn ranked_moves(fen: &str, moves: &Vec<BoardMove>, depth: u8) -> (r: Vec<(BoardMove, i32)>)
    requires
        forall|i: int| 0 <= i < moves@.len() ==> spec_legal_moves(fen@).contains(#[trigger] moves@[i]),
        forall|i: int| 0 <= i < moves@.len() ==> crate::engine::generated_move(#[trigger] moves@[i]),
    ensures
        r@ == spec_ranked(fen@, moves@, depth),
{
    let side = side_to_move(fen);
    let mut items: Vec<(BoardMove, i32)> = Vec::new();
    let mut i: usize = 0;
    while i < moves.len()
        invariant
            i <= moves@.len(),
            forall|j: int| 0 <= j < moves@.len() ==> spec_legal_moves(fen@).contains(#[trigger] moves@[j]),
            forall|j: int| 0 <= j < moves@.len() ==> crate::engine::generated_move(#[trigger] moves@[j]),
            side == spec_side_to_move(fen@),
            items@ == moves@.take(i as int).map_values(|m: BoardMove| (m, spec_rank_score(fen@, m, depth) as i32)),
        decreases moves@.len() - i,
    {
        let mv = moves[i];
        let next = play_move(fen, mv);
        let raw: i32 = if depth <= 1 {
            evaluate_board(next.as_str())
        } else {
            let white = side_to_move(next.as_str()) == PlayerColor::White;
            minimax(next.as_str(), depth - 1, i32::MIN + 1, i32::MAX - 1, white)
        };
        let perspective = if side == PlayerColor::White { raw } else { -raw };
        let score = perspective + human_tactical_bonus(fen, mv);
        items.push((mv, score));
        assert(moves@.take(i + 1).map_values(|m: BoardMove| (m, spec_rank_score(fen@, m, depth) as i32))
            =~= moves@.take(i as int).map_values(|m: BoardMove| (m, spec_rank_score(fen@, m, depth) as i32)).push((mv, score)));
        i = i + 1;
    }
    assert(moves@.take(moves@.len() as int) =~= moves@);
    sort_by_score(&items)
}


/// A deliberate slip: a move drawn from the five ranked just after the
/// top `pool` (from all of them when that range is empty).
pub open spec fn spec_soft_mistake(ranked: Seq<(BoardMove, i32)>, pool: usize, roll: u64) -> BoardMove {
    let last = if ranked.len() > 0 { ranked.len() - 1 } else { 0 };
    let start = if (pool as int) < last { pool as int } else { last };
    let end = if start + 5 < ranked.len() { start + 5 } else { ranked.len() as int };
    if start >= end {
        ranked[spec_random_index(ranked.len(), roll) as int].0
    } else {
        ranked[start + spec_random_index((end - start) as nat, roll)].0
    }
}

fn choose_soft_mistake(ranked: &Vec<(BoardMove, i32)>, pool: usize, roll: u64) -> (r: BoardMove)
    requires
        ranked@.len() > 0,
        ranked@.len() <= 1_000_000,
    ensures
        r == spec_soft_mistake(ranked@, pool, roll),
        exists|i: int| 0 <= i < ranked@.len() && ranked@[i].0 == r,
{
    let last = ranked.len() - 1;
    let start = if pool < last { pool } else { last };
    let end = if start + 5 < ranked.len() { start + 5 } else { ranked.len() };
    if start >= end {
        let k = random_index(ranked.len(), roll);
        return ranked[k].0;
    }
    let k = start + random_index(end - start, roll);
    ranked[k].0
}

/// The moves of `moves` that land on an occupied square, in order.
pub open spec fn captures_of(fen: Seq<char>, moves: Seq<BoardMove>) -> Seq<BoardMove>
    decreases moves.len(),
{
    if moves.len() == 0 {
        Seq::empty()
    } else {
        let rest = captures_of(fen, moves.drop_last());
        if spec_piece_at(fen, moves.last().to) is Some { rest.push(moves.last()) } else { rest }
    }
}

proof fn lemma_captures_members(fen: Seq<char>, moves: Seq<BoardMove>)
    ensures
        captures_of(fen, moves).len() <= moves.len(),
        forall|m: BoardMove| #[trigger] captures_of(fen, moves).contains(m) ==> moves.contains(m),
    decreases moves.len(),
{
    if moves.len() > 0 {
        lemma_captures_members(fen, moves.drop_last());
        assert forall|m: BoardMove| #[trigger] captures_of(fen, moves).contains(m) implies moves.contains(m) by {
            if m == moves.last() {
                assert(moves[moves.len() - 1] == m);
            } else {
                assert(captures_of(fen, moves.drop_last()).contains(m));
                let k = choose|k: int| 0 <= k < moves.drop_last().len() && moves.drop_last()[k] == m;
                assert(moves[k] == m);
            }
        }
    }
}

/// The easy opponent: with a capture available and a draw above 0.55, a
/// random capture; otherwise a random move.
pub open spec fn spec_easy(fen: Seq<char>, moves: Seq<BoardMove>, rolls: BotRolls) -> BoardMove {
    let captures = captures_of(fen, moves);
    if captures.len() > 0 && rolls.first > EASY_CAPTURE_ABOVE {
        captures[spec_random_index(captures.len(), rolls.second) as int]
    } else {
        let roll = if captures.len() > 0 { rolls.second } else { rolls.first };
        moves[spec_random_index(moves.len(), roll) as int]
    }
}

fn choose_easy(fen: &str, moves: &Vec<BoardMove>, rolls: BotRolls) -> (r: BoardMove)
    requires
        moves@.len() > 0,
        moves@.len() <= 1_000_000,
        forall|i: int| 0 <= i < moves@.len() ==> crate::engine::generated_move(#[trigger] moves@[i]),
    ensures
        r == spec_easy(fen@, moves@, rolls),
        moves@.contains(r),
{
    let mut captures: Vec<BoardMove> = Vec::new();
    let mut i: usize = 0;
    while i < moves.len()
        invariant
            i <= moves@.len(),
            forall|j: int| 0 <= j < moves@.len() ==> crate::engine::generated_move(#[trigger] moves@[j]),
            captures@ == captures_of(fen@, moves@.take(i as int)),
        decreases moves@.len() - i,
    {
        assert(moves@.take(i + 1).drop_last() =~= moves@.take(i as int));
        assert(crate::engine::generated_move(moves@[i as int]));
        if piece_at(fen, moves[i].to).is_some() {
            captures.push(moves[i]);
        }
        i = i + 1;
    }
    assert(moves@.take(moves@.len() as int) =~= moves@);
    proof {
        lemma_captures_members(fen@, moves@);
    }
    if captures.len() > 0 && rolls.first > EASY_CAPTURE_ABOVE {
        let k = random_index(captures.len(), rolls.second);
        assert(captures_of(fen@, moves@).contains(captures@[k as int]));
        captures[k]
    } else {
        let roll = if captures.len() > 0 { rolls.second } else { rolls.first };
        let k = random_index(moves.len(), roll);
        assert(moves@.contains(moves@[k as int]));
        moves[k]
    }
}

/// The searching opponent: the moves ranked by value; with a draw below
/// the slip chance and more than three moves, a slip; otherwise, among the
/// top `pool`, the best, second or third by the chances of the style, or a
/// random one of the rest.
pub open spec fn spec_humanized(fen: Seq<char>, moves: Seq<BoardMove>, style: BotStyle, rolls: BotRolls) -> BoardMove {
    let ranked = spec_ranked(fen, moves, style.depth);
    if ranked.len() == 0 {
        moves[0]
    } else if rolls.first < style.mistake_below && ranked.len() > 3 {
        spec_soft_mistake(ranked, style.pool, rolls.second)
    } else {
        let size = if (style.pool as int) < ranked.len() { style.pool as int } else { ranked.len() as int };
        let size = if size < 1 { 1 } else { size };
        let top = ranked.take(size);
        let roll = rolls.second;
        let index: int = if roll < style.best_below || top.len() == 1 {
            0
        } else if roll < style.second_below || top.len() == 2 {
            1
        } else if roll < style.third_below || top.len() == 3 {
            2
        } else {
            3 + spec_random_index((top.len() - 3) as nat, rolls.third) as int
        };
        let index: int = if index < top.len() - 1 { index } else { top.len() - 1 };
        top[index].0
    }
}

fn choose_humanized_search(fen: &str, moves: &Vec<BoardMove>, style: BotStyle, rolls: BotRolls) -> (r: BoardMove)
    requires
        moves@.len() > 0,
        moves@.len() <= 1_000_000,
        forall|i: int| 0 <= i < moves@.len() ==> spec_legal_moves(fen@).contains(#[trigger] moves@[i]),
        forall|i: int| 0 <= i < moves@.len() ==> crate::engine::generated_move(#[trigger] moves@[i]),
    ensures
        r == spec_humanized(fen@, moves@, style, rolls),
        moves@.contains(r),
{
    let ranked = ranked_moves(fen, moves, style.depth);
    let ghost keyed = moves@.map_values(|m: BoardMove| (m, spec_rank_score(fen@, m, style.depth) as i32));
    proof {
        lemma_sort_members(keyed);
    }
    if ranked.len() == 0 {
        assert(moves@.contains(moves@[0]));
        return moves[0];
    }
    if rolls.first < style.mistake_below && ranked.len() > 3 {
        let r = choose_soft_mistake(&ranked, style.pool, rolls.second);
        proof {
            let i = choose|i: int| 0 <= i < ranked@.len() && ranked@[i].0 == r;
            assert(ranked@.contains(ranked@[i]));
            assert(keyed.contains(ranked@[i]));
            let m = choose|m: int| 0 <= m < keyed.len() && keyed[m] == ranked@[i];
            assert(moves@[m] == r);
        }
        return r;
    }
    let size = if style.pool < ranked.len() { style.pool } else { ranked.len() };
    let size = if size < 1 { 1 } else { size };
    let roll = rolls.second;
    let index: usize = if roll < style.best_below || size == 1 {
        0
    } else if roll < style.second_below || size == 2 {
        1
    } else if roll < style.third_below || size == 3 {
        2
    } else {
        3 + random_index(size - 3, rolls.third)
    };
    let index = if index < size - 1 { index } else { size - 1 };
    let r = ranked[index].0;
    proof {
        assert(ranked@.take(size as int)[index as int] == ranked@[index as int]);
        assert(ranked@.contains(ranked@[index as int]));
        assert(keyed.contains(ranked@[index as int]));
        let m = choose|m: int| 0 <= m < keyed.len() && keyed[m] == ranked@[index as int];
        assert(moves@[m] == r);
    }
    r
}

/// The move the engine picks in `fen` at `difficulty` with the draws
/// `rolls`, among the legal moves ordered most attractive first; none when
/// there is no legal move.
pub open spec fn spec_bot_choice(fen: Seq<char>, difficulty: Difficulty, rolls: BotRolls) -> Option<BoardMove> {
    let moves = spec_ordered_moves(fen);
    if moves.len() == 0 {
        None
    } else {
        match difficulty {
            Difficulty::Easy => Some(spec_easy(fen, moves, rolls)),
            Difficulty::Medium => Some(spec_humanized(fen, moves, BotStyle::spec_medium(), rolls)),
            Difficulty::Hard => Some(spec_humanized(fen, moves, BotStyle::spec_hard(), rolls)),
        }
    }
}

/// The engine's move in `fen` at `difficulty`, drawing on `rolls`: always
/// one of the legal moves, and none only when there is none.
pub fn choose_bot_move(fen: &str, difficulty: Difficulty, rolls: BotRolls) -> (r: Option<BoardMove>)
    ensures
        r == spec_bot_choice(fen@, difficulty, rolls),
        r is None <==> spec_legal_moves(fen@).len() == 0,
        r matches Some(mv) ==> spec_legal_moves(fen@).contains(mv) && crate::engine::generated_move(mv),
{
    let moves = ordered_moves(fen);
    if moves.len() == 0 {
        return None;
    }
    let r = match difficulty {
        Difficulty::Easy => choose_easy(fen, &moves, rolls),
        Difficulty::Medium => choose_humanized_search(fen, &moves, BotStyle::medium(), rolls),
        Difficulty::Hard => choose_humanized_search(fen, &moves, BotStyle::hard(), rolls),
    };
    proof {
        let i = choose|i: int| 0 <= i < moves@.len() && moves@[i] == r;
        assert(spec_legal_moves(fen@).contains(moves@[i]));
        assert(crate::engine::generated_move(moves@[i]));
    }
    Some(r)
}

} // verus!
