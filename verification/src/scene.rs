//! What the drawing of the board reads from the game: where a square lies
//! on the grid, the flat colours of each theme, and the indexes that pick
//! a theme's or a skin's materials.
use vstd::prelude::*;

use crate::game::{spec_visible_fen, GameController};
use crate::squares::{ascii_lower, placement_field, scan_placement};
use crate::text::{owned, str_eq};
use crate::types::{PieceKind, PlayerColor, SkinType, Theme};

verus! {

/// The file and rank (0 for `a` and `1`) named by the first two characters
/// of `square`, the file letter of either case; anything after them is
/// not read.
pub open spec fn spec_file_rank(square: Seq<char>) -> Option<(usize, usize)> {
    if square.len() >= 2 {
        let f = ascii_lower(square[0]) as int - 'a' as int;
        let r = square[1] as int - '1' as int;
        if 0 <= f < 8 && 0 <= r < 8 {
            Some((f as usize, r as usize))
        } else {
            None
        }
    } else {
        None
    }
}

/// The file and rank named by the start of `square`.
pub fn square_to_file_rank(square: &str) -> (r: Option<(usize, usize)>)
    ensures
        r == spec_file_rank(square@),
{
    if square.unicode_len() < 2 {
        return None;
    }
    let c = square.get_char(0);
    let k = square.get_char(1);
    let lower: u32 = if 'A' <= c && c <= 'Z' {
        (c as u32) + 32
    } else {
        c as u32
    };
    if lower < ('a' as u32) || (k as u32) < ('1' as u32) {
        return None;
    }
    let file = lower - ('a' as u32);
    let rank = (k as u32) - ('1' as u32);
    if file < 8 && rank < 8 {
        Some((file as usize, rank as usize))
    } else {
        None
    }
}

/// The flat colours of a theme: the background, the far background, the
/// light and dark squares, and the highlight.
pub open spec fn spec_canvas_theme(theme: Theme) -> (Seq<char>, Seq<char>, Seq<char>, Seq<char>, Seq<char>) {
    match theme {
        Theme::Classic => ("#080d18"@, "#101827"@, "#d6d3c5"@, "#455064"@, "#facc15"@),
        Theme::Volcano => ("#130806"@, "#24100d"@, "#f59e0b"@, "#7f1d1d"@, "#fb7185"@),
        Theme::Ice => ("#06121e"@, "#0f2738"@, "#dff7ff"@, "#5b8fb1"@, "#67e8f9"@),
        Theme::Cyberpunk => ("#050716"@, "#0c1028"@, "#8b5cf6"@, "#111827"@, "#22d3ee"@),
        Theme::Forest => ("#06140d"@, "#0f2416"@, "#bad7a0"@, "#36543a"@, "#86efac"@),
        Theme::Castle => ("#0d111d"@, "#171c2a"@, "#cbd5e1"@, "#475569"@, "#fbbf24"@),
        Theme::Desert => ("#1a1207"@, "#2a1b0c"@, "#f5deb3"@, "#9a6a35"@, "#fde68a"@),
        Theme::Galaxy => ("#050312"@, "#111032"@, "#c4b5fd"@, "#312e81"@, "#a78bfa"@),
    }
}

/// The flat colours of a theme.
pub fn canvas_theme(theme: Theme) -> (r: (&'static str, &'static str, &'static str, &'static str, &'static str))
    ensures
        (r.0@, r.1@, r.2@, r.3@, r.4@) == spec_canvas_theme(theme),
{
    match theme {
        Theme::Classic => ("#080d18", "#101827", "#d6d3c5", "#455064", "#facc15"),
        Theme::Volcano => ("#130806", "#24100d", "#f59e0b", "#7f1d1d", "#fb7185"),
        Theme::Ice => ("#06121e", "#0f2738", "#dff7ff", "#5b8fb1", "#67e8f9"),
        Theme::Cyberpunk => ("#050716", "#0c1028", "#8b5cf6", "#111827", "#22d3ee"),
        Theme::Forest => ("#06140d", "#0f2416", "#bad7a0", "#36543a", "#86efac"),
        Theme::Castle => ("#0d111d", "#171c2a", "#cbd5e1", "#475569", "#fbbf24"),
        Theme::Desert => ("#1a1207", "#2a1b0c", "#f5deb3", "#9a6a35", "#fde68a"),
        Theme::Galaxy => ("#050312", "#111032", "#c4b5fd", "#312e81", "#a78bfa"),
    }
}

/// The position of a theme in declaration order.
pub open spec fn spec_theme_index(theme: Theme) -> u64 {
    match theme {
        Theme::Classic => 0,
        Theme::Volcano => 1,
        Theme::Ice => 2,
        Theme::Cyberpunk => 3,
        Theme::Forest => 4,
        Theme::Castle => 5,
        Theme::Desert => 6,
        Theme::Galaxy => 7,
    }
}

/// The index that picks a theme's materials.
pub fn theme_index(theme: Theme) -> (r: u64)
    ensures
        r == spec_theme_index(theme),
        Theme::ALL@[r as int] == theme,
{
    match theme {
        Theme::Classic => 0,
        Theme::Volcano => 1,
        Theme::Ice => 2,
        Theme::Cyberpunk => 3,
        Theme::Forest => 4,
        Theme::Castle => 5,
        Theme::Desert => 6,
        Theme::Galaxy => 7,
    }
}

/// The position of a skin in declaration order.
pub open spec fn spec_skin_index(skin: SkinType) -> u64 {
    match skin {
        SkinType::Classic => 0,
        SkinType::Marble => 1,
        SkinType::Gold => 2,
        SkinType::Crystal => 3,
        SkinType::Bronze => 4,
        SkinType::Shadow => 5,
        SkinType::Neon => 6,
        SkinType::Wood => 7,
    }
}

/// The index that picks a skin's materials.
pub fn skin_index(skin: SkinType) -> (r: u64)
    ensures
        r == spec_skin_index(skin),
        SkinType::ALL@[r as int] == skin,
{
    match skin {
        SkinType::Classic => 0,
        SkinType::Marble => 1,
        SkinType::Gold => 2,
        SkinType::Crystal => 3,
        SkinType::Bronze => 4,
        SkinType::Shadow => 5,
        SkinType::Neon => 6,
        SkinType::Wood => 7,
    }
}

/// The square of the first king of `color` in `pieces`, if any.
pub open spec fn first_king(pieces: Seq<(PieceKind, PlayerColor, Seq<char>)>, color: PlayerColor) -> Option<Seq<char>>
    decreases pieces.len(),
{
    if pieces.len() == 0 {
        None
    } else if pieces[0].0 == PieceKind::King && pieces[0].1 == color {
        Some(pieces[0].2)
    } else {
        first_king(pieces.drop_first(), color)
    }
}

/// The square of the king in check: while the side to move is in check,
/// the first of its kings among the pieces shown.
pub open spec fn spec_check_square(g: GameController) -> Option<Seq<char>> {
    if g.is_check {
        first_king(scan_placement(placement_field(spec_visible_fen(g))).pieces, g.turn)
    } else {
        None
    }
}

/// The square of the king in check, if the side to move is in check.
pub fn check_square(g: &GameController) -> (r: Option<String>)
    requires
        !scan_placement(placement_field(spec_visible_fen(*g))).overflow,
    ensures
        match r {
            Some(s) => spec_check_square(*g) == Some(s@),
            None => spec_check_square(*g) is None,
        },
{
    if !g.is_check {
        return None;
    }
    let pieces = g.pieces();
    let ghost ps = scan_placement(placement_field(spec_visible_fen(*g))).pieces;
    let mut i: usize = 0;
    assert(ps.subrange(0, ps.len() as int) =~= ps);
    while i < pieces.len()
        invariant
            i <= pieces@.len(),
            g.is_check,
            ps == scan_placement(placement_field(spec_visible_fen(*g))).pieces,
            pieces@.len() == ps.len(),
            forall|j: int| 0 <= j < ps.len() ==> {
                let p = #[trigger] ps[j];
                &&& pieces@[j].kind == p.0
                &&& pieces@[j].color == p.1
                &&& pieces@[j].square@ == p.2
            },
            first_king(ps, g.turn) == first_king(ps.subrange(i as int, ps.len() as int), g.turn),
        decreases pieces@.len() - i,
    {
        let ghost rest = ps.subrange(i as int, ps.len() as int);
        assert(rest[0] == ps[i as int]);
        if pieces[i].kind == PieceKind::King && pieces[i].color == g.turn {
            let ghost p = ps[i as int];
            assert(pieces@[i as int].square@ == p.2);
            assert(first_king(rest, g.turn) == Some(rest[0].2));
            return Some(owned(pieces[i].square.as_str()));
        }
        assert(rest.drop_first() =~= ps.subrange(i + 1, ps.len() as int));
        i = i + 1;
    }
    None
}

pub open spec fn spec_square_highlight(g: GameController, check: Option<Seq<char>>, square: Seq<char>) -> Option<Seq<char>> {
    if g.selected_square matches Some(s) && s@ == square {
        Some("rgba(250, 204, 21, 0.48)"@)
    } else if exists|i: int| 0 <= i < g.valid_moves@.len() && #[trigger] g.valid_moves@[i]@ == square {
        Some("rgba(52, 211, 153, 0.34)"@)
    } else if g.last_move matches Some(m) && (m.from@ == square || m.to@ == square) {
        Some("rgba(129, 140, 248, 0.34)"@)
    } else if check == Some(square) {
        Some("rgba(239, 68, 68, 0.46)"@)
    } else {
        None
    }
}

/// The colour laid over `square` on the board: the selection first, then
/// the squares the selection can move to, then the last move's squares,
/// then the king in check (on `check`); none elsewhere.
pub fn square_highlight(g: &GameController, check: &Option<String>, square: &str) -> (r: Option<&'static str>)
    ensures
        match r {
            Some(c) => spec_square_highlight(*g, match check { Some(c) => Some(c@), None => None }, square@) == Some(c@),
            None => spec_square_highlight(*g, match check { Some(c) => Some(c@), None => None }, square@) is None,
        },
{
    match &g.selected_square {
        Some(s) => {
            if str_eq(s.as_str(), square) {
                return Some("rgba(250, 204, 21, 0.48)");
            }
        },
        None => {},
    }
    let mut i: usize = 0;
    while i < g.valid_moves.len()
        invariant
            i <= g.valid_moves@.len(),
            !(g.selected_square matches Some(s) && s@ == square@),
            forall|j: int| 0 <= j < i ==> g.valid_moves@[j]@ != square@,
        decreases g.valid_moves@.len() - i,
    {
        if str_eq(g.valid_moves[i].as_str(), square) {
            assert(g.valid_moves@[i as int]@ == square@);
            return Some("rgba(52, 211, 153, 0.34)");
        }
        i = i + 1;
    }
    match &g.last_move {
        Some(m) => {
            if str_eq(m.from.as_str(), square) || str_eq(m.to.as_str(), square) {
                return Some("rgba(129, 140, 248, 0.34)");
            }
        },
        None => {},
    }
    match check {
        Some(c) => {
            if str_eq(c.as_str(), square) {
                return Some("rgba(239, 68, 68, 0.46)");
            }
        },
        None => {},
    }
    None
}

} // verus!
