//! What the menus show: names as typed, lists of taken pieces, and the
//! icons of skins, emotes and themes.
use vstd::prelude::*;

use crate::app::join_words;
use crate::text::{is_white_space, owned, white_space, char_range};
use crate::game::GameController;
use crate::types::{Difficulty, EmoteType, GameMode, PieceKind, SkinType, Theme, Weather};

verus! {

/// `s` without its leading white space.
pub open spec fn trim_start(s: Seq<char>) -> Seq<char>
    decreases s.len(),
{
    if s.len() > 0 && is_white_space(s[0]) {
        trim_start(s.drop_first())
    } else {
        s
    }
}

/// `s` without its trailing white space.
pub open spec fn trim_end(s: Seq<char>) -> Seq<char>
    decreases s.len(),
{
    if s.len() > 0 && is_white_space(s.last()) {
        trim_end(s.drop_last())
    } else {
        s
    }
}

/// `s` without white space at either end, as `str::trim` has it.
pub open spec fn trimmed(s: Seq<char>) -> Seq<char> {
    trim_end(trim_start(s))
}

/// `s` without white space at either end.
pub fn trim(s: &str) -> (r: String)
    ensures
        r@ == trimmed(s@),
{
    let n = s.unicode_len();
    let mut i: usize = 0;
    assert(s@.subrange(0, n as int) =~= s@);
    while i < n && white_space(s.get_char(i))
        invariant
            n == s@.len(),
            i <= n,
            trim_start(s@) == trim_start(s@.subrange(i as int, n as int)),
        decreases n - i,
    {
        assert(s@.subrange(i as int, n as int).drop_first() =~= s@.subrange(i + 1, n as int));
        i = i + 1;
    }
    let ghost front = s@.subrange(i as int, n as int);
    assert(trim_start(s@) == front);
    let mut j: usize = n;
    while j > i && white_space(s.get_char(j - 1))
        invariant
            n == s@.len(),
            i <= j <= n,
            front == s@.subrange(i as int, n as int),
            trim_end(front) == trim_end(s@.subrange(i as int, j as int)),
        decreases j - i,
    {
        assert(s@.subrange(i as int, j as int).drop_last() =~= s@.subrange(i as int, j - 1));
        j = j - 1;
    }
    char_range(s, i, j)
}

/// The name a player typed, trimmed; `Player` when nothing but white space
/// was typed.
pub open spec fn spec_name_or_player(value: Seq<char>) -> Seq<char> {
    if trimmed(value).len() == 0 { "Player"@ } else { trimmed(value) }
}

/// Neither end of what `trim_start` leaves is white space at its front.
pub proof fn lemma_trim_start_front(s: Seq<char>)
    ensures
        trim_start(s).len() > 0 ==> !is_white_space(trim_start(s)[0]),
        trim_start(s).len() == 0 ==> trim_end(trim_start(s)).len() == 0,
    decreases s.len(),
{
    if s.len() > 0 && is_white_space(s[0]) {
        lemma_trim_start_front(s.drop_first());
    }
}

/// `trim_end` keeps a prefix of `t`, whose last character is no white
/// space, and keeps a first character that is no white space.
pub proof fn lemma_trim_end_prefix(t: Seq<char>)
    ensures
        trim_end(t).len() <= t.len(),
        trim_end(t) == t.take(trim_end(t).len() as int),
        trim_end(t).len() > 0 ==> !is_white_space(trim_end(t).last()),
        t.len() > 0 && !is_white_space(t[0]) ==> trim_end(t).len() > 0,
    decreases t.len(),
{
    if t.len() > 0 && is_white_space(t.last()) {
        lemma_trim_end_prefix(t.drop_last());
        assert(t.drop_last().take(trim_end(t).len() as int) =~= t.take(trim_end(t).len() as int));
    } else {
        assert(t.take(t.len() as int) =~= t);
    }
}

/// A trimmed string is its own trim.
pub proof fn lemma_trimmed_idempotent(s: Seq<char>)
    ensures
        trimmed(trimmed(s)) == trimmed(s),
        trimmed(s).len() > 0 ==> !is_white_space(trimmed(s)[0]) && !is_white_space(trimmed(s).last()),
{
    let a = trim_start(s);
    let t = trim_end(a);
    lemma_trim_start_front(s);
    lemma_trim_end_prefix(a);
    if t.len() > 0 {
        assert(t[0] == a[0]);
        assert(trim_start(t) == t);
        assert(trim_end(t) == t);
    } else {
        assert(trim_start(t) == t);
        assert(trim_end(t) == t);
    }
}

/// The name a player typed, trimmed; `Player` when nothing but white space
/// was typed.
pub fn name_or_player(value: &str) -> (r: String)
    ensures
        r@ == spec_name_or_player(value@),
{
    let t = trim(value);
    if t.unicode_len() == 0 {
        owned("Player")
    } else {
        t
    }
}

/// The labels of `pieces`.
pub open spec fn piece_labels(pieces: Seq<PieceKind>) -> Seq<Seq<char>> {
    pieces.map_values(|p: PieceKind| p.spec_label())
}

/// The labels of `pieces` separated by spaces, or `none`.
pub fn piece_list(pieces: &[PieceKind]) -> (r: String)
    ensures
        r@ == (if pieces@.len() == 0 { "none"@ } else { join_words(piece_labels(pieces@), " "@) }),
{
    if pieces.len() == 0 {
        return owned("none");
    }
    let mut r = String::new();
    let mut i: usize = 0;
    while i < pieces.len()
        invariant
            i <= pieces@.len(),
            r@ == join_words(piece_labels(pieces@).take(i as int), " "@),
        decreases pieces@.len() - i,
    {
        let ghost ls = piece_labels(pieces@);
        assert(ls.take(i + 1).drop_last() =~= ls.take(i as int));
        if i > 0 {
            r.append(" ");
        } else {
            assert(ls.take(0) =~= Seq::<Seq<char>>::empty());
        }
        r.append(pieces[i].label());
        i = i + 1;
    }
    assert(piece_labels(pieces@).take(pieces@.len() as int) =~= piece_labels(pieces@));
    r
}

/// The weather whose label is `value`, if any.
pub fn weather_from_label(value: &str) -> (r: Option<Weather>)
    ensures
        match r {
            Some(w) => w.spec_label() == value@,
            None => forall|w: Weather| #[trigger] w.spec_label() != value@,
        },
{
    let mut k: usize = 0;
    while k < 6
        invariant
            k <= 6,
            forall|j: int| 0 <= j < k ==> #[trigger] Weather::ALL@[j].spec_label() != value@,
        decreases 6 - k,
    {
        let w = Weather::ALL[k];
        if crate::text::str_eq(w.label(), value) {
            return Some(w);
        }
        k = k + 1;
    }
    assert forall|w: Weather| #[trigger] w.spec_label() != value@ by {
        match w {
            Weather::Clear => assert(Weather::ALL@[0].spec_label() != value@),
            Weather::Rain => assert(Weather::ALL@[1].spec_label() != value@),
            Weather::Snow => assert(Weather::ALL@[2].spec_label() != value@),
            Weather::Fog => assert(Weather::ALL@[3].spec_label() != value@),
            Weather::Storm => assert(Weather::ALL@[4].spec_label() != value@),
            Weather::Dust => assert(Weather::ALL@[5].spec_label() != value@),
        }
    }
    None
}

/// The style of a difficulty button: highlighted when it is the chosen one.
pub fn difficulty_class(active: Difficulty, item: Difficulty) -> (r: &'static str)
    ensures
        r@ == (if active == item { "btn btn-indigo"@ } else { "btn"@ }),
{
    if active == item {
        "btn btn-indigo"
    } else {
        "btn"
    }
}

pub open spec fn spec_skin_icon(skin: SkinType) -> Seq<char> {
    match skin {
        SkinType::Classic => "\u{265F}"@,
        SkinType::Marble => "\u{25C8}"@,
        SkinType::Gold => "\u{265B}"@,
        SkinType::Crystal => "\u{2726}"@,
        SkinType::Bronze => "\u{25CF}"@,
        SkinType::Shadow => "\u{25D2}"@,
        SkinType::Neon => "\u{273A}"@,
        SkinType::Wood => "\u{25C6}"@,
    }
}

/// The icon of a skin.
pub fn skin_icon(skin: SkinType) -> (r: &'static str)
    ensures
        r@ == spec_skin_icon(skin),
{
    match skin {
        SkinType::Classic => "\u{265F}",
        SkinType::Marble => "\u{25C8}",
        SkinType::Gold => "\u{265B}",
        SkinType::Crystal => "\u{2726}",
        SkinType::Bronze => "\u{25CF}",
        SkinType::Shadow => "\u{25D2}",
        SkinType::Neon => "\u{273A}",
        SkinType::Wood => "\u{25C6}",
    }
}

pub open spec fn spec_emote_icon(emote: EmoteType) -> Seq<char> {
    match emote {
        EmoteType::Off => "\u{2205}"@,
        EmoteType::Bow => "\u{21AF}"@,
        EmoteType::Salute => "\u{2691}"@,
        EmoteType::Spin => "\u{21BB}"@,
        EmoteType::Power => "\u{26A1}"@,
    }
}

/// The icon of an emote.
pub fn emote_icon(emote: EmoteType) -> (r: &'static str)
    ensures
        r@ == spec_emote_icon(emote),
{
    match emote {
        EmoteType::Off => "\u{2205}",
        EmoteType::Bow => "\u{21AF}",
        EmoteType::Salute => "\u{2691}",
        EmoteType::Spin => "\u{21BB}",
        EmoteType::Power => "\u{26A1}",
    }
}

pub open spec fn spec_theme_icon(theme: Theme) -> Seq<char> {
    match theme {
        Theme::Classic => "\u{265C}"@,
        Theme::Volcano => "\u{25B2}"@,
        Theme::Ice => "\u{2744}"@,
        Theme::Cyberpunk => "\u{25C6}"@,
        Theme::Forest => "\u{2726}"@,
        Theme::Castle => "\u{2656}"@,
        Theme::Desert => "\u{25CD}"@,
        Theme::Galaxy => "\u{273A}"@,
    }
}

/// The icon of a theme.
pub fn theme_icon(theme: Theme) -> (r: &'static str)
    ensures
        r@ == spec_theme_icon(theme),
{
    match theme {
        Theme::Classic => "\u{265C}",
        Theme::Volcano => "\u{25B2}",
        Theme::Ice => "\u{2744}",
        Theme::Cyberpunk => "\u{25C6}",
        Theme::Forest => "\u{2726}",
        Theme::Castle => "\u{2656}",
        Theme::Desert => "\u{25CD}",
        Theme::Galaxy => "\u{273A}",
    }
}

/// The title over the board: the replay, a boss fight or a puzzle where
/// one is on, otherwise whose turn it is; ` - CHECK` follows when the side
/// to move is in check.
pub open spec fn spec_status_title(g: GameController) -> Seq<char> {
    let head = if g.is_replay_mode {
        "REPLAY MODE"@
    } else if g.boss_state.is_active {
        "BOSS FIGHT"@
    } else if g.game_mode == GameMode::Puzzles {
        "PUZZLE MODE"@
    } else {
        g.turn.spec_label() + "'s Turn"@
    };
    if g.is_check { head + " - CHECK"@ } else { head }
}

/// The title over the board.
pub fn status_title(g: &GameController) -> (r: String)
    ensures
        r@ == spec_status_title(*g),
{
    let mut r = if g.is_replay_mode {
        owned("REPLAY MODE")
    } else if g.boss_state.is_active {
        owned("BOSS FIGHT")
    } else if g.game_mode == GameMode::Puzzles {
        owned("PUZZLE MODE")
    } else {
        crate::text::join2(g.turn.label(), "'s Turn")
    };
    if g.is_check {
        r.append(" - CHECK");
    }
    r
}

} // verus!
