use royal_chess::game::GameController;
use royal_chess::menu::status_title;
use royal_chess::types::GameMode;
use royal_chess::menu::{difficulty_class, emote_icon, name_or_player, piece_list, skin_icon, theme_icon, trim, weather_from_label};
use royal_chess::types::{Difficulty, EmoteType, PieceKind, SkinType, Theme, Weather};

#[test]
fn typed_name_is_trimmed() {
    assert_eq!(name_or_player("  Ann Lee \t"), "Ann Lee");
    assert_eq!(name_or_player("Bo"), "Bo");
}

#[test]
fn blank_name_becomes_player() {
    assert_eq!(name_or_player(""), "Player");
    assert_eq!(name_or_player(" \n\t "), "Player");
}

#[test]
fn trim_matches_std() {
    for s in ["", " ", "a", " a ", "\u{3000}x y\u{A0}", "\t\tab\r\n"] {
        assert_eq!(trim(s), s.trim());
    }
}

#[test]
fn piece_list_joins_labels() {
    assert_eq!(piece_list(&[]), "none");
    assert_eq!(piece_list(&[PieceKind::Pawn]), "P");
    assert_eq!(piece_list(&[PieceKind::Pawn, PieceKind::Queen, PieceKind::Knight]), "P Q N");
}

#[test]
fn weather_is_found_by_label() {
    assert_eq!(weather_from_label("Snow"), Some(Weather::Snow));
    assert_eq!(weather_from_label("Dust"), Some(Weather::Dust));
    assert_eq!(weather_from_label("snow"), None);
    assert_eq!(weather_from_label(""), None);
}

#[test]
fn chosen_difficulty_is_highlighted() {
    assert_eq!(difficulty_class(Difficulty::Hard, Difficulty::Hard), "btn btn-indigo");
    assert_eq!(difficulty_class(Difficulty::Hard, Difficulty::Easy), "btn");
}

#[test]
fn icons() {
    assert_eq!(skin_icon(SkinType::Gold), "♛");
    assert_eq!(emote_icon(EmoteType::Power), "⚡");
    assert_eq!(emote_icon(EmoteType::Off), "∅");
    assert_eq!(theme_icon(Theme::Ice), "❄");
}

#[test]
fn typed_name_taken_twice_is_the_same() {
    for typed in ["  Ann ", "", "\t", "Bo Li", " x\u{3000}"] {
        let once = name_or_player(typed);
        assert_eq!(name_or_player(&once), once);
    }
}

#[test]
fn status_title_names_the_situation() {
    let mut g = GameController::default();
    assert_eq!(status_title(&g), "White's Turn");
    assert!(g.make_move("e2", "e4", None));
    assert_eq!(status_title(&g), "Black's Turn");
    g.is_check = true;
    assert_eq!(status_title(&g), "Black's Turn - CHECK");
    g.start_replay();
    assert_eq!(status_title(&g), "REPLAY MODE - CHECK");
    let mut b = GameController::default();
    b.init(GameMode::Boss, Difficulty::Hard, "Ann", 0);
    assert_eq!(status_title(&b), "BOSS FIGHT");
    let mut p = GameController::default();
    p.init(GameMode::Puzzles, Difficulty::Easy, "Ann", 0);
    assert_eq!(status_title(&p), "PUZZLE MODE");
}
