use royal_chess::audio::{AudioSystem, Tone};
use royal_chess::constants::{find_story_chapter, sample_puzzle, story_chapters};
use royal_chess::squares::{pieces_from_fen, square_from_name, square_name};
use royal_chess::storage::{
    load_active_emote, load_active_skin, load_matches, load_settings, matches_key, save_active_user,
    save_matches, StorageOp,
};
use royal_chess::text::{push_decimal, split_words};
use royal_chess::types::{
    BoardMutation, Difficulty, EmoteType, GameSettings, LocalUser, PieceKind, PlayerColor, SkinType, Theme,
    TimeOfDay, Weather,
};

#[test]
fn colors_alternate() {
    assert_eq!(PlayerColor::White.opposite(), PlayerColor::Black);
    assert_eq!(PlayerColor::Black.opposite(), PlayerColor::White);
    assert_eq!(PlayerColor::White.opposite().opposite(), PlayerColor::White);
    assert_eq!(PlayerColor::Black.label(), "Black");
}

#[test]
fn labels_name_each_variant() {
    assert_eq!(PieceKind::Knight.label(), "N");
    assert_eq!(Difficulty::Hard.label(), "Hard");
    assert_eq!(Difficulty::Easy.depth(), 1);
    assert_eq!(Difficulty::Medium.depth(), 2);
    assert_eq!(Difficulty::Hard.depth(), 3);
    assert_eq!(Theme::Volcano.label(), "Volcano Arena");
    assert_eq!(Weather::Dust.label(), "Dust");
    assert_eq!(TimeOfDay::Sunset.label(), "Sunset");
    assert_eq!(BoardMutation::Off.label(), "None");
    assert_eq!(SkinType::Neon.label(), "Neon");
    assert_eq!(EmoteType::Off.label(), "None");
    assert_eq!(Theme::ALL.len(), 8);
}

#[test]
fn square_names_round_trip() {
    for sq in 0..64u8 {
        assert_eq!(square_from_name(&square_name(sq)), Some(sq));
    }
    assert_eq!(square_name(0), "a1");
    assert_eq!(square_name(63), "h8");
    assert_eq!(square_from_name("E4"), Some(28));
    assert_eq!(square_from_name("e9"), None);
    assert_eq!(square_from_name("e44"), None);
    assert_eq!(square_from_name(""), None);
}

#[test]
fn start_position_has_thirty_two_pieces() {
    let pieces = pieces_from_fen("rnbqkbnr/pppppppp/8/8/8/8/PPPPPPPP/RNBQKBNR w KQkq - 0 1");
    assert_eq!(pieces.len(), 32);
    assert_eq!(pieces[0].square, "a8");
    assert_eq!(pieces[0].kind, PieceKind::Rook);
    assert_eq!(pieces[0].color, PlayerColor::Black);
    assert_eq!(pieces[31].square, "h1");
    assert_eq!(pieces[31].color, PlayerColor::White);
}

#[test]
fn placement_reading_skips_unknown_letters() {
    let pieces = pieces_from_fen("  4k3/x7/8/8/8/8/8/4K3 w - - 0 1");
    assert_eq!(pieces.len(), 2);
    assert_eq!(pieces[0].square, "e8");
    assert_eq!(pieces[1].square, "e1");
    assert!(pieces_from_fen("").is_empty());
}

#[test]
fn words_split_on_white_space() {
    let ws = split_words("  e2e4\te7e5\n g1f3 ");
    let ws: Vec<String> = ws.into_iter().map(|w| w.into_iter().collect()).collect();
    assert_eq!(ws, vec!["e2e4", "e7e5", "g1f3"]);
}

#[test]
fn decimals_are_written() {
    let mut s = String::from("r=");
    push_decimal(&mut s, 1300);
    assert_eq!(s, "r=1300");
    let mut z = String::new();
    push_decimal(&mut z, 0);
    assert_eq!(z, "0");
}

#[test]
fn story_and_puzzles_are_listed() {
    let chapters = story_chapters();
    assert_eq!(chapters.len(), 5);
    assert_eq!(chapters[2].enemy_name, "Crystal Queen");
    assert_eq!(find_story_chapter(5).unwrap().reward_skin, Some(SkinType::Neon));
    assert!(find_story_chapter(0).is_none());
    assert_eq!(sample_puzzle(3).moves, &["c3d5", "f6d5", "e4d5"]);
}

#[test]
fn storage_defaults() {
    let settings = load_settings(None);
    assert!(settings.show_animations);
    assert_eq!(settings.theme, Theme::Classic);
    let custom = GameSettings { theme: Theme::Galaxy, ..GameSettings::default() };
    assert_eq!(load_settings(Some(custom)).theme, Theme::Galaxy);
    assert_eq!(load_active_skin(None), SkinType::Classic);
    assert_eq!(load_active_emote(None), EmoteType::Bow);
    assert!(load_matches(None).is_empty());
}

#[test]
fn storage_keys() {
    assert_eq!(matches_key("ann"), "gm3d_rs_matches_ann");
    match save_matches("bob", &[]) {
        StorageOp::Write(k) => assert_eq!(k, "gm3d_rs_matches_bob"),
        StorageOp::Remove(_) => panic!("expected a write"),
    }
    match save_active_user(None) {
        StorageOp::Remove(k) => assert_eq!(k, "gm3d_rs_active_user"),
        StorageOp::Write(_) => panic!("expected a removal"),
    }
    let user = LocalUser { username: "ann".into(), email: "a@b".into() };
    assert!(matches!(save_active_user(Some(&user)), StorageOp::Write(_)));
}

#[test]
fn sounds() {
    let audio = AudioSystem;
    assert_eq!(audio.play_move(true), Some(Tone { start_hz: 320, end_hz: 120, duration_ms: 100 }));
    assert_eq!(audio.play_capture(true), Some(Tone { start_hz: 130, end_hz: 70, duration_ms: 180 }));
    assert_eq!(audio.play_win(true), Some(Tone { start_hz: 660, end_hz: 440, duration_ms: 320 }));
    assert_eq!(audio.play_win(false), None);
    let speech = audio.speak("Check", true).unwrap();
    assert_eq!(speech.text, "Check");
    assert_eq!(speech.volume_percent, 80);
    assert!(audio.speak("Check", false).is_none());
}
