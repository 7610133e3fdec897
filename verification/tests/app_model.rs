use royal_chess::app::AppModel;
use royal_chess::bot::BotRolls;
use royal_chess::storage::{StorageOp, StoredUser, ACTIVE_USER_KEY, USERS_KEY};
use royal_chess::types::{
    AppScreen, CampaignProgress, Difficulty, EmoteType, GameMode, GameSettings, LocalUser, MatchRecord,
    ProfileCustomization, SkinType, Theme,
};

fn fresh(user: Option<LocalUser>, matches: Vec<MatchRecord>) -> AppModel {
    AppModel::load(
        user,
        matches,
        ProfileCustomization::default(),
        SkinType::Classic,
        EmoteType::Bow,
        CampaignProgress::default(),
        GameSettings::default(),
    )
}

fn record(result: &str) -> MatchRecord {
    MatchRecord { id: 1, opponent: "x".into(), result: result.into(), moves: String::new(), date: "d".into() }
}

#[test]
fn load_without_account() {
    let app = fresh(None, vec![record("win")]);
    assert_eq!(app.player_name, "Player");
    assert!(app.matches.is_empty());
    assert_eq!(app.screen, AppScreen::Menu);
}

#[test]
fn stats_count_results() {
    let user = LocalUser { username: "ann".into(), email: "a@b".into() };
    let app = fresh(Some(user), vec![record("win"), record("win"), record("loss"), record("draw")]);
    let stats = app.stats();
    assert_eq!(stats.username, "ann");
    assert_eq!(stats.wins, 2);
    assert_eq!(stats.losses, 1);
    assert_eq!(stats.draws, 1);
    assert_eq!(stats.total_matches, 4);
    assert_eq!(stats.elo, 1200 + 36 - 14);
}

#[test]
fn register_then_login() {
    let mut app = fresh(None, Vec::new());
    let mut users: Vec<StoredUser> = Vec::new();
    let (ok, ops) = app.register(&mut users, Vec::new(), "ann", "a@b", "pw");
    assert!(ok);
    assert_eq!(ops.len(), 2);
    assert!(matches!(&ops[0], StorageOp::Write(k) if k == USERS_KEY));
    assert!(matches!(&ops[1], StorageOp::Write(k) if k == ACTIVE_USER_KEY));
    assert_eq!(users.len(), 1);
    assert_eq!(app.player_name, "ann");
    let (ok, ops) = app.register(&mut users, Vec::new(), "ann", "x@y", "pw2");
    assert!(!ok);
    assert!(ops.is_empty());
    assert_eq!(app.auth_error.as_deref(), Some("That local username already exists."));
    let (ok, op) = app.login(&users, Vec::new(), "ann", "wrong");
    assert!(!ok);
    assert!(op.is_none());
    assert_eq!(app.auth_error.as_deref(), Some("Invalid local username or password."));
    let (ok, op) = app.login(&users, vec![record("win")], "ann", "pw");
    assert!(ok);
    assert!(matches!(op, Some(StorageOp::Write(k)) if k == ACTIVE_USER_KEY));
    assert!(app.auth_error.is_none());
    assert_eq!(app.matches.len(), 1);
    assert_eq!(app.user.as_ref().unwrap().email, "a@b");
}

#[test]
fn recording_step_records_newest_first_then_nothing() {
    let user = LocalUser { username: "ann".into(), email: "a@b".into() };
    let mut app = fresh(Some(user), vec![record("loss")]);
    app.start_game(GameMode::PlayerVsPlayer, Difficulty::Medium, 0);
    for (f, t) in [("f2", "f3"), ("e7", "e5"), ("g2", "g4"), ("d8", "h4")] {
        assert!(app.game.make_move(f, t, None));
    }
    let op = app.record_match_once(9, "day");
    assert!(matches!(op, Some(StorageOp::Write(k)) if k == "gm3d_rs_matches_ann"));
    assert_eq!(app.matches.len(), 2);
    assert_eq!(app.matches[0].moves, "f2f3 e7e5 g2g4 d8h4");
    assert_eq!(app.matches[0].result, "loss");
    assert_eq!(app.matches[1].result, "loss");
    assert_eq!(app.recorded_fen_count, 5);
    assert!(app.record_match_once(10, "day").is_none());
    assert_eq!(app.matches.len(), 2);
}

#[test]
fn finished_match_is_recorded_once() {
    let user = LocalUser { username: "ann".into(), email: "a@b".into() };
    let mut app = fresh(Some(user), Vec::new());
    app.start_game(GameMode::PlayerVsPlayer, Difficulty::Medium, 0);
    for (f, t) in [("f2", "f3"), ("e7", "e5"), ("g2", "g4"), ("d8", "h4")] {
        assert!(app.game.make_move(f, t, None));
        let saves = app.after_move(7, "today");
        if f != "d8" {
            assert!(saves.is_empty());
        } else {
            assert_eq!(saves.len(), 1);
            assert!(matches!(&saves[0], StorageOp::Write(k) if k == "gm3d_rs_matches_ann"));
        }
    }
    assert_eq!(app.matches.len(), 1);
    assert_eq!(app.matches[0].result, "loss");
    assert_eq!(app.matches[0].opponent, "Local Player");
    assert_eq!(app.matches[0].moves, "f2f3 e7e5 g2g4 d8h4");
    assert_eq!(app.matches[0].date, "today");
    assert!(app.after_move(8, "later").is_empty());
    assert_eq!(app.matches.len(), 1);
}

#[test]
fn story_win_unlocks_next_chapter() {
    let mut app = fresh(None, Vec::new());
    app.campaign_progress.unlocked_skins = vec![SkinType::Classic];
    let op = app.start_story(1);
    assert!(op.is_some());
    assert_eq!(app.settings.theme, Theme::Classic);
    app.game.fen = "6k1/5ppp/8/8/8/8/8/R5K1 w - - 0 1".to_string();
    app.game.sync_status();
    assert!(app.game.make_move("a1", "a8", None));
    assert!(app.game.is_game_over);
    let saves = app.after_move(1, "d");
    assert_eq!(saves.len(), 1);
    assert_eq!(app.campaign_progress.current_chapter, 2);
    assert_eq!(app.campaign_progress.completed_chapters, vec![1]);
    assert_eq!(app.campaign_progress.unlocked_skins, vec![SkinType::Classic, SkinType::Marble]);
    assert!(app.start_story(99).is_none());
}

#[test]
fn engine_game_against_story_uses_rolls() {
    let mut app = fresh(None, Vec::new());
    app.start_game(GameMode::PlayerVsAi, Difficulty::Easy, 0);
    assert_eq!(app.screen, AppScreen::Game);
    assert!(app.game.make_move("e2", "e4", None));
    assert!(app.game.make_bot_move(BotRolls { first: 0, second: 1 << 63, third: 0 }));
}
