use royal_chess::bot::BotRolls;
use royal_chess::game::{GameController, START_FEN};
use royal_chess::types::{CinematicMode, Difficulty, GameMode, PieceKind, PlayerColor};

/// Draws of 0.37, as numerators over 2^64.
fn native_rolls() -> BotRolls {
    BotRolls { first: 6825295307272534016, second: 6825295307272534016, third: 6825295307272534016 }
}

#[test]
fn parses_and_applies_legal_move() {
    let mut game = GameController::default();
    assert!(game.make_move("e2", "e4", None));
    assert_eq!(game.turn, PlayerColor::Black);
    assert_eq!(game.history_uci, vec!["e2e4"]);
}

#[test]
fn rejects_illegal_move() {
    let mut game = GameController::default();
    assert!(!game.make_move("e2", "e5", None));
    assert_eq!(game.fen, START_FEN);
}

#[test]
fn promotion_can_be_completed() {
    let mut game = GameController::default();
    game.fen = "8/P7/8/8/8/8/8/4k2K w - - 0 1".to_string();
    game.sync_status();
    assert!(!game.make_move("a7", "a8", None));
    assert!(game.promotion_pending.is_some());
    assert!(game.set_promotion(PieceKind::Queen));
    assert!(game.fen.starts_with("Q7/8/8/8/8/8/8/4k2K"));
}

#[test]
fn puzzle_rejects_wrong_move() {
    let mut game = GameController::default();
    game.init(GameMode::Puzzles, Difficulty::Easy, "Player", 0);
    assert!(!game.make_move("a2", "a3", None));
    assert!(!game.is_puzzle_solved);
}

#[test]
fn replay_cursor_moves() {
    let mut game = GameController::default();
    assert!(game.make_move("e2", "e4", None));
    game.start_replay();
    game.prev_replay_move();
    assert_eq!(game.replay_index, 0);
    game.next_replay_move();
    assert_eq!(game.replay_index, 1);
}

#[test]
fn new_game_starts_from_the_initial_position() {
    let game = GameController::default();
    assert_eq!(game.fen, START_FEN);
    assert_eq!(game.history_fen, vec![START_FEN.to_string()]);
    assert_eq!(game.commentary, "Welcome to Royal 3D Chess.");
    assert_eq!(game.turn, PlayerColor::White);
    assert!(!game.is_game_over);
}

#[test]
fn legal_move_is_recorded() {
    let mut game = GameController::default();
    assert!(game.make_move("g1", "f3", None));
    assert_eq!(game.history, vec!["Ng1-f3"]);
    assert_eq!(game.history_fen.len(), 2);
    assert_eq!(game.history_fen[1], game.fen);
    assert_eq!(game.fen, "rnbqkbnr/pppppppp/8/8/8/5N2/PPPPPPPP/RNBQKB1R b KQkq - 0 1");
    assert_eq!(game.commentary, "Ng1-f3 - White moves.");
    let last = game.last_move.clone().unwrap();
    assert_eq!(last.from, "g1");
    assert_eq!(last.to, "f3");
    assert_eq!(game.cinematic_mode, CinematicMode::Off);
    let action = game.last_action.clone().unwrap();
    assert_eq!(action.action_type, "move");
    assert_eq!(action.piece, PieceKind::Knight);
}

#[test]
fn upper_case_square_names_are_read() {
    let mut game = GameController::default();
    assert!(game.make_move("E2", "E4", None));
    assert_eq!(game.history_uci, vec!["E2E4"]);
    assert_eq!(game.history, vec!["E2-E4"]);
}

#[test]
fn bad_square_name_changes_nothing() {
    let mut game = GameController::default();
    assert!(!game.make_move("z9", "e4", None));
    assert_eq!(game.commentary, "Welcome to Royal 3D Chess.");
    assert!(!game.make_move("e3", "e4", None));
    assert_eq!(game.commentary, "Welcome to Royal 3D Chess.");
    assert!(!game.make_move("e2", "e5", None));
    assert_eq!(game.commentary, "Invalid move.");
}

#[test]
fn capture_is_counted_and_described() {
    let mut game = GameController::default();
    assert!(game.make_move("e2", "e4", None));
    assert!(game.make_move("d7", "d5", None));
    assert!(game.make_move("e4", "d5", None));
    assert_eq!(game.captured.white, vec![PieceKind::Pawn]);
    assert!(game.captured.black.is_empty());
    assert_eq!(game.history.last().unwrap(), "e4xd5");
    assert_eq!(game.commentary, "White captures on d5.");
    assert_eq!(game.cinematic_mode, CinematicMode::KillCam);
    let action = game.last_action.clone().unwrap();
    assert_eq!(action.action_type, "capture");
    assert_eq!(action.captured_piece, Some(PieceKind::Pawn));
    assert_eq!(action.captured_square, Some("d5".to_string()));
}

#[test]
fn fools_mate_ends_the_game() {
    let mut game = GameController::default();
    assert!(game.make_move("f2", "f3", None));
    assert!(game.make_move("e7", "e5", None));
    assert!(game.make_move("g2", "g4", None));
    assert!(game.make_move("d8", "h4", None));
    assert!(game.is_game_over);
    assert!(game.is_check);
    assert_eq!(game.winner, Some(PlayerColor::Black));
    assert!(!game.is_draw);
    assert_eq!(game.commentary, "CHECKMATE. Black wins.");
    assert_eq!(game.cinematic_mode, CinematicMode::GiantKingEnding);
    assert_eq!(game.evaluation, -100_000);
    assert!(!game.make_move("a2", "a3", None));
}

#[test]
fn check_is_announced() {
    let mut game = GameController::default();
    assert!(game.make_move("e2", "e4", None));
    assert!(game.make_move("f7", "f6", None));
    assert!(game.make_move("d1", "h5", None));
    assert!(game.is_check);
    assert!(!game.is_game_over);
    assert_eq!(game.commentary, "CHECK. The king is in danger.");
}

#[test]
fn stalemate_is_a_draw() {
    let mut game = GameController::default();
    game.fen = "k7/8/1Q6/8/8/8/8/7K w - - 0 1".to_string();
    game.sync_status();
    assert!(game.make_move("b6", "c7", None));
    assert!(game.is_game_over);
    assert!(game.is_draw);
    assert_eq!(game.winner, None);
    assert_eq!(game.commentary, "Draw.");
}

#[test]
fn undo_takes_back_the_last_move() {
    let mut game = GameController::default();
    assert!(game.make_move("e2", "e4", None));
    assert!(game.make_move("d7", "d5", None));
    assert!(game.make_move("e4", "d5", None));
    game.undo();
    assert_eq!(game.history_uci, vec!["e2e4", "d7d5"]);
    assert_eq!(game.history.len(), 2);
    assert_eq!(game.history_fen.len(), 3);
    assert_eq!(game.fen, game.history_fen[2]);
    assert!(game.captured.white.is_empty());
    assert_eq!(game.turn, PlayerColor::White);
    assert!(game.last_move.is_none());
    game.undo();
    game.undo();
    game.undo();
    assert_eq!(game.fen, START_FEN);
    assert!(game.history_uci.is_empty());
}

#[test]
fn undo_against_the_engine_takes_back_two_moves() {
    let mut game = GameController::default();
    game.init(GameMode::PlayerVsAi, Difficulty::Easy, "Ann", 0);
    assert!(game.make_move("e2", "e4", None));
    assert!(game.make_bot_move(native_rolls()));
    assert_eq!(game.history_uci.len(), 2);
    game.undo();
    assert!(game.history_uci.is_empty());
    assert_eq!(game.fen, START_FEN);
}

#[test]
fn undo_recounts_captures() {
    let mut game = GameController::default();
    for (f, t) in [("e2", "e4"), ("d7", "d5"), ("e4", "d5"), ("d8", "d5"), ("b1", "c3")] {
        assert!(game.make_move(f, t, None));
    }
    assert_eq!(game.captured.white, vec![PieceKind::Pawn]);
    assert_eq!(game.captured.black, vec![PieceKind::Pawn]);
    game.undo();
    assert_eq!(game.captured.white, vec![PieceKind::Pawn]);
    assert_eq!(game.captured.black, vec![PieceKind::Pawn]);
    game.undo();
    assert_eq!(game.captured.white, vec![PieceKind::Pawn]);
    assert!(game.captured.black.is_empty());
}

#[test]
fn select_square_lists_targets() {
    let mut game = GameController::default();
    game.select_square("g1");
    assert_eq!(game.selected_square.as_deref(), Some("g1"));
    let mut targets = game.valid_moves.clone();
    targets.sort();
    assert_eq!(targets, vec!["f3", "h3"]);
    game.select_square("g1");
    assert!(game.selected_square.is_none());
    assert!(game.valid_moves.is_empty());
    game.select_square("e7");
    assert!(game.selected_square.is_none());
}

#[test]
fn click_square_moves_the_selection() {
    let mut game = GameController::default();
    assert!(!game.click_square("e2"));
    assert_eq!(game.valid_moves.len(), 2);
    assert!(game.click_square("e4"));
    assert_eq!(game.history_uci, vec!["e2e4"]);
    assert!(game.selected_square.is_none());
}

#[test]
fn engine_turn_blocks_selection() {
    let mut game = GameController::default();
    game.init(GameMode::PlayerVsAi, Difficulty::Medium, "Ann", 0);
    assert!(game.make_move("e2", "e4", None));
    assert!(game.should_auto_bot_move());
    game.select_square("e7");
    assert!(game.selected_square.is_none());
}

#[test]
fn puzzle_is_solved_by_its_move() {
    let mut game = GameController::default();
    game.init(GameMode::Puzzles, Difficulty::Easy, "Player", 0);
    assert_eq!(game.commentary, "Puzzle: Scholar's Mate (Mate in 1) (Rating: 800)");
    assert_eq!(game.player_color, PlayerColor::White);
    game.show_puzzle_hint();
    assert_eq!(game.hint_square.as_deref(), Some("h5"));
    assert!(game.make_move("h5", "f7", None));
    assert!(game.is_puzzle_solved);
    assert_eq!(game.commentary, "Puzzle solved. Excellent work.");
}

#[test]
fn puzzle_plays_the_reply() {
    let mut game = GameController::default();
    game.init(GameMode::Puzzles, Difficulty::Easy, "Player", 2);
    assert!(game.make_move("c1", "c6", None));
    assert_eq!(game.history_uci, vec!["c1c6", "b6a5"]);
    assert_eq!(game.puzzle_move_index, 2);
    assert!(!game.is_puzzle_solved);
    assert!(game.make_move("c6", "a6", None));
    assert!(game.is_puzzle_solved);
}

#[test]
fn puzzle_refusal_keeps_the_position() {
    let mut game = GameController::default();
    game.init(GameMode::Puzzles, Difficulty::Easy, "Player", 1);
    let fen = game.fen.clone();
    assert!(!game.make_move("d1", "h4", None));
    assert_eq!(game.commentary, "Incorrect move. Try again.");
    assert_eq!(game.fen, fen);
}

#[test]
fn boss_fight_starts_hard_and_loses_hit_points() {
    let mut game = GameController::default();
    game.init(GameMode::Boss, Difficulty::Easy, "Ann", 0);
    assert_eq!(game.difficulty, Difficulty::Hard);
    assert!(game.boss_state.is_active);
    assert_eq!(game.boss_state.boss_hp, 2000);
    assert_eq!(game.commentary, "Match started. Good luck, Ann.");
    assert!(game.make_move("e2", "e4", None));
    assert!(game.make_move("d7", "d5", None));
    assert!(game.make_move("e4", "d5", None));
    assert_eq!(game.boss_state.boss_hp, 1850);
}

#[test]
fn story_chapter_sets_difficulty_and_intro() {
    let mut game = GameController::default();
    game.start_story_chapter(4, "Ann");
    assert_eq!(game.game_mode, GameMode::Story);
    assert_eq!(game.difficulty, Difficulty::Hard);
    assert_eq!(game.commentary, "War is heat. War is metal. Survive the desert's wrath.");
    game.start_story_chapter(42, "Ann");
    assert_eq!(game.difficulty, Difficulty::Easy);
}

#[test]
fn replay_loads_from_uci() {
    let mut game = GameController::default();
    game.load_replay_from_uci("e2e4 e7e5  g1f3 xx zz99 b8c6");
    assert_eq!(game.history_uci, vec!["e2e4", "e7e5", "g1f3", "b8c6"]);
    assert!(game.is_replay_mode);
    assert_eq!(game.replay_index, 4);
    assert_eq!(game.visible_fen(), game.fen.as_str());
    game.set_replay_index(0);
    assert_eq!(game.visible_fen(), START_FEN);
    assert_eq!(game.pieces().len(), 32);
    game.set_replay_index(9);
    assert_eq!(game.replay_index, 0);
    game.stop_replay();
    assert!(!game.is_replay_mode);
    assert_eq!(game.replay_index, 4);
}

#[test]
fn replay_blocks_moves() {
    let mut game = GameController::default();
    game.start_replay();
    assert!(!game.make_move("e2", "e4", None));
}

#[test]
fn sync_status_rewrites_the_position() {
    let mut game = GameController::default();
    game.fen = "4k3/8/8/8/8/8/8/4K2R w K - 7 30".to_string();
    game.sync_status();
    assert_eq!(game.fen, "4k3/8/8/8/8/8/8/4K2R w K - 0 1");
    assert_eq!(game.turn, PlayerColor::White);
}

#[test]
fn bot_move_is_played() {
    let mut game = GameController::default();
    game.init(GameMode::PlayerVsAi, Difficulty::Hard, "Ann", 0);
    assert!(game.make_move("e2", "e4", None));
    assert!(game.make_bot_move(native_rolls()));
    assert_eq!(game.turn, PlayerColor::White);
    assert_eq!(game.history_uci.len(), 2);
}

#[test]
fn replay_step_on_then_back_returns() {
    let mut game = GameController::default();
    assert!(game.make_move("e2", "e4", None));
    assert!(game.make_move("e7", "e5", None));
    assert!(game.make_move("g1", "f3", None));
    game.start_replay();
    game.set_replay_index(1);
    let fen_before = game.visible_fen().to_string();
    game.next_replay_move();
    assert_eq!(game.replay_index, 2);
    game.prev_replay_move();
    assert_eq!(game.replay_index, 1);
    assert_eq!(game.visible_fen(), fen_before);
    game.prev_replay_move();
    game.next_replay_move();
    assert_eq!(game.replay_index, 1);
}

#[test]
fn undo_takes_back_move_and_engine_reply() {
    let mut game = GameController::default();
    game.init(GameMode::PlayerVsAi, Difficulty::Medium, "Ann", 0);
    assert!(game.make_move("e2", "e4", None));
    assert!(game.should_auto_bot_move());
    assert!(game.make_bot_move(native_rolls()));
    assert_eq!(game.history_uci.len(), 2);
    game.undo();
    assert!(game.history_uci.is_empty());
    assert!(game.history.is_empty());
    assert_eq!(game.history_fen, vec![START_FEN.to_string()]);
    assert_eq!(game.turn, PlayerColor::White);
}

#[test]
fn undo_in_a_local_room_takes_back_one_move() {
    let mut game = GameController::default();
    game.init(GameMode::OnlineLocal, Difficulty::Medium, "Ann", 0);
    assert!(game.make_move("e2", "e4", None));
    assert!(game.make_move("e7", "e5", None));
    game.undo();
    assert_eq!(game.history_uci, vec!["e2e4"]);
    assert_eq!(game.turn, PlayerColor::Black);
}

#[test]
fn click_on_a_target_plays_the_move() {
    let mut clicked = GameController::default();
    clicked.init(GameMode::Puzzles, Difficulty::Easy, "Ann", 0);
    let mut moved = clicked.clone();
    let first = clicked.puzzle.as_ref().unwrap().moves[0];
    let (from, to) = (&first[0..2], &first[2..4]);
    assert!(!clicked.click_square(from));
    assert_eq!(clicked.selected_square.as_deref(), Some(from));
    let played = clicked.click_square(to);
    let moved_ok = moved.make_move(from, to, None);
    assert_eq!(played, moved_ok);
    assert_eq!(clicked.fen, moved.fen);
    assert_eq!(clicked.history_uci, moved.history_uci);
    assert_eq!(clicked.commentary, moved.commentary);
    assert_eq!(clicked.puzzle_move_index, moved.puzzle_move_index);
}

#[test]
fn click_elsewhere_only_selects() {
    let mut game = GameController::default();
    assert!(!game.click_square("e2"));
    assert!(!game.click_square("e5"));
    assert_eq!(game.history_uci.len(), 0);
    assert!(!game.click_square("g1"));
    assert_eq!(game.selected_square.as_deref(), Some("g1"));
}

#[test]
fn engine_move_is_played_and_passes_the_turn() {
    let mut game = GameController::default();
    game.init(GameMode::PlayerVsAi, Difficulty::Hard, "Ann", 0);
    assert!(game.make_move("d2", "d4", None));
    assert_eq!(game.turn, PlayerColor::Black);
    assert!(game.make_bot_move(native_rolls()));
    assert_eq!(game.turn, PlayerColor::White);
    assert_eq!(game.history_uci.len(), 2);
}
