use royal_chess::game::GameController;
use royal_chess::scene::{canvas_theme, check_square, skin_index, square_highlight, square_to_file_rank, theme_index};
use royal_chess::types::{SkinType, Theme};

#[test]
fn square_start_reads_file_and_rank() {
    assert_eq!(square_to_file_rank("e4"), Some((4, 3)));
    assert_eq!(square_to_file_rank("a1"), Some((0, 0)));
    assert_eq!(square_to_file_rank("H8"), Some((7, 7)));
    assert_eq!(square_to_file_rank("e4x"), Some((4, 3)));
}

#[test]
fn squares_off_the_board_read_as_none() {
    assert_eq!(square_to_file_rank("i1"), None);
    assert_eq!(square_to_file_rank("a9"), None);
    assert_eq!(square_to_file_rank("a0"), None);
    assert_eq!(square_to_file_rank("a"), None);
    assert_eq!(square_to_file_rank(""), None);
    assert_eq!(square_to_file_rank("é1"), None);
    assert_eq!(square_to_file_rank("`1"), None);
}

#[test]
fn theme_colours() {
    assert_eq!(canvas_theme(Theme::Classic), ("#080d18", "#101827", "#d6d3c5", "#455064", "#facc15"));
    assert_eq!(canvas_theme(Theme::Ice).2, "#dff7ff");
    assert_eq!(canvas_theme(Theme::Galaxy).4, "#a78bfa");
}

#[test]
fn material_indexes_follow_declaration_order() {
    for (i, theme) in Theme::ALL.iter().enumerate() {
        assert_eq!(theme_index(*theme), i as u64);
    }
    for (i, skin) in SkinType::ALL.iter().enumerate() {
        assert_eq!(skin_index(*skin), i as u64);
    }
    assert_eq!(skin_index(SkinType::Neon), 6);
}

#[test]
fn board_highlights_follow_the_game() {
    let mut g = GameController::default();
    g.select_square("e2");
    assert_eq!(square_highlight(&g, &None, "e2"), Some("rgba(250, 204, 21, 0.48)"));
    assert_eq!(square_highlight(&g, &None, "e4"), Some("rgba(52, 211, 153, 0.34)"));
    assert_eq!(square_highlight(&g, &None, "e5"), None);
    assert!(g.click_square("e4"));
    assert_eq!(square_highlight(&g, &None, "e2"), Some("rgba(129, 140, 248, 0.34)"));
    assert_eq!(square_highlight(&g, &None, "e4"), Some("rgba(129, 140, 248, 0.34)"));
    assert_eq!(check_square(&g), None);
}

#[test]
fn king_in_check_is_marked() {
    let mut g = GameController::default();
    for (f, t) in [("f2", "f3"), ("e7", "e5"), ("g2", "g4"), ("d8", "h4")] {
        assert!(g.make_move(f, t, None));
    }
    assert!(g.is_check);
    let check = check_square(&g);
    assert_eq!(check.as_deref(), Some("e1"));
    assert_eq!(square_highlight(&g, &check, "e1"), Some("rgba(239, 68, 68, 0.46)"));
    assert_eq!(square_highlight(&g, &check, "h4"), Some("rgba(129, 140, 248, 0.34)"));
}
