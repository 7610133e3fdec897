//! The story campaign, the puzzle set and other fixed tables.
use vstd::prelude::*;

use crate::types::{Difficulty, EmoteType, Puzzle, SkinType, StoryChapter, Theme};

verus! {

/// Squares along one side of the board.
pub const BOARD_SIZE: usize = 8;

/// Icons a profile can show.
pub const PROFILE_ICONS: [&'static str; 8] = [
    "\u{1F451}",
    "\u{2694}\u{FE0F}",
    "\u{1F6E1}\u{FE0F}",
    "\u{1F409}",
    "\u{1F52E}",
    "\u{2658}",
    "\u{1F3F0}",
    "\u{1F480}",
];

/// Colors a profile banner can take.
pub const BANNER_COLORS: [&'static str; 6] = ["#4f46e5", "#dc2626", "#16a34a", "#d97706", "#9333ea", "#2563eb"];

/// Every emote.
pub const ALL_EMOTES: [EmoteType; 5] = EmoteType::ALL;

/// Number of chapters in the story.
pub const STORY_CHAPTER_COUNT: usize = 5;

/// Number of puzzles in the puzzle set.
pub const PUZZLE_COUNT: usize = 5;

/// Chapter `index` (from 0) of the story.
pub open spec fn spec_story_chapter(index: int) -> StoryChapter {
    if index == 0 {
        StoryChapter {
            id: 1,
            title: "Rise of the Marble Kingdom",
            subtitle: "The Beginning",
            description: "Begin your journey as a young tactician in the ancient halls of the Marble King.",
            theme: Theme::Classic,
            difficulty: Difficulty::Easy,
            enemy_name: "Marble King",
            intro_text: "Long ago, strategy was the language of kings. Prove your worth in the Marble Halls.",
            reward_skin: Some(SkinType::Marble),
        }
    } else if index == 1 {
        StoryChapter {
            id: 2,
            title: "Shadow of the Obsidian Empire",
            subtitle: "Into Darkness",
            description: "The Obsidian Empire has risen from the depths. Their pieces are forged in darkness.",
            theme: Theme::Volcano,
            difficulty: Difficulty::Medium,
            enemy_name: "Obsidian Warlord",
            intro_text: "Darkness gathers. The Obsidian army knows no mercy.",
            reward_skin: Some(SkinType::Shadow),
        }
    } else if index == 2 {
        StoryChapter {
            id: 3,
            title: "The Crystal Rebellion",
            subtitle: "Shattered Peace",
            description: "In the frozen north, the Crystal Rebellion challenges the throne.",
            theme: Theme::Ice,
            difficulty: Difficulty::Medium,
            enemy_name: "Crystal Queen",
            intro_text: "Cold as ice, sharp as glass. Do not let your resolve shatter.",
            reward_skin: Some(SkinType::Crystal),
        }
    } else if index == 3 {
        StoryChapter {
            id: 4,
            title: "Bronze Age Warfront",
            subtitle: "Fires of War",
            description: "The desert winds carry the sound of clashing bronze. A general awaits.",
            theme: Theme::Desert,
            difficulty: Difficulty::Hard,
            enemy_name: "Bronze General",
            intro_text: "War is heat. War is metal. Survive the desert's wrath.",
            reward_skin: Some(SkinType::Bronze),
        }
    } else {
        StoryChapter {
            id: 5,
            title: "The Final Neon Dawn",
            subtitle: "Future's End",
            description: "Travel to the edge of time. Defeat the Eternal Neon King to claim the crown of history.",
            theme: Theme::Cyberpunk,
            difficulty: Difficulty::Hard,
            enemy_name: "Eternal Neon King",
            intro_text: "The future is written in light. This is your final test.",
            reward_skin: Some(SkinType::Neon),
        }
    }
}

/// Chapter `index` (from 0) of the story.
pub fn story_chapter(index: usize) -> (r: StoryChapter)
    requires
        index < STORY_CHAPTER_COUNT,
    ensures
        r == spec_story_chapter(index as int),
{
    match index {
        0 => StoryChapter {
            id: 1,
            title: "Rise of the Marble Kingdom",
            subtitle: "The Beginning",
            description: "Begin your journey as a young tactician in the ancient halls of the Marble King.",
            theme: Theme::Classic,
            difficulty: Difficulty::Easy,
            enemy_name: "Marble King",
            intro_text: "Long ago, strategy was the language of kings. Prove your worth in the Marble Halls.",
            reward_skin: Some(SkinType::Marble),
        },
        1 => StoryChapter {
            id: 2,
            title: "Shadow of the Obsidian Empire",
            subtitle: "Into Darkness",
            description: "The Obsidian Empire has risen from the depths. Their pieces are forged in darkness.",
            theme: Theme::Volcano,
            difficulty: Difficulty::Medium,
            enemy_name: "Obsidian Warlord",
            intro_text: "Darkness gathers. The Obsidian army knows no mercy.",
            reward_skin: Some(SkinType::Shadow),
        },
        2 => StoryChapter {
            id: 3,
            title: "The Crystal Rebellion",
            subtitle: "Shattered Peace",
            description: "In the frozen north, the Crystal Rebellion challenges the throne.",
            theme: Theme::Ice,
            difficulty: Difficulty::Medium,
            enemy_name: "Crystal Queen",
            intro_text: "Cold as ice, sharp as glass. Do not let your resolve shatter.",
            reward_skin: Some(SkinType::Crystal),
        },
        3 => StoryChapter {
            id: 4,
            title: "Bronze Age Warfront",
            subtitle: "Fires of War",
            description: "The desert winds carry the sound of clashing bronze. A general awaits.",
            theme: Theme::Desert,
            difficulty: Difficulty::Hard,
            enemy_name: "Bronze General",
            intro_text: "War is heat. War is metal. Survive the desert's wrath.",
            reward_skin: Some(SkinType::Bronze),
        },
        _ => StoryChapter {
            id: 5,
            title: "The Final Neon Dawn",
            subtitle: "Future's End",
            description: "Travel to the edge of time. Defeat the Eternal Neon King to claim the crown of history.",
            theme: Theme::Cyberpunk,
            difficulty: Difficulty::Hard,
            enemy_name: "Eternal Neon King",
            intro_text: "The future is written in light. This is your final test.",
            reward_skin: Some(SkinType::Neon),
        },
    }
}

/// The index of the first chapter whose id is `id`.
pub open spec fn spec_chapter_index(id: u32) -> Option<int> {
    if 1 <= id <= 5 {
        Some(id - 1)
    } else {
        None
    }
}

/// The chapter whose id is `id`, if the story has one.
pub fn find_story_chapter(id: u32) -> (r: Option<StoryChapter>)
    ensures
        r == (match spec_chapter_index(id) {
            Some(i) => Some(spec_story_chapter(i)),
            None => None,
        }),
{
    let mut i: usize = 0;
    while i < STORY_CHAPTER_COUNT
        invariant
            i <= STORY_CHAPTER_COUNT,
            forall|j: int| 0 <= j < i ==> spec_story_chapter(j).id != id,
        decreases STORY_CHAPTER_COUNT - i,
    {
        let chapter = story_chapter(i);
        if chapter.id == id {
            return Some(chapter);
        }
        i = i + 1;
    }
    None
}

/// Every chapter of the story, in order.
pub fn story_chapters() -> (r: Vec<StoryChapter>)
    ensures
        r@.len() == STORY_CHAPTER_COUNT,
        forall|i: int| 0 <= i < STORY_CHAPTER_COUNT ==> r@[i] == spec_story_chapter(i),
{
    let mut r: Vec<StoryChapter> = Vec::new();
    let mut i: usize = 0;
    while i < STORY_CHAPTER_COUNT
        invariant
            i <= STORY_CHAPTER_COUNT,
            r@.len() == i,
            forall|j: int| 0 <= j < i ==> r@[j] == spec_story_chapter(j),
        decreases STORY_CHAPTER_COUNT - i,
    {
        r.push(story_chapter(i));
        i = i + 1;
    }
    r
}

/// Puzzle `index` (from 0) of the puzzle set.
pub open spec fn spec_sample_puzzle(index: int) -> Puzzle {
    if index == 0 {
        Puzzle {
            id: "1",
            fen: "r1bqkb1r/pppp1ppp/2n2n2/4p2Q/2B1P3/8/PPPP1PPP/RNB1K1NR w KQkq - 4 4",
            moves: &["h5f7"],
            rating: 800,
            description: "Scholar's Mate (Mate in 1)",
        }
    } else if index == 1 {
        Puzzle {
            id: "2",
            fen: "rnbqkbnr/ppppp2p/5p2/6p1/4P3/8/PPPP1PPP/RNBQKBNR w KQkq - 0 3",
            moves: &["d1h5"],
            rating: 900,
            description: "Fool's Mate Pattern (Mate in 1)",
        }
    } else if index == 2 {
        Puzzle {
            id: "3",
            fen: "3r4/pr3pkp/1q2p1p1/8/B7/1P2P3/P4PPP/2R2RK1 w - - 0 1",
            moves: &["c1c6", "b6a5", "c6a6"],
            rating: 1200,
            description: "Skewer Tactic",
        }
    } else if index == 3 {
        Puzzle {
            id: "4",
            fen: "r1b1k2r/ppppqppp/2n2n2/4p3/1bB1P3/2N2N2/PPPP1PPP/R1BQK2R w KQkq - 4 5",
            moves: &["c3d5", "f6d5", "e4d5"],
            rating: 1100,
            description: "Center Control",
        }
    } else {
        Puzzle {
            id: "5",
            fen: "r1bqk2r/pppp1ppp/2n2n2/4p3/1bB1P3/5N2/PPPP1PPP/RNBQK2R w KQkq - 4 4",
            moves: &["e1g1", "f6e4", "d2d4"],
            rating: 1300,
            description: "Italian Game Gambit",
        }
    }
}


/// A move written in UCI: at least four characters, the first four ASCII.
pub open spec fn uci_text(m: Seq<char>) -> bool {
    &&& m.len() >= 4
    &&& forall|i: int| 0 <= i < 4 ==> (m[i] as int) < 128
}

/// Whether every solution move of `p` is written in UCI (a slice, too,
/// holds fewer than `usize::MAX` items).
pub open spec fn puzzle_well_formed(p: Puzzle) -> bool {
    &&& p.moves@.len() < usize::MAX
    &&& forall|i: int| 0 <= i < p.moves@.len() ==> uci_text(#[trigger] p.moves@[i]@)
}

/// Puzzle `index` (from 0) of the puzzle set.
pub fn sample_puzzle(index: usize) -> (r: Puzzle)
    requires
        index < PUZZLE_COUNT,
    ensures
        r == spec_sample_puzzle(index as int),
        puzzle_well_formed(r),
{
    proof {
        reveal_strlit("h5f7");
        reveal_strlit("d1h5");
        reveal_strlit("c1c6");
        reveal_strlit("b6a5");
        reveal_strlit("c6a6");
        reveal_strlit("c3d5");
        reveal_strlit("f6d5");
        reveal_strlit("e4d5");
        reveal_strlit("e1g1");
        reveal_strlit("f6e4");
        reveal_strlit("d2d4");
    }
    if index == 0 {
        Puzzle {
            id: "1",
            fen: "r1bqkb1r/pppp1ppp/2n2n2/4p2Q/2B1P3/8/PPPP1PPP/RNB1K1NR w KQkq - 4 4",
            moves: &["h5f7"],
            rating: 800,
            description: "Scholar's Mate (Mate in 1)",
        }
    } else if index == 1 {
        Puzzle {
            id: "2",
            fen: "rnbqkbnr/ppppp2p/5p2/6p1/4P3/8/PPPP1PPP/RNBQKBNR w KQkq - 0 3",
            moves: &["d1h5"],
            rating: 900,
            description: "Fool's Mate Pattern (Mate in 1)",
        }
    } else if index == 2 {
        Puzzle {
            id: "3",
            fen: "3r4/pr3pkp/1q2p1p1/8/B7/1P2P3/P4PPP/2R2RK1 w - - 0 1",
            moves: &["c1c6", "b6a5", "c6a6"],
            rating: 1200,
            description: "Skewer Tactic",
        }
    } else if index == 3 {
        Puzzle {
            id: "4",
            fen: "r1b1k2r/ppppqppp/2n2n2/4p3/1bB1P3/2N2N2/PPPP1PPP/R1BQK2R w KQkq - 4 5",
            moves: &["c3d5", "f6d5", "e4d5"],
            rating: 1100,
            description: "Center Control",
        }
    } else {
        Puzzle {
            id: "5",
            fen: "r1bqk2r/pppp1ppp/2n2n2/4p3/1bB1P3/5N2/PPPP1PPP/RNBQK2R w KQkq - 4 4",
            moves: &["e1g1", "f6e4", "d2d4"],
            rating: 1300,
            description: "Italian Game Gambit",
        }
    }
}

} // verus!
