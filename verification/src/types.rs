use vstd::prelude::*;

verus! {

/// One side of the board.
#[derive(Clone, Copy, Debug, PartialEq, Eq, Structural)]
pub enum PlayerColor {
    White,
    Black,
}

impl PlayerColor {
    pub open spec fn spec_opposite(self) -> PlayerColor {
        match self {
            PlayerColor::White => PlayerColor::Black,
            PlayerColor::Black => PlayerColor::White,
        }
    }

    pub open spec fn spec_label(self) -> Seq<char> {
        match self {
            PlayerColor::White => "White"@,
            PlayerColor::Black => "Black"@,
        }
    }

    /// The other side.
    pub fn opposite(self) -> (r: Self)
        ensures
            r == self.spec_opposite(),
    {
        match self {
            Self::White => Self::Black,
            Self::Black => Self::White,
        }
    }

    pub fn label(self) -> (r: &'static str)
        ensures
            r@ == self.spec_label(),
    {
        match self {
            Self::White => "White",
            Self::Black => "Black",
        }
    }
}


/// A kind of chess piece.
#[derive(Clone, Copy, Debug, PartialEq, Eq, Structural)]
pub enum PieceKind {
    Pawn,
    Knight,
    Bishop,
    Rook,
    Queen,
    King,
}

impl PieceKind {
    pub open spec fn spec_label(self) -> Seq<char> {
        match self {
            PieceKind::Pawn => "P"@,
            PieceKind::Knight => "N"@,
            PieceKind::Bishop => "B"@,
            PieceKind::Rook => "R"@,
            PieceKind::Queen => "Q"@,
            PieceKind::King => "K"@,
        }
    }

    /// The name shown to the player.
    pub fn label(self) -> (r: &'static str)
        ensures
            r@ == self.spec_label(),
    {
        match self {
            Self::Pawn => "P",
            Self::Knight => "N",
            Self::Bishop => "B",
            Self::Rook => "R",
            Self::Queen => "Q",
            Self::King => "K",
        }
    }
}

/// The screen the application shows.
#[derive(Clone, Debug, PartialEq, Eq, Structural)]
pub enum AppScreen {
    Menu,
    Intro,
    Game,
    StoryMenu,
    Customization,
    PuzzleMenu,
    Auth,
    Profile,
}

/// How a match is played.
#[derive(Clone, Copy, Debug, PartialEq, Eq, Structural)]
pub enum GameMode {
    PlayerVsPlayer,
    PlayerVsAi,
    Battle,
    Boss,
    Story,
    OnlineLocal,
    Puzzles,
}

/// Strength of the engine opponent.
#[derive(Clone, Copy, Debug, PartialEq, Eq, Structural)]
pub enum Difficulty {
    Easy,
    Medium,
    Hard,
}

impl Difficulty {
    pub open spec fn spec_depth(self) -> u8 {
        match self {
            Difficulty::Easy => 1,
            Difficulty::Medium => 2,
            Difficulty::Hard => 3,
        }
    }

    /// Search depth that goes with this difficulty.
    pub fn depth(self) -> (r: u8)
        ensures
            r == self.spec_depth(),
    {
        match self {
            Self::Easy => 1,
            Self::Medium => 2,
            Self::Hard => 3,
        }
    }

    pub open spec fn spec_label(self) -> Seq<char> {
        match self {
            Difficulty::Easy => "Easy"@,
            Difficulty::Medium => "Medium"@,
            Difficulty::Hard => "Hard"@,
        }
    }

    /// The name shown to the player.
    pub fn label(self) -> (r: &'static str)
        ensures
            r@ == self.spec_label(),
    {
        match self {
            Self::Easy => "Easy",
            Self::Medium => "Medium",
            Self::Hard => "Hard",
        }
    }
}

/// Visual theme of the arena.
#[derive(Clone, Copy, Debug, PartialEq, Eq, Structural)]
pub enum Theme {
    Classic,
    Volcano,
    Ice,
    Cyberpunk,
    Forest,
    Castle,
    Desert,
    Galaxy,
}

impl Theme {
    /// Every variant, in declaration order.
    pub const ALL: [Self; 8] = [Self::Classic, Self::Volcano, Self::Ice, Self::Cyberpunk, Self::Forest, Self::Castle, Self::Desert, Self::Galaxy];

    pub open spec fn spec_label(self) -> Seq<char> {
        match self {
            Theme::Classic => "Classic"@,
            Theme::Volcano => "Volcano Arena"@,
            Theme::Ice => "Ice Kingdom"@,
            Theme::Cyberpunk => "Cyberpunk Neon"@,
            Theme::Forest => "Magic Forest"@,
            Theme::Castle => "Medieval Castle"@,
            Theme::Desert => "Desert Ruins"@,
            Theme::Galaxy => "Space Galaxy"@,
        }
    }

    /// The name shown to the player.
    pub fn label(self) -> (r: &'static str)
        ensures
            r@ == self.spec_label(),
    {
        match self {
            Self::Classic => "Classic",
            Self::Volcano => "Volcano Arena",
            Self::Ice => "Ice Kingdom",
            Self::Cyberpunk => "Cyberpunk Neon",
            Self::Forest => "Magic Forest",
            Self::Castle => "Medieval Castle",
            Self::Desert => "Desert Ruins",
            Self::Galaxy => "Space Galaxy",
        }
    }
}

/// Weather shown over the board.
#[derive(Clone, Copy, Debug, PartialEq, Eq, Structural)]
pub enum Weather {
    Clear,
    Rain,
    Snow,
    Fog,
    Storm,
    Dust,
}

impl Weather {
    /// Every variant, in declaration order.
    pub const ALL: [Self; 6] = [Self::Clear, Self::Rain, Self::Snow, Self::Fog, Self::Storm, Self::Dust];

    pub open spec fn spec_label(self) -> Seq<char> {
        match self {
            Weather::Clear => "Clear"@,
            Weather::Rain => "Rain"@,
            Weather::Snow => "Snow"@,
            Weather::Fog => "Fog"@,
            Weather::Storm => "Storm"@,
            Weather::Dust => "Dust"@,
        }
    }

    /// The name shown to the player.
    pub fn label(self) -> (r: &'static str)
        ensures
            r@ == self.spec_label(),
    {
        match self {
            Self::Clear => "Clear",
            Self::Rain => "Rain",
            Self::Snow => "Snow",
            Self::Fog => "Fog",
            Self::Storm => "Storm",
            Self::Dust => "Dust",
        }
    }
}

/// Lighting of the scene.
#[derive(Clone, Copy, Debug, PartialEq, Eq, Structural)]
pub enum TimeOfDay {
    Morning,
    Noon,
    Sunset,
    Night,
}

impl TimeOfDay {
    /// Every variant, in declaration order.
    pub const ALL: [Self; 4] = [Self::Morning, Self::Noon, Self::Sunset, Self::Night];

    pub open spec fn spec_label(self) -> Seq<char> {
        match self {
            TimeOfDay::Morning => "Morning"@,
            TimeOfDay::Noon => "Noon"@,
            TimeOfDay::Sunset => "Sunset"@,
            TimeOfDay::Night => "Night"@,
        }
    }

    /// The name shown to the player.
    pub fn label(self) -> (r: &'static str)
        ensures
            r@ == self.spec_label(),
    {
        match self {
            Self::Morning => "Morning",
            Self::Noon => "Noon",
            Self::Sunset => "Sunset",
            Self::Night => "Night",
        }
    }
}

/// A variation applied to the board's look.
#[derive(Clone, Copy, Debug, PartialEq, Eq, Structural)]
pub enum BoardMutation {
    Off,
    Hex,
    Giant,
    FogOfWar,
    Exploding,
    Portals,
}

impl BoardMutation {
    /// Every variant, in declaration order.
    pub const ALL: [Self; 6] = [Self::Off, Self::Hex, Self::Giant, Self::FogOfWar, Self::Exploding, Self::Portals];

    pub open spec fn spec_label(self) -> Seq<char> {
        match self {
            BoardMutation::Off => "None"@,
            BoardMutation::Hex => "Hex"@,
            BoardMutation::Giant => "Giant"@,
            BoardMutation::FogOfWar => "FogOfWar"@,
            BoardMutation::Exploding => "Exploding"@,
            BoardMutation::Portals => "Portals"@,
        }
    }

    /// The name shown to the player.
    pub fn label(self) -> (r: &'static str)
        ensures
            r@ == self.spec_label(),
    {
        match self {
            Self::Off => "None",
            Self::Hex => "Hex",
            Self::Giant => "Giant",
            Self::FogOfWar => "FogOfWar",
            Self::Exploding => "Exploding",
            Self::Portals => "Portals",
        }
    }
}

/// Rendering quality.
#[derive(Clone, Copy, Debug, PartialEq, Eq, Structural)]
pub enum GraphicsQuality {
    Low,
    Medium,
    High,
}

/// Camera placement.
#[derive(Clone, Copy, Debug, PartialEq, Eq, Structural)]
pub enum CameraMode {
    Orbit,
    Top,
    Cinematic,
}

/// Cinematic played after a move.
#[derive(Clone, Copy, Debug, PartialEq, Eq, Structural)]
pub enum CinematicMode {
    Off,
    KillCam,
    GiantKingEnding,
}

/// Look of the pieces.
#[derive(Clone, Copy, Debug, PartialEq, Eq, Structural)]
pub enum SkinType {
    Classic,
    Marble,
    Gold,
    Crystal,
    Bronze,
    Shadow,
    Neon,
    Wood,
}

impl SkinType {
    /// Every variant, in declaration order.
    pub const ALL: [Self; 8] = [Self::Classic, Self::Marble, Self::Gold, Self::Crystal, Self::Bronze, Self::Shadow, Self::Neon, Self::Wood];

    pub open spec fn spec_label(self) -> Seq<char> {
        match self {
            SkinType::Classic => "Classic"@,
            SkinType::Marble => "Marble"@,
            SkinType::Gold => "Gold"@,
            SkinType::Crystal => "Crystal"@,
            SkinType::Bronze => "Bronze"@,
            SkinType::Shadow => "Shadow"@,
            SkinType::Neon => "Neon"@,
            SkinType::Wood => "Wood"@,
        }
    }

    /// The name shown to the player.
    pub fn label(self) -> (r: &'static str)
        ensures
            r@ == self.spec_label(),
    {
        match self {
            Self::Classic => "Classic",
            Self::Marble => "Marble",
            Self::Gold => "Gold",
            Self::Crystal => "Crystal",
            Self::Bronze => "Bronze",
            Self::Shadow => "Shadow",
            Self::Neon => "Neon",
            Self::Wood => "Wood",
        }
    }
}

/// Gesture a king can make.
#[derive(Clone, Copy, Debug, PartialEq, Eq, Structural)]
pub enum EmoteType {
    Off,
    Bow,
    Salute,
    Spin,
    Power,
}

impl EmoteType {
    /// Every variant, in declaration order.
    pub const ALL: [Self; 5] = [Self::Off, Self::Bow, Self::Salute, Self::Spin, Self::Power];

    pub open spec fn spec_label(self) -> Seq<char> {
        match self {
            EmoteType::Off => "None"@,
            EmoteType::Bow => "Bow"@,
            EmoteType::Salute => "Salute"@,
            EmoteType::Spin => "Spin"@,
            EmoteType::Power => "Power"@,
        }
    }

    /// The name shown to the player.
    pub fn label(self) -> (r: &'static str)
        ensures
            r@ == self.spec_label(),
    {
        match self {
            Self::Off => "None",
            Self::Bow => "Bow",
            Self::Salute => "Salute",
            Self::Spin => "Spin",
            Self::Power => "Power",
        }
    }
}

/// Visual and audio preferences.
#[derive(Clone, Debug)]
pub struct GameSettings {
    pub show_animations: bool,
    pub show_vfx: bool,
    pub cinematic_camera: bool,
    pub enable_cutscenes: bool,
    pub graphics_quality: GraphicsQuality,
    pub theme: Theme,
    pub enable_coach: bool,
    pub enable_sounds: bool,
    pub enable_voice_overs: bool,
    pub enable_story_vo: bool,
    pub enable_emotes: bool,
    pub performance_mode: bool,
    pub weather: Weather,
    pub time_of_day: TimeOfDay,
    pub enable_day_night_cycle: bool,
    pub board_mutation: BoardMutation,
    pub enable_physics_death: bool,
    pub enable_magic_skills: bool,
}

impl GameSettings {
    /// The settings a new player starts with.
    pub open spec fn spec_default() -> GameSettings {
        GameSettings {
            show_animations: true,
            show_vfx: true,
            cinematic_camera: true,
            enable_cutscenes: true,
            graphics_quality: GraphicsQuality::Medium,
            theme: Theme::Classic,
            enable_coach: false,
            enable_sounds: true,
            enable_voice_overs: true,
            enable_story_vo: true,
            enable_emotes: true,
            performance_mode: false,
            weather: Weather::Clear,
            time_of_day: TimeOfDay::Noon,
            enable_day_night_cycle: false,
            board_mutation: BoardMutation::Off,
            enable_physics_death: false,
            enable_magic_skills: true,
        }
    }
}

impl Default for GameSettings {
    fn default() -> (r: Self)
        ensures
            r == GameSettings::spec_default(),
    {
        Self {
            show_animations: true,
            show_vfx: true,
            cinematic_camera: true,
            enable_cutscenes: true,
            graphics_quality: GraphicsQuality::Medium,
            theme: Theme::Classic,
            enable_coach: false,
            enable_sounds: true,
            enable_voice_overs: true,
            enable_story_vo: true,
            enable_emotes: true,
            performance_mode: false,
            weather: Weather::Clear,
            time_of_day: TimeOfDay::Noon,
            enable_day_night_cycle: false,
            board_mutation: BoardMutation::Off,
            enable_physics_death: false,
            enable_magic_skills: true,
        }
    }
}

/// How the player's profile looks.
#[derive(Clone, Debug)]
pub struct ProfileCustomization {
    pub icon: String,
    pub banner_color: String,
    pub emblem: String,
    pub crown_style: String,
}

impl Default for ProfileCustomization {
    fn default() -> (r: Self)
        ensures
            r.icon@ == "\u{1F451}"@,
            r.banner_color@ == "#4f46e5"@,
            r.emblem@ == "Lion"@,
            r.crown_style@ == "Gold"@,
    {
        Self {
            icon: String::from_str("\u{1F451}"),
            banner_color: String::from_str("#4f46e5"),
            emblem: String::from_str("Lion"),
            crown_style: String::from_str("Gold"),
        }
    }
}

/// How far the player has come through the story.
#[derive(Clone, Debug)]
pub struct CampaignProgress {
    pub current_chapter: u32,
    pub unlocked_skins: Vec<SkinType>,
    pub unlocked_emotes: Vec<EmoteType>,
    pub completed_chapters: Vec<u32>,
}

impl Default for CampaignProgress {
    fn default() -> (r: Self)
        ensures
            r.current_chapter == 1,
            r.unlocked_skins@ == SkinType::ALL@,
            r.unlocked_emotes@ == seq![EmoteType::Bow],
            r.completed_chapters@ == Seq::<u32>::empty(),
    {
        Self {
            current_chapter: 1,
            unlocked_skins: vec![
                SkinType::Classic,
                SkinType::Marble,
                SkinType::Gold,
                SkinType::Crystal,
                SkinType::Bronze,
                SkinType::Shadow,
                SkinType::Neon,
                SkinType::Wood,
            ],
            unlocked_emotes: vec![EmoteType::Bow],
            completed_chapters: Vec::new(),
        }
    }
}

/// One chapter of the story campaign.
#[derive(Clone, Copy, Debug)]
pub struct StoryChapter {
    pub id: u32,
    pub title: &'static str,
    pub subtitle: &'static str,
    pub description: &'static str,
    pub theme: Theme,
    pub difficulty: Difficulty,
    pub enemy_name: &'static str,
    pub intro_text: &'static str,
    pub reward_skin: Option<SkinType>,
}

/// A tactics puzzle: a position and the moves that solve it, in UCI notation.
#[derive(Clone, Copy, Debug)]
pub struct Puzzle {
    pub id: &'static str,
    pub fen: &'static str,
    pub moves: &'static [&'static str],
    pub rating: u16,
    pub description: &'static str,
}

/// A finished match as stored in the player's history.
#[derive(Clone, Debug)]
pub struct MatchRecord {
    pub id: u64,
    pub opponent: String,
    pub result: String,
    pub moves: String,
    pub date: String,
}

/// Totals over a player's match history.
#[derive(Clone, Debug)]
pub struct UserStats {
    pub username: String,
    pub elo: i32,
    pub total_matches: u32,
    pub wins: u32,
    pub losses: u32,
    pub draws: u32,
}

/// A signed-in local account.
#[derive(Clone, Debug)]
pub struct LocalUser {
    pub username: String,
    pub email: String,
}

/// Hit points of a boss fight.
#[derive(Clone, Debug)]
pub struct BossState {
    pub is_active: bool,
    pub boss_hp: i32,
    pub max_hp: i32,
    pub player_hp: i32,
}

impl Default for BossState {
    fn default() -> (r: Self)
        ensures
            !r.is_active,
            r.boss_hp == 0,
            r.max_hp == 0,
            r.player_hp == 0,
    {
        Self { is_active: false, boss_hp: 0, max_hp: 0, player_hp: 0 }
    }
}

/// A move given by its squares' names.
#[derive(Clone, Debug)]
pub struct MoveData {
    pub from: String,
    pub to: String,
    pub promotion: Option<PieceKind>,
}

/// What the last move did, for the scene to animate.
#[derive(Clone, Debug)]
pub struct LastAction {
    pub action_type: String,
    pub from: String,
    pub to: String,
    pub piece: PieceKind,
    pub captured_piece: Option<PieceKind>,
    pub captured_square: Option<String>,
    pub is_check: bool,
    pub is_checkmate: bool,
}

/// A piece standing on a named square.
#[derive(Clone, Debug)]
pub struct ChessPieceView {
    pub kind: PieceKind,
    pub color: PlayerColor,
    pub square: String,
}

} // verus!
