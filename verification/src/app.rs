//! The application's state: screens, the player, their settings and
//! progress, the match in progress and its record keeping.
use vstd::prelude::*;

use crate::constants::{find_story_chapter, spec_chapter_index, spec_story_chapter};
use crate::audio::{AudioSystem, Tone};
use crate::game::{clicked, is_new_game, GameController};
use crate::storage::{matches_key, save_active_emote, save_active_skin, save_active_user, save_users, save_profile, save_progress, save_settings, spec_matches_key, writes, StorageOp, StoredUser};
use crate::text::{owned, str_eq};
use crate::types::{
    AppScreen, CampaignProgress, Difficulty, EmoteType, GameMode, GameSettings, LocalUser, MatchRecord,
    PlayerColor, ProfileCustomization, SkinType, UserStats,
};

verus! {

/// Everything the application shows and keeps.
#[derive(Clone, Debug)]
pub struct AppModel {
    pub screen: AppScreen,
    pub player_name: String,
    pub profile: ProfileCustomization,
    pub active_skin: SkinType,
    pub active_emote: EmoteType,
    pub campaign_progress: CampaignProgress,
    pub settings: GameSettings,
    pub show_settings: bool,
    pub user: Option<LocalUser>,
    pub matches: Vec<MatchRecord>,
    pub game: GameController,
    pub auth_error: Option<String>,
    pub renderer_error: Option<String>,
    pub recorded_fen_count: usize,
}

/// The words of `ws` joined by `sep`.
pub open spec fn join_words(ws: Seq<Seq<char>>, sep: Seq<char>) -> Seq<char>
    decreases ws.len(),
{
    if ws.len() == 0 {
        Seq::empty()
    } else if ws.len() == 1 {
        ws[0]
    } else {
        join_words(ws.drop_last(), sep) + sep + ws.last()
    }
}

/// The strings of `ws` joined by `sep`.
pub fn join_strings(ws: &Vec<String>, sep: &str) -> (r: String)
    ensures
        r@ == join_words(crate::game::views(ws@), sep@),
{
    let mut r = String::new();
    let mut i: usize = 0;
    while i < ws.len()
        invariant
            i <= ws@.len(),
            r@ == join_words(crate::game::views(ws@).take(i as int), sep@),
        decreases ws@.len() - i,
    {
        let ghost vs = crate::game::views(ws@);
        assert(vs.take(i + 1).drop_last() =~= vs.take(i as int));
        if i > 0 {
            r.append(sep);
        } else {
            assert(vs.take(0) =~= Seq::<Seq<char>>::empty());
        }
        r.append(ws[i].as_str());
        i = i + 1;
    }
    assert(crate::game::views(ws@).take(ws@.len() as int) =~= crate::game::views(ws@));
    r
}

/// How many records of `ms` have the result `result`.
pub open spec fn count_result(ms: Seq<MatchRecord>, result: Seq<char>) -> nat
    decreases ms.len(),
{
    if ms.len() == 0 {
        0
    } else {
        count_result(ms.drop_last(), result) + if ms.last().result@ == result { 1nat } else { 0nat }
    }
}

proof fn lemma_count_bound(ms: Seq<MatchRecord>, result: Seq<char>)
    ensures
        count_result(ms, result) <= ms.len(),
    decreases ms.len(),
{
    if ms.len() > 0 {
        lemma_count_bound(ms.drop_last(), result);
    }
}

fn count_results(ms: &Vec<MatchRecord>, result: &str) -> (r: u32)
    requires
        ms@.len() <= 100_000_000,
    ensures
        r == count_result(ms@, result@),
{
    let mut n: u32 = 0;
    let mut i: usize = 0;
    while i < ms.len()
        invariant
            i <= ms@.len(),
            ms@.len() <= 100_000_000,
            n == count_result(ms@.take(i as int), result@),
        decreases ms@.len() - i,
    {
        assert(ms@.take(i + 1).drop_last() =~= ms@.take(i as int));
        proof {
            lemma_count_bound(ms@.take(i as int), result@);
        }
        if str_eq(ms[i].result.as_str(), result) {
            n = n + 1;
        }
        i = i + 1;
    }
    assert(ms@.take(ms@.len() as int) =~= ms@);
    n
}

/// The opponent a finished match is recorded against.
pub open spec fn spec_opponent(mode: GameMode) -> Seq<char> {
    match mode {
        GameMode::PlayerVsAi => "Rust Bot"@,
        GameMode::Story => "Story Opponent"@,
        GameMode::Boss => "Boss Rush"@,
        GameMode::OnlineLocal => "Local Room"@,
        GameMode::Puzzles => "Puzzle"@,
        _ => "Local Player"@,
    }
}

/// The result a finished match is recorded with, for the player.
pub open spec fn spec_result(winner: Option<PlayerColor>, player: PlayerColor) -> Seq<char> {
    match winner {
        Some(w) => if w == player { "win"@ } else { "loss"@ },
        None => "draw"@,
    }
}

impl AppModel {
    /// The position count of the match at its last recording.
    pub open spec fn recorded(&self) -> usize {
        self.recorded_fen_count
    }

    /// The application as it opens, from what was read back from storage:
    /// the signed-in account (if any), that account's match history, the
    /// profile, skin, emote, progress and settings.
    pub fn load(
        user: Option<LocalUser>,
        user_matches: Vec<MatchRecord>,
        profile: ProfileCustomization,
        active_skin: SkinType,
        active_emote: EmoteType,
        campaign_progress: CampaignProgress,
        settings: GameSettings,
    ) -> (r: Self)
        ensures
            r.screen == AppScreen::Menu,
            r.player_name@ == (match user {
                Some(u) => u.username@,
                None => "Player"@,
            }),
            r.profile == profile,
            r.active_skin == active_skin,
            r.active_emote == active_emote,
            r.campaign_progress == campaign_progress,
            r.settings == settings,
            !r.show_settings,
            r.user == user,
            user is Some ==> r.matches == user_matches,
            user is None ==> r.matches@.len() == 0,
            is_new_game(r.game),
            r.game.wf(),
            r.auth_error is None,
            r.renderer_error is None,
            r.recorded() == 0,
    {
        let player_name = match &user {
            Some(u) => u.username.clone(),
            None => owned("Player"),
        };
        let matches = if user.is_some() { user_matches } else { Vec::new() };
        AppModel {
            screen: AppScreen::Menu,
            player_name,
            profile,
            active_skin,
            active_emote,
            campaign_progress,
            settings,
            show_settings: false,
            user,
            matches,
            game: GameController::default(),
            auth_error: None,
            renderer_error: None,
            recorded_fen_count: 0,
        }
    }

    /// Totals over the match history, under the signed-in name (the player
    /// name without an account): the Elo starts at 1200, gains 18 a win and
    /// loses 14 a loss.
    pub fn stats(&self) -> (r: UserStats)
        requires
            self.matches@.len() <= 100_000_000,
        ensures
            r.username@ == (match self.user {
                Some(u) => u.username@,
                None => self.player_name@,
            }),
            r.wins == count_result(self.matches@, "win"@),
            r.losses == count_result(self.matches@, "loss"@),
            r.draws == count_result(self.matches@, "draw"@),
            r.total_matches == self.matches@.len(),
            r.elo == 1200 + 18 * r.wins - 14 * r.losses,
    {
        let username = match &self.user {
            Some(u) => u.username.clone(),
            None => self.player_name.clone(),
        };
        let wins = count_results(&self.matches, "win");
        let losses = count_results(&self.matches, "loss");
        let draws = count_results(&self.matches, "draw");
        proof {
            lemma_count_bound(self.matches@, "win"@);
            lemma_count_bound(self.matches@, "loss"@);
        }
        let total = self.matches.len() as u32;
        UserStats {
            username,
            elo: 1200 + wins as i32 * 18 - losses as i32 * 14,
            total_matches: total,
            wins,
            losses,
            draws,
        }
    }

    /// Shows `screen`.
    pub fn set_screen(&mut self, screen: AppScreen)
        ensures
            *final(self) == (AppModel { screen, ..*old(self) }),
    {
        self.screen = screen;
    }

    /// Starts a match in `mode` at `difficulty` (a puzzle match opens
    /// puzzle `puzzle_index`) and shows the game.
    pub fn start_game(&mut self, mode: GameMode, difficulty: Difficulty, puzzle_index: usize)
        requires
            mode == GameMode::Puzzles ==> puzzle_index < crate::constants::PUZZLE_COUNT,
        ensures
            crate::game::game_started(final(self).game, mode, difficulty, old(self).player_name@, puzzle_index),
            final(self).game.wf(),
            final(self).recorded() == 0,
            final(self).screen == AppScreen::Game,
            *final(self) == (AppModel {
                game: final(self).game,
                screen: final(self).screen,
                recorded_fen_count: final(self).recorded_fen_count,
                ..*old(self)
            }),
    {
        self.game.init(mode, difficulty, self.player_name.as_str(), puzzle_index);
        self.recorded_fen_count = 0;
        self.screen = AppScreen::Game;
    }

    /// Starts story chapter `chapter_id` and shows the game; where the
    /// story has that chapter, its theme becomes the setting, and the
    /// settings are to be saved.
    pub fn start_story(&mut self, chapter_id: u32) -> (r: Option<StorageOp>)
        ensures
            final(self).game.wf(),
            final(self).recorded() == 0,
            final(self).screen == AppScreen::Game,
            match spec_chapter_index(chapter_id) {
                Some(i) => {
                    &&& final(self).settings == GameSettings { theme: spec_story_chapter(i).theme, ..old(self).settings }
                    &&& r matches Some(op) && writes(op, crate::storage::SETTINGS_KEY@)
                },
                None => final(self).settings == old(self).settings && r is None,
            },
            *final(self) == (AppModel {
                game: final(self).game,
                screen: final(self).screen,
                settings: final(self).settings,
                recorded_fen_count: final(self).recorded_fen_count,
                ..*old(self)
            }),
    {
        let op = match find_story_chapter(chapter_id) {
            Some(chapter) => {
                self.settings.theme = chapter.theme;
                Some(save_settings(&self.settings))
            },
            None => None,
        };
        self.game.start_story_chapter(chapter_id, self.player_name.as_str());
        self.recorded_fen_count = 0;
        self.screen = AppScreen::Game;
        op
    }

    /// Replaces the settings; they are to be saved.
    pub fn update_settings(&mut self, settings: GameSettings) -> (r: StorageOp)
        ensures
            *final(self) == (AppModel { settings, ..*old(self) }),
            writes(r, crate::storage::SETTINGS_KEY@),
    {
        self.settings = settings;
        save_settings(&self.settings)
    }

    /// Replaces the profile; it is to be saved.
    pub fn set_profile(&mut self, profile: ProfileCustomization) -> (r: StorageOp)
        ensures
            *final(self) == (AppModel { profile, ..*old(self) }),
            writes(r, crate::storage::PROFILE_KEY@),
    {
        self.profile = profile;
        save_profile(&self.profile)
    }

    /// Chooses the skin; it is to be saved.
    pub fn set_skin(&mut self, skin: SkinType) -> (r: StorageOp)
        ensures
            *final(self) == (AppModel { active_skin: skin, ..*old(self) }),
            writes(r, crate::storage::ACTIVE_SKIN_KEY@),
    {
        self.active_skin = skin;
        save_active_skin(skin)
    }

    /// Chooses the emote; it is to be saved.
    pub fn set_emote(&mut self, emote: EmoteType) -> (r: StorageOp)
        ensures
            *final(self) == (AppModel { active_emote: emote, ..*old(self) }),
            writes(r, crate::storage::ACTIVE_EMOTE_KEY@),
    {
        self.active_emote = emote;
        save_active_emote(emote)
    }
}

/// Whether some stored account has this name and password.
pub open spec fn has_account(users: Seq<StoredUser>, username: Seq<char>, password: Seq<char>) -> bool {
    exists|i: int| 0 <= i < users.len() && #[trigger] users[i].username@ == username && users[i].password@ == password
}

/// The first stored account with this name and password.
pub open spec fn first_account(users: Seq<StoredUser>, username: Seq<char>, password: Seq<char>) -> int {
    choose|i: int| {
        &&& 0 <= i < users.len()
        &&& #[trigger] users[i].username@ == username && users[i].password@ == password
        &&& forall|j: int| 0 <= j < i ==> !(users[j].username@ == username && users[j].password@ == password)
    }
}

/// Whether some stored account has this name.
pub open spec fn name_taken(users: Seq<StoredUser>, username: Seq<char>) -> bool {
    exists|i: int| 0 <= i < users.len() && #[trigger] users[i].username@ == username
}

/// The state after a sign-in: with a matching account, its name and email
/// become the signed-in account and the player name, `user_matches` the
/// history, and the menu is shown; otherwise the error is set.
pub open spec fn logged_in(
    old: AppModel,
    new: AppModel,
    users: Seq<StoredUser>,
    user_matches: Vec<MatchRecord>,
    username: Seq<char>,
    password: Seq<char>,
    r: bool,
) -> bool {
    if has_account(users, username, password) {
        let found = users[first_account(users, username, password)];
        &&& r
        &&& new.player_name@ == found.username@
        &&& new.matches == user_matches
        &&& new.user matches Some(u) && u.username@ == found.username@ && u.email@ == found.email@
        &&& new.auth_error is None
        &&& new.screen == AppScreen::Menu
        &&& new == (AppModel {
            player_name: new.player_name,
            matches: new.matches,
            user: new.user,
            auth_error: new.auth_error,
            screen: new.screen,
            ..old
        })
    } else {
        &&& !r
        &&& new.auth_error matches Some(e) && e@ == "Invalid local username or password."@
        &&& new == (AppModel { auth_error: new.auth_error, ..old })
    }
}

impl AppModel {
    /// Signs in with `username` and `password` against the stored accounts
    /// `users`; `user_matches` is the stored history of `username`. On
    /// success the signed-in account is to be saved: the second result
    /// writes it.
    pub fn login(&mut self, users: &Vec<StoredUser>, user_matches: Vec<MatchRecord>, username: &str, password: &str) -> (r: (bool, Option<StorageOp>))
        ensures
            logged_in(*old(self), *final(self), users@, user_matches, username@, password@, r.0),
            r.0 ==> (r.1 matches Some(op) && writes(op, crate::storage::ACTIVE_USER_KEY@)),
            !r.0 ==> r.1 is None,
    {
        let mut i: usize = 0;
        while i < users.len()
            invariant
                *self == *old(self),
                i <= users@.len(),
                forall|j: int| 0 <= j < i ==> !(users@[j].username@ == username@ && users@[j].password@ == password@),
            decreases users@.len() - i,
        {
            if str_eq(users[i].username.as_str(), username) && str_eq(users[i].password.as_str(), password) {
                let local = LocalUser { username: users[i].username.clone(), email: users[i].email.clone() };
                self.player_name = local.username.clone();
                self.matches = user_matches;
                self.user = Some(local);
                self.auth_error = None;
                self.screen = AppScreen::Menu;
                proof {
                    let ii = i as int;
                    assert(users@[ii].username@ == username@ && users@[ii].password@ == password@);
                    assert(has_account(users@, username@, password@));
                    assert({
                        &&& 0 <= ii < users@.len()
                        &&& users@[ii].username@ == username@ && users@[ii].password@ == password@
                        &&& forall|j: int| 0 <= j < ii ==> !(users@[j].username@ == username@ && users@[j].password@ == password@)
                    });
                    let k = first_account(users@, username@, password@);
                    if k < ii {
                        assert(!(users@[k].username@ == username@ && users@[k].password@ == password@));
                    }
                    assert(k == ii);
                }
                let op = save_active_user(self.user.as_ref());
                return (true, Some(op));
            }
            i = i + 1;
        }
        proof {
            if has_account(users@, username@, password@) {
                let w = choose|w: int| 0 <= w < users@.len() && #[trigger] users@[w].username@ == username@ && users@[w].password@ == password@;
                assert(!(users@[w].username@ == username@ && users@[w].password@ == password@));
            }
        }
        self.auth_error = Some(owned("Invalid local username or password."));
        (false, None)
    }

    /// Registers a new local account; a name already stored is refused.
    /// On success the accounts and the signed-in account are to be saved:
    /// the second result writes the accounts, then the signed-in account.
    pub fn register(
        &mut self,
        users: &mut Vec<StoredUser>,
        user_matches: Vec<MatchRecord>,
        username: &str,
        email: &str,
        password: &str,
    ) -> (r: (bool, Vec<StorageOp>))
        ensures
            name_taken(old(users)@, username@) ==> {
                &&& !r.0
                &&& r.1@.len() == 0
                &&& final(users)@ == old(users)@
                &&& final(self).auth_error matches Some(e) && e@ == "That local username already exists."@
                &&& *final(self) == (AppModel { auth_error: final(self).auth_error, ..*old(self) })
            },
            !name_taken(old(users)@, username@) ==> {
                &&& final(users)@.len() == old(users)@.len() + 1
                &&& final(users)@.drop_last() == old(users)@
                &&& final(users)@.last().username@ == username@
                &&& final(users)@.last().email@ == email@
                &&& final(users)@.last().password@ == password@
                &&& logged_in(*old(self), *final(self), final(users)@, user_matches, username@, password@, r.0)
                &&& r.0
                &&& r.1@.len() == 2
                &&& writes(r.1@[0], crate::storage::USERS_KEY@)
                &&& writes(r.1@[1], crate::storage::ACTIVE_USER_KEY@)
            },
    {
        let mut i: usize = 0;
        while i < users.len()
            invariant
                *self == *old(self),
                users@ == old(users)@,
                i <= users@.len(),
                forall|j: int| 0 <= j < i ==> users@[j].username@ != username@,
            decreases users@.len() - i,
        {
            if str_eq(users[i].username.as_str(), username) {
                assert(users@[i as int].username@ == username@);
                assert(name_taken(users@, username@));
                self.auth_error = Some(owned("That local username already exists."));
                return (false, Vec::new());
            }
            i = i + 1;
        }
        proof {
            if name_taken(users@, username@) {
                let w = choose|w: int| 0 <= w < users@.len() && #[trigger] users@[w].username@ == username@;
                assert(users@[w].username@ != username@);
            }
        }
        let ghost before = users@;
        users.push(StoredUser { username: owned(username), email: owned(email), password: owned(password) });
        assert(users@.drop_last() =~= before);
        assert(users@[users@.len() - 1].username@ == username@ && users@[users@.len() - 1].password@ == password@);
        let mut ops: Vec<StorageOp> = Vec::new();
        ops.push(save_users(users.as_slice()));
        let (ok, active) = self.login(users, user_matches, username, password);
        match active {
            Some(op) => ops.push(op),
            None => {},
        }
        (ok, ops)
    }
}

/// The state after a finished match is recorded, given the id and date
/// to record it with: once per position count, for a signed-in player, the
/// newest record first.
pub open spec fn match_recorded(old: AppModel, new: AppModel, id: u64, date: Seq<char>, saves: Seq<Seq<char>>) -> bool {
    let g = old.game;
    if g.history_fen@.len() == old.recorded() || g.history_uci@.len() == 0 {
        new == old && saves.len() == 0
    } else {
        match old.user {
            None => new == (AppModel { recorded_fen_count: new.recorded_fen_count, ..old })
                && new.recorded() == g.history_fen@.len() && saves.len() == 0,
            Some(u) => {
                &&& new.recorded() == g.history_fen@.len()
                &&& new.matches@.len() == old.matches@.len() + 1
                &&& new.matches@.drop_first() == old.matches@
                &&& new.matches@[0].id == id
                &&& new.matches@[0].opponent@ == spec_opponent(g.game_mode)
                &&& new.matches@[0].result@ == spec_result(g.winner, g.player_color)
                &&& new.matches@[0].moves@ == join_words(crate::game::views(g.history_uci@), " "@)
                &&& new.matches@[0].date@ == date
                &&& new == (AppModel { recorded_fen_count: new.recorded_fen_count, matches: new.matches, ..old })
                &&& saves == seq![spec_matches_key(u.username@)]
            },
        }
    }
}

/// Whether White's win would complete the current story chapter: a story
/// match won by White, with the chapter not yet completed.
pub open spec fn chapter_unlock_due(m: AppModel) -> bool {
    &&& m.game.game_mode == GameMode::Story
    &&& m.game.winner == Some(PlayerColor::White)
    &&& !m.campaign_progress.completed_chapters@.contains(m.campaign_progress.current_chapter)
}

/// The state after a won story chapter is unlocked: White's win in story
/// mode completes the current chapter once, moves on to the next, and
/// unlocks the chapter's reward skin.
pub open spec fn story_unlocked(old: AppModel, new: AppModel, saves: Seq<Seq<char>>) -> bool {
    let p = old.campaign_progress;
    let id = p.current_chapter;
    if old.game.game_mode != GameMode::Story || old.game.winner != Some(PlayerColor::White)
        || p.completed_chapters@.contains(id) {
        new == old && saves.len() == 0
    } else {
        let reward = match spec_chapter_index(id) {
            Some(i) => spec_story_chapter(i).reward_skin,
            None => None,
        };
        let skins = match reward {
            Some(s) => if p.unlocked_skins@.contains(s) { p.unlocked_skins@ } else { p.unlocked_skins@.push(s) },
            None => p.unlocked_skins@,
        };
        let q = new.campaign_progress;
        &&& q.completed_chapters@ == p.completed_chapters@.push(id)
        &&& q.current_chapter == id + 1
        &&& q.unlocked_skins@ == skins
        &&& q.unlocked_emotes == p.unlocked_emotes
        &&& new == (AppModel { campaign_progress: new.campaign_progress, ..old })
        &&& saves == seq![crate::storage::PROGRESS_KEY@]
    }
}

/// The state after `after_move(id, date)` returned `ops`: a finished
/// match is recorded and a won story chapter unlocked; `ops` writes the
/// keys of what changed.
pub open spec fn after_moved(old: AppModel, new: AppModel, id: u64, date: Seq<char>, ops: Seq<StorageOp>) -> bool {
    if !old.game.is_game_over {
        new == old && ops.len() == 0
    } else {
        exists|mid: AppModel, a: Seq<Seq<char>>, b: Seq<Seq<char>>|
            #![trigger match_recorded(old, mid, id, date, a), story_unlocked(mid, new, b)]
            {
                &&& match_recorded(old, mid, id, date, a)
                &&& story_unlocked(mid, new, b)
                &&& written_keys(ops) == a + b
                &&& forall|i: int| 0 <= i < ops.len() ==> #[trigger] ops[i] is Write
            }
    }
}

/// The sound after a move: a win when the game is over, a capture when a
/// piece was taken, otherwise a plain move; silent when sounds are off.
pub open spec fn spec_move_sound(audio: AudioSystem, enabled: bool, over: bool, capture: bool) -> Option<Tone> {
    if over {
        audio.spec_tone(enabled, 660, 440, 320)
    } else if capture {
        audio.spec_tone(enabled, 130, 70, 180)
    } else {
        audio.spec_tone(enabled, 320, 120, 100)
    }
}

/// How many pieces both sides have taken.
pub open spec fn capture_count(g: GameController) -> int {
    (g.captured.white@.len() + g.captured.black@.len()) as int
}

/// The keys that `ops` write.
pub open spec fn written_keys(ops: Seq<StorageOp>) -> Seq<Seq<char>> {
    ops.map_values(|op: StorageOp| match op {
        StorageOp::Write(k) => k@,
        StorageOp::Remove(k) => k@,
    })
}

impl AppModel {
    /// After each move: a finished match is recorded and a won story
    /// chapter unlocked, with `id` and `date` for the record. Returns what
    /// is to be saved.
    pub fn after_move(&mut self, id: u64, date: &str) -> (r: Vec<StorageOp>)
        requires
            old(self).game.is_game_over && chapter_unlock_due(*old(self))
                ==> old(self).campaign_progress.current_chapter < u32::MAX,
        ensures
            after_moved(*old(self), *final(self), id, date@, r@),
    {
        let mut ops: Vec<StorageOp> = Vec::new();
        if self.game.is_game_over {
            let a = self.record_match_once(id, date);
            let ghost mid = *self;
            let b = self.unlock_story_if_needed();
            let ghost ga = a;
            let ghost gb = b;
            match a {
                Some(op) => ops.push(op),
                None => {},
            }
            match b {
                Some(op) => ops.push(op),
                None => {},
            }
            proof {
                let ka: Seq<Seq<char>> = match ga {
                    Some(StorageOp::Write(k)) => seq![k@],
                    _ => Seq::empty(),
                };
                let kb: Seq<Seq<char>> = match gb {
                    Some(StorageOp::Write(k)) => seq![k@],
                    _ => Seq::empty(),
                };
                assert(written_keys(ops@) =~= ka + kb);
                assert(match_recorded(*old(self), mid, id, date@, ka));
                assert(story_unlocked(mid, *self, kb));
            }
        }
        ops
    }

    pub fn record_match_once(&mut self, id: u64, date: &str) -> (r: Option<StorageOp>)
        ensures
            match_recorded(*old(self), *final(self), id, date@, match r {
                Some(StorageOp::Write(k)) => seq![k@],
                _ => Seq::empty(),
            }),
            r matches Some(op) ==> op is Write,
    {
        if self.game.history_fen.len() == self.recorded_fen_count || self.game.history_uci.len() == 0 {
            return None;
        }
        self.recorded_fen_count = self.game.history_fen.len();
        let username = match &self.user {
            Some(u) => u.username.clone(),
            None => return None,
        };
        let result = match self.game.winner {
            Some(w) => if w == self.game.player_color { owned("win") } else { owned("loss") },
            None => owned("draw"),
        };
        let opponent = match self.game.game_mode {
            GameMode::PlayerVsAi => owned("Rust Bot"),
            GameMode::Story => owned("Story Opponent"),
            GameMode::Boss => owned("Boss Rush"),
            GameMode::OnlineLocal => owned("Local Room"),
            GameMode::Puzzles => owned("Puzzle"),
            _ => owned("Local Player"),
        };
        let record = MatchRecord {
            id,
            opponent,
            result,
            moves: join_strings(&self.game.history_uci, " "),
            date: owned(date),
        };
        let ghost before = self.matches@;
        self.matches.insert(0, record);
        assert(self.matches@.drop_first() =~= before);
        Some(StorageOp::Write(matches_key(username.as_str())))
    }

    pub fn unlock_story_if_needed(&mut self) -> (r: Option<StorageOp>)
        requires
            chapter_unlock_due(*old(self)) ==> old(self).campaign_progress.current_chapter < u32::MAX,
        ensures
            story_unlocked(*old(self), *final(self), match r {
                Some(StorageOp::Write(k)) => seq![k@],
                _ => Seq::empty(),
            }),
            r matches Some(op) ==> op is Write,
    {
        if self.game.game_mode != GameMode::Story || self.game.winner != Some(PlayerColor::White) {
            return None;
        }
        let chapter_id = self.campaign_progress.current_chapter;
        let mut i: usize = 0;
        while i < self.campaign_progress.completed_chapters.len()
            invariant
                *self == *old(self),
                chapter_id == old(self).campaign_progress.current_chapter,
                self.game.game_mode == GameMode::Story,
                self.game.winner == Some(PlayerColor::White),
                i <= self.campaign_progress.completed_chapters@.len(),
                forall|j: int| 0 <= j < i ==> self.campaign_progress.completed_chapters@[j] != chapter_id,
            decreases self.campaign_progress.completed_chapters@.len() - i,
        {
            if self.campaign_progress.completed_chapters[i] == chapter_id {
                assert(self.campaign_progress.completed_chapters@.contains(chapter_id));
                return None;
            }
            i = i + 1;
        }
        self.campaign_progress.completed_chapters.push(chapter_id);
        self.campaign_progress.current_chapter = chapter_id + 1;
        match find_story_chapter(chapter_id) {
            Some(chapter) => match chapter.reward_skin {
                Some(skin) => {
                    let mut found = false;
                    let mut k: usize = 0;
                    while k < self.campaign_progress.unlocked_skins.len()
                        invariant
                            k <= self.campaign_progress.unlocked_skins@.len(),
                            found <==> exists|j: int| 0 <= j < k && self.campaign_progress.unlocked_skins@[j] == skin,
                        decreases self.campaign_progress.unlocked_skins@.len() - k,
                    {
                        if self.campaign_progress.unlocked_skins[k] == skin {
                            found = true;
                        }
                        k = k + 1;
                    }
                    if !found {
                        self.campaign_progress.unlocked_skins.push(skin);
                    }
                },
                None => {},
            },
            None => {},
        }
        Some(save_progress(&self.campaign_progress))
    }

    /// A click on `square` on the board: the selection moves there or the
    /// square is selected; after a move the match is recorded as needed
    /// and the move's sound chosen. Returns the sound and what is to be
    /// saved.
    pub fn apply_square_click(&mut self, audio: &AudioSystem, square: &str, id: u64, date: &str) -> (r: (
        Option<Tone>,
        Vec<StorageOp>,
    ))
        requires
            old(self).game.wf(),
            old(self).game.game_mode == GameMode::Story
                && !old(self).campaign_progress.completed_chapters@.contains(old(self).campaign_progress.current_chapter)
                ==> old(self).campaign_progress.current_chapter < u32::MAX,
        ensures
            final(self).game.wf(),
            exists|g: GameController, moved: bool|
                #![trigger clicked(old(self).game, g, square@, moved)]
                {
                    &&& clicked(old(self).game, g, square@, moved)
                    &&& if moved {
                        &&& after_moved(AppModel { game: g, ..*old(self) }, *final(self), id, date@, r.1@)
                        &&& r.0 == spec_move_sound(
                            *audio,
                            old(self).settings.enable_sounds,
                            final(self).game.is_game_over,
                            capture_count(g) > capture_count(old(self).game),
                        )
                    } else {
                        &&& *final(self) == (AppModel { game: g, ..*old(self) })
                        &&& r.0 is None
                        &&& r.1@.len() == 0
                    }
                },
    {
        let before = self.game.captured.white.len() as u128 + self.game.captured.black.len() as u128;
        let ghost start = *self;
        let moved = self.game.click_square(square);
        let ghost g = self.game;
        if !moved {
            assert(*self == AppModel { game: g, ..start });
            return (None, Vec::new());
        }
        let after = self.game.captured.white.len() as u128 + self.game.captured.black.len() as u128;
        proof {
            crate::game::lemma_clicked_keeps_mode(start.game, g, square@, moved);
        }
        let saves = self.after_move(id, date);
        let enabled = self.settings.enable_sounds;
        let sound = if self.game.is_game_over {
            audio.play_win(enabled)
        } else if after > before {
            audio.play_capture(enabled)
        } else {
            audio.play_move(enabled)
        };
        (sound, saves)
    }
}

} // verus!
