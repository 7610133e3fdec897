//! Where each piece of local data is kept, and what stands in for data that
//! is missing or unreadable. Reading and writing the browser's storage, and
//! encoding the values, is the caller's part: it hands over what it decoded
//! from the key named here and stores under the key each save names.
use vstd::prelude::*;

use crate::text::join2;
use crate::types::{CampaignProgress, EmoteType, GameSettings, LocalUser, MatchRecord, ProfileCustomization, SkinType};

verus! {

pub const SETTINGS_KEY: &'static str = "gm3d_rs_settings";
pub const PROFILE_KEY: &'static str = "gm3d_rs_profile";
pub const PROGRESS_KEY: &'static str = "gm3d_rs_progress";
pub const ACTIVE_SKIN_KEY: &'static str = "gm3d_rs_active_skin";
pub const ACTIVE_EMOTE_KEY: &'static str = "gm3d_rs_active_emote";
pub const USERS_KEY: &'static str = "gm3d_rs_users";
pub const ACTIVE_USER_KEY: &'static str = "gm3d_rs_active_user";
pub const MATCHES_KEY: &'static str = "gm3d_rs_matches";

/// A local account as stored, with its password.
#[derive(Clone, Debug)]
pub struct StoredUser {
    pub username: String,
    pub email: String,
    pub password: String,
}

/// What to do to the storage: write the value being saved under a key, or
/// remove the key.
#[derive(Clone, Debug)]
pub enum StorageOp {
    Write(String),
    Remove(String),
}

/// Whether `op` writes under `key`.
pub open spec fn writes(op: StorageOp, key: Seq<char>) -> bool {
    op matches StorageOp::Write(k) && k@ == key
}

/// The settings read back (the defaults when nothing readable is stored).
pub fn load_settings(stored: Option<GameSettings>) -> (r: GameSettings)
    ensures
        r == (match stored {
            Some(s) => s,
            None => GameSettings::spec_default(),
        }),
{
    match stored {
        Some(s) => s,
        None => GameSettings::default(),
    }
}

/// Saves the settings under their key.
pub fn save_settings(settings: &GameSettings) -> (r: StorageOp)
    ensures
        writes(r, SETTINGS_KEY@),
{
    StorageOp::Write(String::from_str(SETTINGS_KEY))
}

/// The profile read back (the default profile when nothing readable is
/// stored).
pub fn load_profile(stored: Option<ProfileCustomization>) -> (r: ProfileCustomization)
    ensures
        match stored {
            Some(p) => r == p,
            None => r.icon@ == "\u{1F451}"@ && r.banner_color@ == "#4f46e5"@ && r.emblem@ == "Lion"@
                && r.crown_style@ == "Gold"@,
        },
{
    match stored {
        Some(p) => p,
        None => ProfileCustomization::default(),
    }
}

/// Saves the profile under its key.
pub fn save_profile(profile: &ProfileCustomization) -> (r: StorageOp)
    ensures
        writes(r, PROFILE_KEY@),
{
    StorageOp::Write(String::from_str(PROFILE_KEY))
}

/// The campaign progress read back (chapter one with every skin and the
/// bow when nothing readable is stored).
pub fn load_progress(stored: Option<CampaignProgress>) -> (r: CampaignProgress)
    ensures
        match stored {
            Some(p) => r == p,
            None => {
                &&& r.current_chapter == 1
                &&& r.unlocked_skins@ == SkinType::ALL@
                &&& r.unlocked_emotes@ == seq![EmoteType::Bow]
                &&& r.completed_chapters@.len() == 0
            },
        },
{
    match stored {
        Some(p) => p,
        None => CampaignProgress::default(),
    }
}

/// Saves the campaign progress under its key.
pub fn save_progress(progress: &CampaignProgress) -> (r: StorageOp)
    ensures
        writes(r, PROGRESS_KEY@),
{
    StorageOp::Write(String::from_str(PROGRESS_KEY))
}

/// The active skin read back (classic when nothing readable is stored).
pub fn load_active_skin(stored: Option<SkinType>) -> (r: SkinType)
    ensures
        r == (match stored {
            Some(s) => s,
            None => SkinType::Classic,
        }),
{
    match stored {
        Some(s) => s,
        None => SkinType::Classic,
    }
}

/// Saves the active skin under its key.
pub fn save_active_skin(skin: SkinType) -> (r: StorageOp)
    ensures
        writes(r, ACTIVE_SKIN_KEY@),
{
    StorageOp::Write(String::from_str(ACTIVE_SKIN_KEY))
}

/// The active emote read back (the bow when nothing readable is stored).
pub fn load_active_emote(stored: Option<EmoteType>) -> (r: EmoteType)
    ensures
        r == (match stored {
            Some(e) => e,
            None => EmoteType::Bow,
        }),
{
    match stored {
        Some(e) => e,
        None => EmoteType::Bow,
    }
}

/// Saves the active emote under its key.
pub fn save_active_emote(emote: EmoteType) -> (r: StorageOp)
    ensures
        writes(r, ACTIVE_EMOTE_KEY@),
{
    StorageOp::Write(String::from_str(ACTIVE_EMOTE_KEY))
}

/// The local accounts read back (none when nothing readable is stored).
pub fn load_users(stored: Option<Vec<StoredUser>>) -> (r: Vec<StoredUser>)
    ensures
        match stored {
            Some(u) => r == u,
            None => r@.len() == 0,
        },
{
    match stored {
        Some(u) => u,
        None => Vec::new(),
    }
}

/// Saves the local accounts under their key.
pub fn save_users(users: &[StoredUser]) -> (r: StorageOp)
    ensures
        writes(r, USERS_KEY@),
{
    StorageOp::Write(String::from_str(USERS_KEY))
}

/// The signed-in account read back, if one is stored.
pub fn load_active_user(stored: Option<LocalUser>) -> (r: Option<LocalUser>)
    ensures
        r == stored,
{
    stored
}

/// Saves the signed-in account, or forgets it when there is none.
pub fn save_active_user(user: Option<&LocalUser>) -> (r: StorageOp)
    ensures
        match user {
            Some(_) => writes(r, ACTIVE_USER_KEY@),
            None => r matches StorageOp::Remove(k) && k@ == ACTIVE_USER_KEY@,
        },
{
    match user {
        Some(_) => StorageOp::Write(String::from_str(ACTIVE_USER_KEY)),
        None => remove(ACTIVE_USER_KEY),
    }
}

/// A player's match history read back (empty when nothing readable is
/// stored under `matches_key` of the player).
pub fn load_matches(stored: Option<Vec<MatchRecord>>) -> (r: Vec<MatchRecord>)
    ensures
        match stored {
            Some(m) => r == m,
            None => r@.len() == 0,
        },
{
    match stored {
        Some(m) => m,
        None => Vec::new(),
    }
}

/// Saves a player's match history under the player's own key.
pub fn save_matches(username: &str, matches: &[MatchRecord]) -> (r: StorageOp)
    ensures
        writes(r, spec_matches_key(username@)),
{
    StorageOp::Write(matches_key(username))
}

/// The key of a player's match history: the matches key, `_`, the name.
pub open spec fn spec_matches_key(username: Seq<char>) -> Seq<char> {
    MATCHES_KEY@ + "_"@ + username
}

/// The key of a player's match history.
pub fn matches_key(username: &str) -> (r: String)
    ensures
        r@ == spec_matches_key(username@),
{
    let mut r = join2(MATCHES_KEY, "_");
    r.append(username);
    r
}

/// Removes `key` from the storage.
fn remove(key: &str) -> (r: StorageOp)
    ensures
        r matches StorageOp::Remove(k) && k@ == key@,
{
    StorageOp::Remove(String::from_str(key))
}

} // verus!
