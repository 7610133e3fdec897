//! The sounds the game makes. The library decides what to play; the caller
//! plays it through the browser's audio and speech interfaces.
use vstd::prelude::*;

use crate::text::owned;

verus! {

/// A tone gliding from `start_hz` to `end_hz` over `duration_ms`.
#[derive(Clone, Copy, Debug, PartialEq, Eq, Structural)]
pub struct Tone {
    pub start_hz: u32,
    pub end_hz: u32,
    pub duration_ms: u32,
}

/// Text to speak, with volume, rate and pitch in percent.
#[derive(Clone, Debug)]
pub struct Speech {
    pub text: String,
    pub volume_percent: u32,
    pub rate_percent: u32,
    pub pitch_percent: u32,
}

/// The game's sound effects and voice.
#[derive(Clone, Copy, Debug)]
pub struct AudioSystem;

impl AudioSystem {
    /// The speech for `text`, when voice is enabled: at 80% volume, normal
    /// rate and pitch.
    pub fn speak(&self, text: &str, enabled: bool) -> (r: Option<Speech>)
        ensures
            match r {
                Some(s) => enabled && s.text@ == text@ && s.volume_percent == 80 && s.rate_percent == 100
                    && s.pitch_percent == 100,
                None => !enabled,
            },
    {
        if !enabled {
            return None;
        }
        Some(Speech { text: owned(text), volume_percent: 80, rate_percent: 100, pitch_percent: 100 })
    }

    /// The sound of a move: 320 Hz falling to 120 Hz over 100 ms.
    pub fn play_move(&self, enabled: bool) -> (r: Option<Tone>)
        ensures
            r == self.spec_tone(enabled, 320, 120, 100),
    {
        self.play_tone(enabled, 320, 120, 100)
    }

    /// The sound of a capture: 130 Hz falling to 70 Hz over 180 ms.
    pub fn play_capture(&self, enabled: bool) -> (r: Option<Tone>)
        ensures
            r == self.spec_tone(enabled, 130, 70, 180),
    {
        self.play_tone(enabled, 130, 70, 180)
    }

    /// The sound of a win: 660 Hz falling to 440 Hz over 320 ms.
    pub fn play_win(&self, enabled: bool) -> (r: Option<Tone>)
        ensures
            r == self.spec_tone(enabled, 660, 440, 320),
    {
        self.play_tone(enabled, 660, 440, 320)
    }

    /// The tone to play when sounds are enabled; its end is at least 1 Hz.
    pub open spec fn spec_tone(&self, enabled: bool, start: u32, end: u32, duration_ms: u32) -> Option<Tone> {
        if enabled {
            Some(Tone { start_hz: start, end_hz: if end < 1 { 1 } else { end }, duration_ms })
        } else {
            None
        }
    }

    fn play_tone(&self, enabled: bool, start: u32, end: u32, duration_ms: u32) -> (r: Option<Tone>)
        ensures
            r == self.spec_tone(enabled, start, end, duration_ms),
    {
        if !enabled {
            return None;
        }
        Some(Tone { start_hz: start, end_hz: if end < 1 { 1 } else { end }, duration_ms })
    }
}

} // verus!
