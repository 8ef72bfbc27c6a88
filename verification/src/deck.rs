//! What the engine reports of the two decks, the queue and the history, in
//! whole units.
use crate::track::Track;
use vstd::prelude::*;

verus! {

/// A stretch of a track with one level of energy.
#[derive(Debug, Clone, Copy)]
pub struct Phrase {
    /// What it is, by name.
    pub kind: &'static str,
    pub start_ms: u64,
    /// Thousandths; 1000 is full.
    pub energy: i32,
}

/// What is known of the sound of a track.
pub struct Analysis {
    /// Peaks over the whole track, in thousandths of full scale.
    pub peaks: Vec<i32>,
    /// In order of their start.
    pub phrases: Vec<Phrase>,
}

/// One of the two decks.
pub struct Deck {
    pub track: Option<Track>,
    /// Tempo as it sounds, in thousandths of a beat per minute.
    pub bpm: Option<u32>,
    pub time_ms: u64,
    pub duration_ms: u64,
    pub is_playing: bool,
    /// A kick drum is sounding.
    pub kick: bool,
    /// The last whole beat.
    pub beat: i32,
    /// How far the playback rate is off 1, in millionths.
    pub rate: i64,
    /// Loudness, in thousandths of full scale.
    pub level: u32,
    /// Channel fader, in thousandths.
    pub fader: i32,
    /// Equaliser bands, in hundredths of a decibel.
    pub eq_low: i32,
    pub eq_mid: i32,
    pub eq_high: i32,
    /// Filter, in thousandths; 0 is off.
    pub filter: i32,
    /// A loop is running.
    pub loop_active: bool,
    /// Which hot cues are set.
    pub cues: [bool; 4],
    pub analysis: Option<Analysis>,
}

/// A track that was played.
pub struct HistoryEntry {
    pub track: Track,
    /// How well the mix into it went, in percent.
    pub mix_score: Option<u32>,
}

/// What is playing.
pub struct NowPlaying {
    pub deck_a: Deck,
    pub deck_b: Deck,
    pub playing_track: Option<Track>,
    pub incoming_track: Option<Track>,
    pub playing_bpm: Option<u32>,
    pub incoming_bpm: Option<u32>,
    pub playing_time_ms: u64,
    pub playing_duration_ms: u64,
    /// The deck that plays is A.
    pub playing_is_a: bool,
    /// What the engine is doing, by name.
    pub state_name: String,
    pub crossfading: bool,
    /// Millionths of the way through the crossfade.
    pub crossfade_progress: u32,
    pub transition_type_name: String,
    pub transition_bars: u32,
    /// Millionths of the way through the move of the fader.
    pub fader_sweep: i64,
    /// The crossfader, in millionths; -1 is A, 1 is B.
    pub crossfader_pos: i64,
    /// Where the crossfader is drawn, in millionths from A to B.
    pub crossfader_visual: i64,
    /// How far deck B is off deck A within the beat, in microseconds.
    pub phase_us: i64,
    /// The first beats of the bars fall together.
    pub downbeat_aligned: bool,
    /// When the next mix starts.
    pub mix_point_ms: Option<u64>,
    /// How many bars a jump takes.
    pub jump_bars: u32,
    pub queue: Vec<Track>,
    pub history: Vec<HistoryEntry>,
    pub session_time_min: u64,
}

impl NowPlaying {
    pub open spec fn spec_deck(&self, is_a: bool) -> &Deck {
        if is_a {
            &self.deck_a
        } else {
            &self.deck_b
        }
    }

    /// Deck A, the one on the left, or deck B.
    #[verifier::when_used_as_spec(spec_deck)]
    pub fn deck(&self, is_a: bool) -> (d: &Deck)
        ensures
            d == self.spec_deck(is_a),
    {
        if is_a {
            &self.deck_a
        } else {
            &self.deck_b
        }
    }
}

} // verus!
