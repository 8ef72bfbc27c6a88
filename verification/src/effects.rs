//! What the handlers ask the outside world to do: calls of the audio engine,
//! messages, saves, requests to services.
use crate::config::{AnalyzerEngine, PitchStretchEngine};
use crate::midi_learn::Action;
use vstd::prelude::*;
use vstd::string::*;

verus! {

/// Which deck the monitor output plays.
#[derive(Debug, Clone, Copy, PartialEq, Eq, Structural)]
pub enum MonitorSource {
    Incoming,
    DeckA,
    DeckB,
    Both,
}

/// Something to do that carries no text. Levels, positions and rates are in
/// millionths, equaliser gains in hundredths of a decibel.
#[derive(Debug, Clone, Copy, PartialEq, Eq, Structural)]
pub enum Act {
    // Playback.
    MixNow,
    Skip,
    Pause,
    Teleport,
    ClearQueue,
    SmartShuffle,
    ResumeAuto,
    BailCrossfade,
    ToggleSplitCue,
    ToggleMetronome,
    RequestRewind,
    Reanalyze(AnalyzerEngine),
    ExportHistory,
    Nudge(i32),
    Jump(i32),
    Extend(i32),
    ShiftGrid(i64),
    SetMixIn(i64),
    SetMasterGain(i64),
    // Mixer.
    SetEq { is_a: bool, low: Option<i32>, mid: Option<i32>, high: Option<i32> },
    SetFilter { is_a: bool, pos: i64 },
    SetFader { is_a: bool, level: i64 },
    SetCrossfader(i64),
    SweepCrossfader { target: i64, over_bars: u32 },
    SetVolume { incoming: bool, level: i64 },
    // Decks.
    SetDeckRate { is_a: bool, rate: i64 },
    SetPlayingRate(i64),
    SetIncomingRate(i64),
    PlayPauseDeck { is_a: bool },
    NudgeDeck { is_a: bool, direction: i32 },
    JumpDeckBars { is_a: bool, bars: i32 },
    JumpDeckBeats { is_a: bool, by: i32 },
    StopDeck { is_a: bool },
    SeekDeck { is_a: bool, time: i64 },
    PreviewDeck { is_a: bool },
    StopPreview { is_a: bool },
    PlayDeck { is_a: bool },
    CueSet { is_a: bool, slot: usize },
    CueJump { is_a: bool, slot: usize },
    CueClear { is_a: bool, slot: usize },
    LoopEngage { is_a: bool, beats: u32 },
    LoopDisengage { is_a: bool },
    LoopBeats { is_a: bool, micros: i64 },
    LoopRelease { is_a: bool },
    LoopIn { is_a: bool },
    LoopOut { is_a: bool },
    DelayFeedback { is_a: bool, value: i64 },
    DelaySamples { is_a: bool, samples: u64 },
    DelaySync { is_a: bool, micros: i64 },
    // Engine settings.
    SetJumpBars(u32),
    SetCrossfadeBars(u32),
    SetCrossfadeBarsAuto(bool),
    SetQuantize { on: bool, step: u64 },
    SetPitchStretch(PitchStretchEngine),
    SetMonitorSource(MonitorSource),
    SyncTransitions,
    SyncTrainWreck,
    SyncLimiter,
    SyncClaudeDj,
    EnableDj(bool),
    SyncRules,
    // Files and services.
    SaveConfig,
    DeleteSession,
    SaveSession,
    WriteStatus,
    WriteQuickStatus,
    WriteScreen,
    WriteLayout,
    WriteDiagnosis,
    Restart,
    Quit,
    InstallRubberband,
    LogOut,
    LoadGenres { favorites: bool },
    LoadPlaylists { track: i64 },
    DeletePlaylist(i64),
    /// The playlist and the track that the next text speaks of.
    PickPlaylist { id: i64, track: i64 },
    PickTrack(i64),
    OpenRulesEditor,
    ClearBrowseCache,
    ToggleFavorite { is_a: bool },
    ToggleSelectedFavorite,
    ProfilerOn(bool),
    // Screens and tracks of the current screen, by index.
    Activate(usize),
    Enqueue(usize),
    EnqueueFront(usize),
    EnqueueAll,
    LoadDeck { index: usize, as_incoming: bool },
    Preview(usize),
    LoadPage(u32),
    /// Hand the track that was to be loaded to the queue instead.
    QueueNamed,
    /// Load the track that the engine named.
    LoadNamed { as_incoming: bool },
    // MIDI.
    BindCaptured(Action),
    BindPicked(Action),
    Unbind,
    ForgetMidiEvent,
    // Ratings: a mix of the history, or the last one, at a time; and taking one back.
    Rate { index: usize, good: bool, at: i64 },
    RateLast { good: bool, at: i64 },
    Unrate { at: i64, good: bool },
}

/// Something to do that carries one text.
#[derive(Debug, Clone, Copy, PartialEq, Eq, Structural)]
pub enum TextAct {
    /// Call the DJ, for a reason.
    TriggerDj,
    /// Set the direction the DJ takes.
    SetPrompt,
    /// Search the catalogue.
    Search,
    /// Submit a line of the command prompt.
    Submit,
    /// Hand a line to the command file.
    WriteCommand,
    /// Pick the next transition by name.
    SetTransition,
    /// Jump to a named place of deck A, or B.
    SeekA,
    SeekB,
    /// List the top tracks of a genre.
    LoadChart,
    /// Open a web page.
    OpenUrl,
    /// Make a playlist.
    CreatePlaylist,
    /// Make a playlist and add the picked track to it.
    CreateAndAdd,
    /// Add the picked track to the picked playlist.
    AddToPlaylist,
    /// Remember a place that was browsed.
    RememberBrowse,
    /// Remember a track that was queued.
    RememberQueued,
}

pub enum Effect {
    /// Show a text for some milliseconds.
    Toast(String, u64),
    Do(Act),
    With(TextAct, String),
}

/// An effect with its text as characters.
#[verifier::ext_equal]
pub enum EffectV {
    Toast(Seq<char>, u64),
    Do(Act),
    With(TextAct, Seq<char>),
}

impl View for Effect {
    type V = EffectV;

    open spec fn view(&self) -> EffectV {
        match *self {
            Effect::Toast(s, ms) => EffectV::Toast(s@, ms),
            Effect::Do(a) => EffectV::Do(a),
            Effect::With(t, s) => EffectV::With(t, s@),
        }
    }
}

/// The effects of a list.
pub open spec fn fx_view(fx: Seq<Effect>) -> Seq<EffectV> {
    Seq::new(fx.len(), |i: int| fx[i]@)
}

pub fn add_toast(fx: &mut Vec<Effect>, text: &str, ms: u64)
    ensures
        fx_view(final(fx)@) == fx_view(old(fx)@).push(EffectV::Toast(text@, ms)),
{
    fx.push(Effect::Toast(crate::text::owned(text), ms));
    assert(fx_view(fx@) =~= fx_view(old(fx)@).push(EffectV::Toast(text@, ms)));
}

pub fn add_act(fx: &mut Vec<Effect>, act: Act)
    ensures
        fx_view(final(fx)@) == fx_view(old(fx)@).push(EffectV::Do(act)),
{
    fx.push(Effect::Do(act));
    assert(fx_view(fx@) =~= fx_view(old(fx)@).push(EffectV::Do(act)));
}

pub fn add_text(fx: &mut Vec<Effect>, act: TextAct, text: &str)
    ensures
        fx_view(final(fx)@) == fx_view(old(fx)@).push(EffectV::With(act, text@)),
{
    fx.push(Effect::With(act, crate::text::owned(text)));
    assert(fx_view(fx@) =~= fx_view(old(fx)@).push(EffectV::With(act, text@)));
}

/// No effect.
pub fn no_effects() -> (fx: Vec<Effect>)
    ensures
        fx_view(fx@) == Seq::<EffectV>::empty(),
{
    let fx: Vec<Effect> = Vec::new();
    assert(fx_view(fx@) =~= Seq::<EffectV>::empty());
    fx
}

/// One message.
pub fn only_toast(text: &str, ms: u64) -> (fx: Vec<Effect>)
    ensures
        fx_view(fx@) == seq![EffectV::Toast(text@, ms)],
{
    let mut fx: Vec<Effect> = no_effects();
    add_toast(&mut fx, text, ms);
    assert(fx_view(fx@) =~= seq![EffectV::Toast(text@, ms)]);
    fx
}

/// One act.
pub fn only_act(act: Act) -> (fx: Vec<Effect>)
    ensures
        fx_view(fx@) == seq![EffectV::Do(act)],
{
    let mut fx: Vec<Effect> = no_effects();
    add_act(&mut fx, act);
    assert(fx_view(fx@) =~= seq![EffectV::Do(act)]);
    fx
}

/// An act and a message.
pub fn act_and_toast(act: Act, text: &str, ms: u64) -> (fx: Vec<Effect>)
    ensures
        fx_view(fx@) == seq![EffectV::Do(act), EffectV::Toast(text@, ms)],
{
    let mut fx: Vec<Effect> = no_effects();
    add_act(&mut fx, act);
    add_toast(&mut fx, text, ms);
    assert(fx_view(fx@) =~= seq![EffectV::Do(act), EffectV::Toast(text@, ms)]);
    fx
}

/// Adds the effects of another list.
pub fn add_effects(fx: &mut Vec<Effect>, more: Vec<Effect>)
    ensures
        fx_view(final(fx)@) == fx_view(old(fx)@) + fx_view(more@),
{
    let ghost added = fx_view(more@);
    let mut more: Vec<Effect> = more;
    fx.append(&mut more);
    assert(fx_view(fx@) =~= fx_view(old(fx)@) + added);
}

} // verus!
