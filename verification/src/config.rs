//! The saved configuration.
use crate::controls::{DashLayout, PanelSection};
use crate::text::strs;
use vstd::prelude::*;
use vstd::string::*;

verus! {

#[derive(Debug, Clone, Copy, PartialEq, Eq, Structural)]
pub enum AudioQuality {
    Lossless,
    High,
    Standard,
}

#[derive(Debug, Clone, Copy, PartialEq, Eq, Structural)]
pub enum LimiterMode {
    Off,
    SoftKnee,
}

#[derive(Debug, Clone, Copy, PartialEq, Eq, Structural)]
pub enum PitchStretchEngine {
    Off,
    Rubberband,
    Timestretch,
}

#[derive(Debug, Clone, Copy, PartialEq, Eq, Structural)]
pub enum BpmMode {
    Glide,
    Lock,
}

#[derive(Debug, Clone, Copy, PartialEq, Eq, Structural)]
pub enum MixInPoint {
    FirstBeat,
    FirstAudio,
    Drop,
    Middle,
}

#[derive(Debug, Clone, Copy, PartialEq, Eq, Structural)]
pub enum TrainWreckMode {
    Off,
    Detect,
    AutoBail,
}

#[derive(Debug, Clone, Copy, PartialEq, Eq, Structural)]
pub enum ResumeBehavior {
    Never,
    Ask,
    Always,
}

#[derive(Debug, Clone, Copy, PartialEq, Eq, Structural)]
pub enum AnalyzerEngine {
    Builtin,
    Stratum,
}

#[derive(Debug, Clone, Copy, PartialEq, Eq, Structural)]
pub enum ClaudeDjMode {
    Auto,
    Assist,
    Manual,
}

#[derive(Debug, Clone, Copy, PartialEq, Eq, Structural)]
pub enum Strictness {
    Strict,
    Prefer,
    Off,
}

#[derive(Debug, Clone, Copy, PartialEq, Eq, Structural)]
pub enum TransitionPicker {
    Engine,
    Claude,
}

#[derive(Debug, Clone, Copy, PartialEq, Eq, Structural)]
pub enum DjStyle {
    Underground,
    Mainstream,
    Exploratory,
}

#[derive(Debug, Clone, Copy, PartialEq, Eq, Structural)]
pub struct ClaudeDjSettings {
    pub mode: ClaudeDjMode,
    pub camelot_strictness: Strictness,
    pub bpm_gap_strictness: Strictness,
    pub transition_picker: TransitionPicker,
    pub style: DjStyle,
    pub quick_mix: bool,
    pub memory_enabled: bool,
}

/// One beat, in the unit `quantize_beats` is kept in.
pub const BEAT_MICROS: u64 = 1_000_000;

pub struct AppConfig {
    pub audio_quality: AudioQuality,
    pub preview_quality: AudioQuality,
    /// Empty for the system default.
    pub output_device: String,
    /// Empty for no monitor.
    pub monitor_device: String,
    pub master_limiter: LimiterMode,
    pub pitch_stretch_engine: PitchStretchEngine,
    pub bpm_mode: BpmMode,
    pub split_cue: bool,
    pub crossfade_bars: u32,
    pub crossfade_bars_auto: bool,
    /// Zero for as many as the track allows.
    pub glide_bars: u32,
    pub jump_bars: u32,
    pub quantize_on: bool,
    /// In millionths of a beat.
    pub quantize_beats: u64,
    pub tempo_range: u32,
    pub nudge_percent: u32,
    pub mix_in_point: MixInPoint,
    pub smart_mix_out: bool,
    pub train_wreck_mode: TrainWreckMode,
    pub shuffle_on_play: bool,
    pub compact_view: bool,
    pub resume_behavior: ResumeBehavior,
    pub ai_beat_detection: bool,
    pub ai_grid_validation: bool,
    pub ai_phrase_detection: bool,
    pub analyzer_engine: AnalyzerEngine,
    pub enabled_transitions: Vec<String>,
    pub claude_dj: ClaudeDjSettings,
    pub claude_dj_enabled: bool,
    pub browser: String,
    pub default_genre: String,
    pub favorite_genres: Vec<String>,
    pub local_library_dir: String,
    pub rekordbox_xml: String,
    pub engine_dj_db: String,
    pub serato_db: String,
    pub dash_layout: DashLayout,
    pub dash_panel_section: PanelSection,
    /// The `[keys.global]` table: key spec and command id, in file order.
    pub global_keys: Vec<(String, String)>,
}

/// The transitions a fresh configuration enables.
pub open spec fn default_transitions() -> Seq<Seq<char>> {
    seq!["BeatMatched"@, "EchoOut"@, "BassSwap"@, "FilterSweep"@, "LoopRoll"@]
}

impl AppConfig {
    /// Every field as in a fresh configuration.
    pub open spec fn is_default(self) -> bool {
        &&& self.audio_quality == AudioQuality::High
        &&& self.preview_quality == AudioQuality::High
        &&& self.output_device@ == ""@
        &&& self.monitor_device@ == ""@
        &&& self.master_limiter == LimiterMode::SoftKnee
        &&& self.pitch_stretch_engine == PitchStretchEngine::Off
        &&& self.bpm_mode == BpmMode::Glide
        &&& !self.split_cue
        &&& self.crossfade_bars == 16
        &&& !self.crossfade_bars_auto
        &&& self.glide_bars == 16
        &&& self.jump_bars == 8
        &&& self.quantize_on
        &&& self.quantize_beats == BEAT_MICROS
        &&& self.tempo_range == 8
        &&& self.nudge_percent == 3
        &&& self.mix_in_point == MixInPoint::FirstBeat
        &&& self.smart_mix_out
        &&& self.train_wreck_mode == TrainWreckMode::Detect
        &&& !self.shuffle_on_play
        &&& self.compact_view
        &&& self.resume_behavior == ResumeBehavior::Ask
        &&& !self.ai_beat_detection
        &&& !self.ai_grid_validation
        &&& !self.ai_phrase_detection
        &&& self.analyzer_engine == AnalyzerEngine::Builtin
        &&& strs(self.enabled_transitions@) == default_transitions()
        &&& self.claude_dj == (ClaudeDjSettings {
            mode: ClaudeDjMode::Auto,
            camelot_strictness: Strictness::Prefer,
            bpm_gap_strictness: Strictness::Prefer,
            transition_picker: TransitionPicker::Engine,
            style: DjStyle::Underground,
            quick_mix: false,
            memory_enabled: true,
        })
        &&& !self.claude_dj_enabled
        &&& self.browser@ == "Google Chrome"@
        &&& self.default_genre@ == ""@
        &&& self.favorite_genres@.len() == 0
        &&& self.local_library_dir@ == ""@
        &&& self.rekordbox_xml@ == ""@
        &&& self.engine_dj_db@ == ""@
        &&& self.serato_db@ == ""@
        &&& self.dash_layout == DashLayout::Full
        &&& self.dash_panel_section == PanelSection::Queue
        &&& self.global_keys@.len() == 0
    }
}

impl Default for AppConfig {
    fn default() -> (c: AppConfig)
        ensures
            c.is_default(),
    {
        let mut enabled: Vec<String> = Vec::new();
        enabled.push("BeatMatched".to_owned());
        enabled.push("EchoOut".to_owned());
        enabled.push("BassSwap".to_owned());
        enabled.push("FilterSweep".to_owned());
        enabled.push("LoopRoll".to_owned());
        assert(strs(enabled@) == default_transitions());
        AppConfig {
            audio_quality: AudioQuality::High,
            preview_quality: AudioQuality::High,
            output_device: "".to_owned(),
            monitor_device: "".to_owned(),
            master_limiter: LimiterMode::SoftKnee,
            pitch_stretch_engine: PitchStretchEngine::Off,
            bpm_mode: BpmMode::Glide,
            split_cue: false,
            crossfade_bars: 16,
            crossfade_bars_auto: false,
            glide_bars: 16,
            jump_bars: 8,
            quantize_on: true,
            quantize_beats: BEAT_MICROS,
            tempo_range: 8,
            nudge_percent: 3,
            mix_in_point: MixInPoint::FirstBeat,
            smart_mix_out: true,
            train_wreck_mode: TrainWreckMode::Detect,
            shuffle_on_play: false,
            compact_view: true,
            resume_behavior: ResumeBehavior::Ask,
            ai_beat_detection: false,
            ai_grid_validation: false,
            ai_phrase_detection: false,
            analyzer_engine: AnalyzerEngine::Builtin,
            enabled_transitions: enabled,
            claude_dj: ClaudeDjSettings {
                mode: ClaudeDjMode::Auto,
                camelot_strictness: Strictness::Prefer,
                bpm_gap_strictness: Strictness::Prefer,
                transition_picker: TransitionPicker::Engine,
                style: DjStyle::Underground,
                quick_mix: false,
                memory_enabled: true,
            },
            claude_dj_enabled: false,
            browser: "Google Chrome".to_owned(),
            default_genre: "".to_owned(),
            favorite_genres: Vec::new(),
            local_library_dir: "".to_owned(),
            rekordbox_xml: "".to_owned(),
            engine_dj_db: "".to_owned(),
            serato_db: "".to_owned(),
            dash_layout: DashLayout::Full,
            dash_panel_section: PanelSection::Queue,
            global_keys: Vec::new(),
        }
    }
}

} // verus!
