//! The settings list: which rows it shows, what choosing an option does to the
//! configuration, and how the list is drawn.
use crate::config::{
    AnalyzerEngine, AppConfig, AudioQuality, BpmMode, ClaudeDjMode, ClaudeDjSettings, DjStyle,
    LimiterMode, MixInPoint, PitchStretchEngine, ResumeBehavior, Strictness, TrainWreckMode,
    TransitionPicker,
};
use crate::text::{concat2, decimal, decimal_str, str_eq, strs};
use vstd::prelude::*;
use vstd::string::*;

verus! {

/// What the settings depend on besides the configuration: the audio devices
/// found, and which optional engines this build holds.
pub struct SettingsEnv {
    pub devices: Vec<String>,
    pub rubberband: bool,
    pub timestretch: bool,
    pub stratum: bool,
}

/// One row of the settings list with a fixed list of choices. `key` is the
/// stable identifier that `apply_setting` dispatches on, never displayed.
pub struct SettingRow {
    pub key: &'static str,
    pub label: &'static str,
    pub options: Vec<String>,
    pub current_idx: usize,
    /// The index under a fresh configuration; a row elsewhere is marked.
    pub default_idx: usize,
}

/// A text-input row, for paths.
pub struct TextSettingRow {
    pub key: &'static str,
    pub label: &'static str,
    pub value: String,
    pub default: String,
    /// Shown when `value` is empty.
    pub placeholder: &'static str,
}

/// One item of the settings list: a section header, a row of choices, or a
/// text row.
pub enum SettingItem {
    Section(&'static str),
    Row(SettingRow),
    TextRow(TextSettingRow),
}

/// A row of choices, by its contents.
#[verifier::ext_equal]
pub struct RowV {
    pub key: &'static str,
    pub label: &'static str,
    pub options: Seq<Seq<char>>,
    pub current_idx: int,
    pub default_idx: int,
}

/// A text row, by its contents.
#[verifier::ext_equal]
pub struct TextRowV {
    pub key: &'static str,
    pub label: &'static str,
    pub value: Seq<char>,
    pub default: Seq<char>,
    pub placeholder: &'static str,
}

/// An item, by its contents.
#[verifier::ext_equal]
pub enum ItemV {
    Section(&'static str),
    Row(RowV),
    TextRow(TextRowV),
}

impl View for SettingRow {
    type V = RowV;

    open spec fn view(&self) -> RowV {
        RowV {
            key: self.key,
            label: self.label,
            options: strs(self.options@),
            current_idx: self.current_idx as int,
            default_idx: self.default_idx as int,
        }
    }
}

impl View for TextSettingRow {
    type V = TextRowV;

    open spec fn view(&self) -> TextRowV {
        TextRowV {
            key: self.key,
            label: self.label,
            value: self.value@,
            default: self.default@,
            placeholder: self.placeholder,
        }
    }
}

impl View for SettingItem {
    type V = ItemV;

    open spec fn view(&self) -> ItemV {
        match self {
            SettingItem::Section(name) => ItemV::Section(name),
            SettingItem::Row(r) => ItemV::Row(r@),
            SettingItem::TextRow(r) => ItemV::TextRow(r@),
        }
    }
}

pub open spec fn items_view(items: Seq<SettingItem>) -> Seq<ItemV> {
    Seq::new(items.len(), |i: int| items[i]@)
}

impl TextSettingRow {
    /// The value differs from the one of a fresh configuration.
    pub fn modified(&self) -> (b: bool)
        ensures
            b == (self.value@ != self.default@),
    {
        !str_eq(self.value.as_str(), self.default.as_str())
    }
}

impl SettingRow {
    pub fn new(
        key: &'static str,
        label: &'static str,
        options: Vec<String>,
        current_idx: usize,
        default_idx: usize,
    ) -> (r: SettingRow)
        ensures
            r == (SettingRow { key, label, options, current_idx, default_idx }),
    {
        SettingRow { key, label, options, current_idx, default_idx }
    }

    /// The current choice differs from the one of a fresh configuration.
    pub fn modified(&self) -> (b: bool)
        ensures
            b == (self.current_idx != self.default_idx),
    {
        self.current_idx != self.default_idx
    }
}

/// The key of the row that resets everything.
pub const RESET_ALL_KEY: &'static str = "__reset_all__";

/// A setting with a fixed list of choices.
#[derive(Debug, Clone, Copy, PartialEq, Eq, Structural)]
pub enum Setting {
    AudioQuality,
    PreviewQuality,
    OutputDevice,
    MonitorDevice,
    MasterLimiter,
    PitchStretch,
    BpmMode,
    SplitCue,
    CrossfadeBars,
    GlideBars,
    JumpBars,
    QuantizeOn,
    QuantizeBeats,
    TempoRange,
    NudgePercent,
    MixInPoint,
    SmartMixOut,
    TrainWreck,
    ShuffleOnPlay,
    CompactView,
    ResumeSession,
    AiBeatDetection,
    AiGridValidation,
    AiPhraseDetection,
    AnalyzerEngine,
    TxBeatMatched,
    TxEchoOut,
    TxBassSwap,
    TxFilterSweep,
    TxLoopRoll,
    EditRules,
    DjMode,
    DjCamelot,
    DjBpmGap,
    DjTransitions,
    DjStyle,
    DjQuickMix,
    DjMemory,
    Browser,
    DefaultGenre,
    FavoriteGenres,
    Logout,
    ResetAll,
}

/// A setting that is a text.
#[derive(Debug, Clone, Copy, PartialEq, Eq, Structural)]
pub enum TextSetting {
    LocalLibraryDir,
    RekordboxXml,
    EngineDjDb,
    SeratoDb,
}

/// The setting with the given key.
pub open spec fn setting_of(key: Seq<char>) -> Option<Setting> {
    if key == "audio_quality"@ {
        Some(Setting::AudioQuality)
    } else if key == "preview_quality"@ {
        Some(Setting::PreviewQuality)
    } else if key == "output_device"@ {
        Some(Setting::OutputDevice)
    } else if key == "monitor_device"@ {
        Some(Setting::MonitorDevice)
    } else if key == "master_limiter"@ {
        Some(Setting::MasterLimiter)
    } else if key == "pitch_stretch"@ {
        Some(Setting::PitchStretch)
    } else if key == "bpm_mode"@ {
        Some(Setting::BpmMode)
    } else if key == "split_cue"@ {
        Some(Setting::SplitCue)
    } else if key == "crossfade_bars"@ {
        Some(Setting::CrossfadeBars)
    } else if key == "glide_bars"@ {
        Some(Setting::GlideBars)
    } else if key == "jump_bars"@ {
        Some(Setting::JumpBars)
    } else if key == "quantize_on"@ {
        Some(Setting::QuantizeOn)
    } else if key == "quantize_beats"@ {
        Some(Setting::QuantizeBeats)
    } else if key == "tempo_range"@ {
        Some(Setting::TempoRange)
    } else if key == "nudge_percent"@ {
        Some(Setting::NudgePercent)
    } else if key == "mix_in_point"@ {
        Some(Setting::MixInPoint)
    } else if key == "smart_mix_out"@ {
        Some(Setting::SmartMixOut)
    } else if key == "train_wreck"@ {
        Some(Setting::TrainWreck)
    } else if key == "shuffle_on_play"@ {
        Some(Setting::ShuffleOnPlay)
    } else if key == "compact_view"@ {
        Some(Setting::CompactView)
    } else if key == "resume_session"@ {
        Some(Setting::ResumeSession)
    } else if key == "ai_beat_detection"@ {
        Some(Setting::AiBeatDetection)
    } else if key == "ai_grid_validation"@ {
        Some(Setting::AiGridValidation)
    } else if key == "ai_phrase_detection"@ {
        Some(Setting::AiPhraseDetection)
    } else if key == "analyzer_engine"@ {
        Some(Setting::AnalyzerEngine)
    } else if key == "tx_beatmatched"@ {
        Some(Setting::TxBeatMatched)
    } else if key == "tx_echoout"@ {
        Some(Setting::TxEchoOut)
    } else if key == "tx_bassswap"@ {
        Some(Setting::TxBassSwap)
    } else if key == "tx_filtersweep"@ {
        Some(Setting::TxFilterSweep)
    } else if key == "tx_looproll"@ {
        Some(Setting::TxLoopRoll)
    } else if key == "edit_rules"@ {
        Some(Setting::EditRules)
    } else if key == "dj_mode"@ {
        Some(Setting::DjMode)
    } else if key == "dj_camelot"@ {
        Some(Setting::DjCamelot)
    } else if key == "dj_bpm_gap"@ {
        Some(Setting::DjBpmGap)
    } else if key == "dj_transitions"@ {
        Some(Setting::DjTransitions)
    } else if key == "dj_style"@ {
        Some(Setting::DjStyle)
    } else if key == "dj_quick_mix"@ {
        Some(Setting::DjQuickMix)
    } else if key == "dj_memory"@ {
        Some(Setting::DjMemory)
    } else if key == "browser"@ {
        Some(Setting::Browser)
    } else if key == "default_genre"@ {
        Some(Setting::DefaultGenre)
    } else if key == "favorite_genres"@ {
        Some(Setting::FavoriteGenres)
    } else if key == "logout"@ {
        Some(Setting::Logout)
    } else if key == "__reset_all__"@ {
        Some(Setting::ResetAll)
    } else {
        None
    }
}

/// The text setting with the given key.
pub open spec fn text_setting_of(key: Seq<char>) -> Option<TextSetting> {
    if key == "local_library_dir"@ {
        Some(TextSetting::LocalLibraryDir)
    } else if key == "rekordbox_xml"@ {
        Some(TextSetting::RekordboxXml)
    } else if key == "engine_dj_db"@ {
        Some(TextSetting::EngineDjDb)
    } else if key == "serato_db"@ {
        Some(TextSetting::SeratoDb)
    } else {
        None
    }
}

fn find_setting(key: &str) -> (r: Option<Setting>)
    ensures
        r == setting_of(key@),
{
    if str_eq(key, "audio_quality") {
        Some(Setting::AudioQuality)
    } else if str_eq(key, "preview_quality") {
        Some(Setting::PreviewQuality)
    } else if str_eq(key, "output_device") {
        Some(Setting::OutputDevice)
    } else if str_eq(key, "monitor_device") {
        Some(Setting::MonitorDevice)
    } else if str_eq(key, "master_limiter") {
        Some(Setting::MasterLimiter)
    } else if str_eq(key, "pitch_stretch") {
        Some(Setting::PitchStretch)
    } else if str_eq(key, "bpm_mode") {
        Some(Setting::BpmMode)
    } else if str_eq(key, "split_cue") {
        Some(Setting::SplitCue)
    } else if str_eq(key, "crossfade_bars") {
        Some(Setting::CrossfadeBars)
    } else if str_eq(key, "glide_bars") {
        Some(Setting::GlideBars)
    } else if str_eq(key, "jump_bars") {
        Some(Setting::JumpBars)
    } else if str_eq(key, "quantize_on") {
        Some(Setting::QuantizeOn)
    } else if str_eq(key, "quantize_beats") {
        Some(Setting::QuantizeBeats)
    } else if str_eq(key, "tempo_range") {
        Some(Setting::TempoRange)
    } else if str_eq(key, "nudge_percent") {
        Some(Setting::NudgePercent)
    } else if str_eq(key, "mix_in_point") {
        Some(Setting::MixInPoint)
    } else if str_eq(key, "smart_mix_out") {
        Some(Setting::SmartMixOut)
    } else if str_eq(key, "train_wreck") {
        Some(Setting::TrainWreck)
    } else if str_eq(key, "shuffle_on_play") {
        Some(Setting::ShuffleOnPlay)
    } else if str_eq(key, "compact_view") {
        Some(Setting::CompactView)
    } else if str_eq(key, "resume_session") {
        Some(Setting::ResumeSession)
    } else if str_eq(key, "ai_beat_detection") {
        Some(Setting::AiBeatDetection)
    } else if str_eq(key, "ai_grid_validation") {
        Some(Setting::AiGridValidation)
    } else if str_eq(key, "ai_phrase_detection") {
        Some(Setting::AiPhraseDetection)
    } else if str_eq(key, "analyzer_engine") {
        Some(Setting::AnalyzerEngine)
    } else if str_eq(key, "tx_beatmatched") {
        Some(Setting::TxBeatMatched)
    } else if str_eq(key, "tx_echoout") {
        Some(Setting::TxEchoOut)
    } else if str_eq(key, "tx_bassswap") {
        Some(Setting::TxBassSwap)
    } else if str_eq(key, "tx_filtersweep") {
        Some(Setting::TxFilterSweep)
    } else if str_eq(key, "tx_looproll") {
        Some(Setting::TxLoopRoll)
    } else if str_eq(key, "edit_rules") {
        Some(Setting::EditRules)
    } else if str_eq(key, "dj_mode") {
        Some(Setting::DjMode)
    } else if str_eq(key, "dj_camelot") {
        Some(Setting::DjCamelot)
    } else if str_eq(key, "dj_bpm_gap") {
        Some(Setting::DjBpmGap)
    } else if str_eq(key, "dj_transitions") {
        Some(Setting::DjTransitions)
    } else if str_eq(key, "dj_style") {
        Some(Setting::DjStyle)
    } else if str_eq(key, "dj_quick_mix") {
        Some(Setting::DjQuickMix)
    } else if str_eq(key, "dj_memory") {
        Some(Setting::DjMemory)
    } else if str_eq(key, "browser") {
        Some(Setting::Browser)
    } else if str_eq(key, "default_genre") {
        Some(Setting::DefaultGenre)
    } else if str_eq(key, "favorite_genres") {
        Some(Setting::FavoriteGenres)
    } else if str_eq(key, "logout") {
        Some(Setting::Logout)
    } else if str_eq(key, "__reset_all__") {
        Some(Setting::ResetAll)
    } else {
        None
    }
}

fn find_text_setting(key: &str) -> (r: Option<TextSetting>)
    ensures
        r == text_setting_of(key@),
{
    if str_eq(key, "local_library_dir") {
        Some(TextSetting::LocalLibraryDir)
    } else if str_eq(key, "rekordbox_xml") {
        Some(TextSetting::RekordboxXml)
    } else if str_eq(key, "engine_dj_db") {
        Some(TextSetting::EngineDjDb)
    } else if str_eq(key, "serato_db") {
        Some(TextSetting::SeratoDb)
    } else {
        None
    }
}

pub open spec fn audio_quality_index(q: AudioQuality) -> int {
    if q == AudioQuality::Standard { 1 } else { 0 }
}

pub fn audio_quality_idx(q: &AudioQuality) -> (i: usize)
    ensures
        i == audio_quality_index(*q),
{
    match q {
        AudioQuality::Standard => 1,
        _ => 0,
    }
}

pub open spec fn preview_quality_index(q: AudioQuality) -> int {
    if q == AudioQuality::Standard { 0 } else { 1 }
}

pub fn preview_quality_idx(q: &AudioQuality) -> (i: usize)
    ensures
        i == preview_quality_index(*q),
{
    match q {
        AudioQuality::Standard => 0,
        _ => 1,
    }
}

pub open spec fn pitch_stretch_index(x: PitchStretchEngine) -> int {
    match x {
        PitchStretchEngine::Off => 0,
        PitchStretchEngine::Rubberband => 1,
        PitchStretchEngine::Timestretch => 2,
    }
}

pub fn pitch_stretch_idx(x: &PitchStretchEngine) -> (i: usize)
    ensures
        i == pitch_stretch_index(*x),
{
    match x {
        PitchStretchEngine::Off => 0,
        PitchStretchEngine::Rubberband => 1,
        PitchStretchEngine::Timestretch => 2,
    }
}

/// 16 bars unless another listed number is set.
pub open spec fn crossfade_bars_index(bars: u32, auto: bool) -> int {
    if auto { 4 } else if bars == 8 { 0 } else if bars == 32 { 2 } else if bars == 64 { 3 } else { 1 }
}

pub fn crossfade_bars_idx(bars: u32, auto: bool) -> (i: usize)
    ensures
        i == crossfade_bars_index(bars, auto),
{
    if auto { 4 } else if bars == 8 { 0 } else if bars == 32 { 2 } else if bars == 64 { 3 } else { 1 }
}

pub open spec fn glide_bars_index(n: u32) -> int {
    if n == 8 { 0 } else if n == 32 { 2 } else if n == 64 { 3 } else if n == 0 { 4 } else { 1 }
}

pub fn glide_bars_idx(n: u32) -> (i: usize)
    ensures
        i == glide_bars_index(n),
{
    if n == 8 { 0 } else if n == 32 { 2 } else if n == 64 { 3 } else if n == 0 { 4 } else { 1 }
}

pub open spec fn jump_bars_index(n: u32) -> int {
    if n == 4 { 0 } else if n == 16 { 2 } else if n == 32 { 3 } else { 1 }
}

pub fn jump_bars_idx(n: u32) -> (i: usize)
    ensures
        i == jump_bars_index(n),
{
    if n == 4 { 0 } else if n == 16 { 2 } else if n == 32 { 3 } else { 1 }
}

pub open spec fn tempo_range_index(n: u32) -> int {
    if n == 4 { 0 } else if n == 6 { 1 } else if n == 10 { 3 } else if n == 16 { 4 } else { 2 }
}

pub fn tempo_range_idx(n: u32) -> (i: usize)
    ensures
        i == tempo_range_index(n),
{
    if n == 4 { 0 } else if n == 6 { 1 } else if n == 10 { 3 } else if n == 16 { 4 } else { 2 }
}

pub open spec fn nudge_percent_index(n: u32) -> int {
    if n == 1 { 0 } else if n == 2 { 1 } else if n == 4 { 3 } else if n == 5 { 4 } else { 2 }
}

pub fn nudge_percent_idx(n: u32) -> (i: usize)
    ensures
        i == nudge_percent_index(n),
{
    if n == 1 { 0 } else if n == 2 { 1 } else if n == 4 { 3 } else if n == 5 { 4 } else { 2 }
}

/// The nearest listed step: 1/8, 1/4, 1/2, 1, 2, 4 or 8 beats.
pub open spec fn quantize_beats_index(q: u64) -> int {
    if q < 187_500 { 0 } else if q < 375_000 { 1 } else if q < 750_000 { 2 } else if q < 1_500_000 { 3 } else if q < 3_000_000 { 4 } else if q < 6_000_000 { 5 } else { 6 }
}

pub fn quantize_beats_idx(q: u64) -> (i: usize)
    ensures
        i == quantize_beats_index(q),
{
    if q < 187_500 { 0 } else if q < 375_000 { 1 } else if q < 750_000 { 2 } else if q < 1_500_000 { 3 } else if q < 3_000_000 { 4 } else if q < 6_000_000 { 5 } else { 6 }
}

pub open spec fn mix_in_point_index(x: MixInPoint) -> int {
    match x {
        MixInPoint::FirstBeat | MixInPoint::FirstAudio => 0,
        MixInPoint::Drop => 1,
        MixInPoint::Middle => 2,
    }
}

pub fn mix_in_point_idx(x: &MixInPoint) -> (i: usize)
    ensures
        i == mix_in_point_index(*x),
{
    match x {
        MixInPoint::FirstBeat | MixInPoint::FirstAudio => 0,
        MixInPoint::Drop => 1,
        MixInPoint::Middle => 2,
    }
}

pub open spec fn strictness_index(x: Strictness) -> int {
    match x {
        Strictness::Strict => 0,
        Strictness::Prefer => 1,
        Strictness::Off => 2,
    }
}

pub fn strictness_idx(x: &Strictness) -> (i: usize)
    ensures
        i == strictness_index(*x),
{
    match x {
        Strictness::Strict => 0,
        Strictness::Prefer => 1,
        Strictness::Off => 2,
    }
}

pub open spec fn browser_index(name: Seq<char>) -> int {
    if name == "Safari"@ { 1 } else if name == "Firefox"@ { 2 } else if name == "Arc"@ { 3 } else { 0 }
}

pub fn browser_idx(name: &str) -> (i: usize)
    ensures
        i == browser_index(name@),
{
    if str_eq(name, "Safari") { 1 } else if str_eq(name, "Firefox") { 2 } else if str_eq(name, "Arc") { 3 } else { 0 }
}

/// `i` is where `name` stands first among the devices.
pub open spec fn is_first_device(devices: Seq<Seq<char>>, name: Seq<char>, i: int) -> bool {
    0 <= i < devices.len() && devices[i] == name && forall|j: int|
        0 <= j < i ==> #[trigger] devices[j] != name
}

/// One past the first device of that name; zero for no name or an unknown one.
pub open spec fn device_index(devices: Seq<Seq<char>>, name: Seq<char>) -> int {
    if name.len() == 0 {
        0
    } else if exists|i: int| is_first_device(devices, name, i) {
        (choose|i: int| is_first_device(devices, name, i)) + 1
    } else {
        0
    }
}

/// The device an option stands for: none for the first option.
pub open spec fn chosen_device(devices: Seq<Seq<char>>, idx: usize) -> Seq<char> {
    if 0 < idx <= devices.len() {
        devices[idx - 1]
    } else {
        Seq::empty()
    }
}

proof fn lemma_device_index(devices: Seq<Seq<char>>, name: Seq<char>, i: int)
    requires
        is_first_device(devices, name, i),
        name.len() > 0,
    ensures
        device_index(devices, name) == i + 1,
{
    let k = choose|k: int| is_first_device(devices, name, k);
    assert(is_first_device(devices, name, k));
    if k < i {
        assert(devices[k] != name);
    } else if i < k {
        assert(devices[i] != name);
    }
}

pub fn output_device_idx(name: &str, devices: &Vec<String>) -> (i: usize)
    ensures
        i == device_index(strs(devices@), name@),
{
    if name.is_empty() {
        return 0;
    }
    let mut i: usize = 0;
    while i < devices.len()
        invariant
            i <= devices.len(),
            name@.len() > 0,
            forall|j: int| 0 <= j < i ==> #[trigger] strs(devices@)[j] != name@,
        decreases devices.len() - i,
    {
        if str_eq(devices[i].as_str(), name) {
            proof {
                assert(strs(devices@)[i as int] == name@);
                lemma_device_index(strs(devices@), name@, i as int);
            }
            return i + 1;
        }
        assert(strs(devices@)[i as int] != name@);
        i += 1;
    }
    assert forall|k: int| !is_first_device(strs(devices@), name@, k) by {
        if 0 <= k < devices.len() {
            assert(strs(devices@)[k] != name@);
        }
    }
    0
}

pub fn monitor_device_idx(name: &str, devices: &Vec<String>) -> (i: usize)
    ensures
        i == device_index(strs(devices@), name@),
{
    output_device_idx(name, devices)
}

fn device_at(devices: &Vec<String>, idx: usize) -> (name: String)
    ensures
        name@ == chosen_device(strs(devices@), idx),
{
    if idx == 0 || idx > devices.len() {
        String::new()
    } else {
        devices[idx - 1].clone()
    }
}

/// The transition of that name is enabled.
pub open spec fn enables(c: AppConfig, name: Seq<char>) -> bool {
    strs(c.enabled_transitions@).contains(name)
}

fn transition_enabled(c: &AppConfig, name: &str) -> (b: bool)
    ensures
        b == enables(*c, name@),
{
    let mut i: usize = 0;
    while i < c.enabled_transitions.len()
        invariant
            i <= c.enabled_transitions.len(),
            forall|j: int|
                0 <= j < i ==> #[trigger] strs(c.enabled_transitions@)[j] != name@,
        decreases c.enabled_transitions.len() - i,
    {
        if str_eq(c.enabled_transitions[i].as_str(), name) {
            assert(strs(c.enabled_transitions@)[i as int] == name@);
            return true;
        }
        assert(strs(c.enabled_transitions@)[i as int] != name@);
        i += 1;
    }
    false
}

/// The list without any entry `name`.
pub open spec fn without(list: Seq<Seq<char>>, name: Seq<char>) -> Seq<Seq<char>>
    decreases list.len(),
{
    if list.len() == 0 {
        list
    } else if list.last() == name {
        without(list.drop_last(), name)
    } else {
        without(list.drop_last(), name).push(list.last())
    }
}

/// Membership in a list without `name`.
pub proof fn lemma_without(list: Seq<Seq<char>>, name: Seq<char>, x: Seq<char>)
    ensures
        without(list, name).contains(x) <==> list.contains(x) && x != name,
    decreases list.len(),
{
    if list.len() > 0 {
        let rest = list.drop_last();
        lemma_without(rest, name, x);
        let w = without(list, name);
        if list.contains(x) {
            let i = choose|i: int| 0 <= i < list.len() && list[i] == x;
            if i < rest.len() {
                assert(rest[i] == x);
            }
        }
        if rest.contains(x) {
            let i = choose|i: int| 0 <= i < rest.len() && rest[i] == x;
            assert(list[i] == x);
        }
        if list.last() != name {
            let wr = without(rest, name);
            if wr.contains(x) {
                let i = choose|i: int| 0 <= i < wr.len() && wr[i] == x;
                assert(w[i] == x);
            }
            if x == list.last() {
                assert(list[list.len() - 1] == x);
                assert(w[w.len() - 1] == x);
            }
            if w.contains(x) {
                let i = choose|i: int| 0 <= i < w.len() && w[i] == x;
                if i < wr.len() {
                    assert(wr[i] == x);
                }
            }
        }
    }
}

/// What switching a transition on or off does: the name is added at the end
/// where it was missing, or every entry of that name goes; nothing else
/// changes.
pub open spec fn transition_toggled(
    old_c: AppConfig,
    new_c: AppConfig,
    name: Seq<char>,
    on: bool,
) -> bool {
    &&& strs(new_c.enabled_transitions@) == (if on {
        if enables(old_c, name) {
            strs(old_c.enabled_transitions@)
        } else {
            strs(old_c.enabled_transitions@).push(name)
        }
    } else {
        without(strs(old_c.enabled_transitions@), name)
    })
    &&& new_c == (AppConfig { enabled_transitions: new_c.enabled_transitions, ..old_c })
}

proof fn lemma_without_absent(list: Seq<Seq<char>>, name: Seq<char>)
    requires
        !list.contains(name),
    ensures
        without(list, name) == list,
    decreases list.len(),
{
    if list.len() > 0 {
        let rest = list.drop_last();
        assert forall|i: int| 0 <= i < rest.len() implies rest[i] != name by {
            assert(list[i] == rest[i]);
        }
        lemma_without_absent(rest, name);
        assert(list[list.len() - 1] != name);
        assert(rest.push(list.last()) == list);
    }
}

pub fn toggle_transition(config: &mut AppConfig, name: &str, on: bool)
    ensures
        transition_toggled(*old(config), *final(config), name@, on),
{
    let present: bool = transition_enabled(config, name);
    if on {
        if !present {
            let ghost before = strs(config.enabled_transitions@);
            config.enabled_transitions.push(name.to_owned());
            assert(strs(config.enabled_transitions@) == before.push(name@));
        }
    } else if present {
        let mut kept: Vec<String> = Vec::new();
        let ghost all = strs(config.enabled_transitions@);
        let mut i: usize = 0;
        assert(all.take(0) == Seq::<Seq<char>>::empty());
        while i < config.enabled_transitions.len()
            invariant
                i <= config.enabled_transitions.len(),
                *config == *old(config),
                all == strs(config.enabled_transitions@),
                strs(kept@) == without(all.take(i as int), name@),
            decreases config.enabled_transitions.len() - i,
        {
            let ghost before = strs(kept@);
            assert(all.take(i + 1).drop_last() == all.take(i as int));
            assert(all.take(i + 1).last() == config.enabled_transitions@[i as int]@);
            if !str_eq(config.enabled_transitions[i].as_str(), name) {
                kept.push(config.enabled_transitions[i].clone());
                assert(strs(kept@) == before.push(config.enabled_transitions@[i as int]@));
            }
            i += 1;
        }
        assert(all.take(i as int) == all);
        config.enabled_transitions = kept;
    } else {
        proof {
            lemma_without_absent(strs(config.enabled_transitions@), name@);
        }
    }
}

impl Setting {
    pub open spec fn spec_key(self) -> &'static str {
        match self {
            Setting::AudioQuality => "audio_quality",
            Setting::PreviewQuality => "preview_quality",
            Setting::OutputDevice => "output_device",
            Setting::MonitorDevice => "monitor_device",
            Setting::MasterLimiter => "master_limiter",
            Setting::PitchStretch => "pitch_stretch",
            Setting::BpmMode => "bpm_mode",
            Setting::SplitCue => "split_cue",
            Setting::CrossfadeBars => "crossfade_bars",
            Setting::GlideBars => "glide_bars",
            Setting::JumpBars => "jump_bars",
            Setting::QuantizeOn => "quantize_on",
            Setting::QuantizeBeats => "quantize_beats",
            Setting::TempoRange => "tempo_range",
            Setting::NudgePercent => "nudge_percent",
            Setting::MixInPoint => "mix_in_point",
            Setting::SmartMixOut => "smart_mix_out",
            Setting::TrainWreck => "train_wreck",
            Setting::ShuffleOnPlay => "shuffle_on_play",
            Setting::CompactView => "compact_view",
            Setting::ResumeSession => "resume_session",
            Setting::AiBeatDetection => "ai_beat_detection",
            Setting::AiGridValidation => "ai_grid_validation",
            Setting::AiPhraseDetection => "ai_phrase_detection",
            Setting::AnalyzerEngine => "analyzer_engine",
            Setting::TxBeatMatched => "tx_beatmatched",
            Setting::TxEchoOut => "tx_echoout",
            Setting::TxBassSwap => "tx_bassswap",
            Setting::TxFilterSweep => "tx_filtersweep",
            Setting::TxLoopRoll => "tx_looproll",
            Setting::EditRules => "edit_rules",
            Setting::DjMode => "dj_mode",
            Setting::DjCamelot => "dj_camelot",
            Setting::DjBpmGap => "dj_bpm_gap",
            Setting::DjTransitions => "dj_transitions",
            Setting::DjStyle => "dj_style",
            Setting::DjQuickMix => "dj_quick_mix",
            Setting::DjMemory => "dj_memory",
            Setting::Browser => "browser",
            Setting::DefaultGenre => "default_genre",
            Setting::FavoriteGenres => "favorite_genres",
            Setting::Logout => "logout",
            Setting::ResetAll => "__reset_all__",
        }
    }

    pub fn key(self) -> (k: &'static str)
        ensures
            k == self.spec_key(),
    {
        match self {
            Setting::AudioQuality => "audio_quality",
            Setting::PreviewQuality => "preview_quality",
            Setting::OutputDevice => "output_device",
            Setting::MonitorDevice => "monitor_device",
            Setting::MasterLimiter => "master_limiter",
            Setting::PitchStretch => "pitch_stretch",
            Setting::BpmMode => "bpm_mode",
            Setting::SplitCue => "split_cue",
            Setting::CrossfadeBars => "crossfade_bars",
            Setting::GlideBars => "glide_bars",
            Setting::JumpBars => "jump_bars",
            Setting::QuantizeOn => "quantize_on",
            Setting::QuantizeBeats => "quantize_beats",
            Setting::TempoRange => "tempo_range",
            Setting::NudgePercent => "nudge_percent",
            Setting::MixInPoint => "mix_in_point",
            Setting::SmartMixOut => "smart_mix_out",
            Setting::TrainWreck => "train_wreck",
            Setting::ShuffleOnPlay => "shuffle_on_play",
            Setting::CompactView => "compact_view",
            Setting::ResumeSession => "resume_session",
            Setting::AiBeatDetection => "ai_beat_detection",
            Setting::AiGridValidation => "ai_grid_validation",
            Setting::AiPhraseDetection => "ai_phrase_detection",
            Setting::AnalyzerEngine => "analyzer_engine",
            Setting::TxBeatMatched => "tx_beatmatched",
            Setting::TxEchoOut => "tx_echoout",
            Setting::TxBassSwap => "tx_bassswap",
            Setting::TxFilterSweep => "tx_filtersweep",
            Setting::TxLoopRoll => "tx_looproll",
            Setting::EditRules => "edit_rules",
            Setting::DjMode => "dj_mode",
            Setting::DjCamelot => "dj_camelot",
            Setting::DjBpmGap => "dj_bpm_gap",
            Setting::DjTransitions => "dj_transitions",
            Setting::DjStyle => "dj_style",
            Setting::DjQuickMix => "dj_quick_mix",
            Setting::DjMemory => "dj_memory",
            Setting::Browser => "browser",
            Setting::DefaultGenre => "default_genre",
            Setting::FavoriteGenres => "favorite_genres",
            Setting::Logout => "logout",
            Setting::ResetAll => "__reset_all__",
        }
    }

    pub open spec fn spec_label(self) -> &'static str {
        match self {
            Setting::AudioQuality => "Audio Quality",
            Setting::PreviewQuality => "Preview Quality",
            Setting::OutputDevice => "Output Device",
            Setting::MonitorDevice => "Monitor Device",
            Setting::MasterLimiter => "Master Limiter",
            Setting::PitchStretch => "Pitch Stretch",
            Setting::BpmMode => "BPM Mode",
            Setting::SplitCue => "Split Cue",
            Setting::CrossfadeBars => "Crossfade Bars",
            Setting::GlideBars => "Glide Bars",
            Setting::JumpBars => "Jump Bars",
            Setting::QuantizeOn => "Quantize",
            Setting::QuantizeBeats => "Quantize Beats",
            Setting::TempoRange => "Tempo Range",
            Setting::NudgePercent => "Nudge %",
            Setting::MixInPoint => "Mix In Point",
            Setting::SmartMixOut => "Smart Mix Out",
            Setting::TrainWreck => "Train Wreck",
            Setting::ShuffleOnPlay => "Shuffle on Play",
            Setting::CompactView => "View Mode",
            Setting::ResumeSession => "Resume Session",
            Setting::AiBeatDetection => "AI Beat Detection",
            Setting::AiGridValidation => "AI Grid Validation",
            Setting::AiPhraseDetection => "AI Phrase Detection",
            Setting::AnalyzerEngine => "Analyzer Engine",
            Setting::TxBeatMatched => "Transition: BeatMatched",
            Setting::TxEchoOut => "Transition: EchoOut",
            Setting::TxBassSwap => "Transition: BassSwap",
            Setting::TxFilterSweep => "Transition: FilterSweep",
            Setting::TxLoopRoll => "Transition: LoopRoll",
            Setting::EditRules => "Edit Transition Rules",
            Setting::DjMode => "DJ Mode",
            Setting::DjCamelot => "DJ Camelot",
            Setting::DjBpmGap => "DJ BPM Gap",
            Setting::DjTransitions => "DJ Transitions",
            Setting::DjStyle => "DJ Style",
            Setting::DjQuickMix => "DJ Quick Mix",
            Setting::DjMemory => "DJ Memory",
            Setting::Browser => "Browser",
            Setting::DefaultGenre => "Default Genre",
            Setting::FavoriteGenres => "Favorite Genres",
            Setting::Logout => "Logout",
            Setting::ResetAll => "Reset all to defaults",
        }
    }

    pub fn label(self) -> (l: &'static str)
        ensures
            l == self.spec_label(),
    {
        match self {
            Setting::AudioQuality => "Audio Quality",
            Setting::PreviewQuality => "Preview Quality",
            Setting::OutputDevice => "Output Device",
            Setting::MonitorDevice => "Monitor Device",
            Setting::MasterLimiter => "Master Limiter",
            Setting::PitchStretch => "Pitch Stretch",
            Setting::BpmMode => "BPM Mode",
            Setting::SplitCue => "Split Cue",
            Setting::CrossfadeBars => "Crossfade Bars",
            Setting::GlideBars => "Glide Bars",
            Setting::JumpBars => "Jump Bars",
            Setting::QuantizeOn => "Quantize",
            Setting::QuantizeBeats => "Quantize Beats",
            Setting::TempoRange => "Tempo Range",
            Setting::NudgePercent => "Nudge %",
            Setting::MixInPoint => "Mix In Point",
            Setting::SmartMixOut => "Smart Mix Out",
            Setting::TrainWreck => "Train Wreck",
            Setting::ShuffleOnPlay => "Shuffle on Play",
            Setting::CompactView => "View Mode",
            Setting::ResumeSession => "Resume Session",
            Setting::AiBeatDetection => "AI Beat Detection",
            Setting::AiGridValidation => "AI Grid Validation",
            Setting::AiPhraseDetection => "AI Phrase Detection",
            Setting::AnalyzerEngine => "Analyzer Engine",
            Setting::TxBeatMatched => "Transition: BeatMatched",
            Setting::TxEchoOut => "Transition: EchoOut",
            Setting::TxBassSwap => "Transition: BassSwap",
            Setting::TxFilterSweep => "Transition: FilterSweep",
            Setting::TxLoopRoll => "Transition: LoopRoll",
            Setting::EditRules => "Edit Transition Rules",
            Setting::DjMode => "DJ Mode",
            Setting::DjCamelot => "DJ Camelot",
            Setting::DjBpmGap => "DJ BPM Gap",
            Setting::DjTransitions => "DJ Transitions",
            Setting::DjStyle => "DJ Style",
            Setting::DjQuickMix => "DJ Quick Mix",
            Setting::DjMemory => "DJ Memory",
            Setting::Browser => "Browser",
            Setting::DefaultGenre => "Default Genre",
            Setting::FavoriteGenres => "Favorite Genres",
            Setting::Logout => "Logout",
            Setting::ResetAll => "Reset all to defaults",
        }
    }

    /// The choices of the row.
    pub open spec fn options(self, c: AppConfig, env: SettingsEnv) -> Seq<Seq<char>> {
        match self {
            Setting::AudioQuality => seq!["256k"@, "128k"@],
            Setting::PreviewQuality => seq!["128k"@, "256k"@],
            Setting::OutputDevice => seq!["System Default"@] + strs(env.devices@),
            Setting::MonitorDevice => seq!["Off"@] + strs(env.devices@),
            Setting::MasterLimiter => seq!["Off"@, "Soft Knee"@],
            Setting::PitchStretch => seq![
                "Off"@,
                if env.rubberband { "Rubberband"@ } else { "Rubberband (build --features rubberband)"@ },
                if env.timestretch { "Timestretch"@ } else { "Timestretch (build --features timestretch)"@ },
            ],
            Setting::BpmMode => seq!["Glide"@, "Lock"@],
            Setting::SplitCue => seq!["Off"@, "On"@],
            Setting::CrossfadeBars => seq!["8"@, "16"@, "32"@, "64"@, "Auto"@],
            Setting::GlideBars => seq!["8"@, "16"@, "32"@, "64"@, "Max"@],
            Setting::JumpBars => seq!["4"@, "8"@, "16"@, "32"@],
            Setting::QuantizeOn => seq!["Off"@, "On"@],
            Setting::QuantizeBeats => seq!["1/8"@, "1/4"@, "1/2"@, "1"@, "2"@, "4"@, "8"@],
            Setting::TempoRange => seq!["±4%"@, "±6%"@, "±8%"@, "±10%"@, "±16%"@],
            Setting::NudgePercent => seq!["1%"@, "2%"@, "3%"@, "4%"@, "5%"@],
            Setting::MixInPoint => seq!["First Beat"@, "Drop"@, "Middle"@],
            Setting::SmartMixOut => seq!["Off"@, "On"@],
            Setting::TrainWreck => seq!["Off"@, "Detect"@, "Auto Bail"@],
            Setting::ShuffleOnPlay => seq!["Off"@, "On"@],
            Setting::CompactView => seq!["Compact"@, "Full"@],
            Setting::ResumeSession => seq!["Never"@, "Ask"@, "Always"@],
            Setting::AiBeatDetection => seq!["Off"@, "On"@],
            Setting::AiGridValidation => seq!["Off"@, "On"@],
            Setting::AiPhraseDetection => seq!["Off"@, "On"@],
            Setting::AnalyzerEngine => seq![
                "Built-in"@,
                if env.stratum { "Stratum"@ } else { "Stratum (build --features stratum)"@ },
            ],
            Setting::TxBeatMatched => seq!["Off"@, "On"@],
            Setting::TxEchoOut => seq!["Off"@, "On"@],
            Setting::TxBassSwap => seq!["Off"@, "On"@],
            Setting::TxFilterSweep => seq!["Off"@, "On"@],
            Setting::TxLoopRoll => seq!["Off"@, "On"@],
            Setting::EditRules => seq!["Open"@],
            Setting::DjMode => seq!["Auto"@, "Assist"@, "Manual"@],
            Setting::DjCamelot => seq!["Strict"@, "Prefer"@, "Off"@],
            Setting::DjBpmGap => seq!["Strict"@, "Prefer"@, "Off"@],
            Setting::DjTransitions => seq!["Engine"@, "AI"@],
            Setting::DjStyle => seq!["Underground"@, "Mainstream"@, "Exploratory"@],
            Setting::DjQuickMix => seq!["Off"@, "On"@],
            Setting::DjMemory => seq!["Off"@, "On"@],
            Setting::Browser => seq!["Google Chrome"@, "Safari"@, "Firefox"@, "Arc"@],
            Setting::DefaultGenre => seq![c.default_genre@],
            Setting::FavoriteGenres => seq![decimal(c.favorite_genres@.len()) + " selected"@],
            Setting::Logout => Seq::empty(),
            Setting::ResetAll => Seq::empty(),
        }
    }

    fn choices(self, c: &AppConfig, env: &SettingsEnv) -> (v: Vec<String>)
        ensures
            strs(v@) == self.options(*c, *env),
    {
        let mut v: Vec<String> = Vec::new();
        match self {
            Setting::AudioQuality => {
                v.push("256k".to_owned());
                v.push("128k".to_owned());
            },
            Setting::PreviewQuality => {
                v.push("128k".to_owned());
                v.push("256k".to_owned());
            },
            Setting::OutputDevice => {
                v.push("System Default".to_owned());
                add_all(&mut v, &env.devices);
                assert(strs(v@) == seq!["System Default"@] + strs(env.devices@));
            },
            Setting::MonitorDevice => {
                v.push("Off".to_owned());
                add_all(&mut v, &env.devices);
                assert(strs(v@) == seq!["Off"@] + strs(env.devices@));
            },
            Setting::MasterLimiter => {
                v.push("Off".to_owned());
                v.push("Soft Knee".to_owned());
            },
            Setting::PitchStretch => {
                v.push("Off".to_owned());
                v.push(
                    if env.rubberband {
                        "Rubberband".to_owned()
                    } else {
                        "Rubberband (build --features rubberband)".to_owned()
                    },
                );
                v.push(
                    if env.timestretch {
                        "Timestretch".to_owned()
                    } else {
                        "Timestretch (build --features timestretch)".to_owned()
                    },
                );
            },
            Setting::BpmMode => {
                v.push("Glide".to_owned());
                v.push("Lock".to_owned());
            },
            Setting::SplitCue | Setting::QuantizeOn | Setting::SmartMixOut | Setting::ShuffleOnPlay | Setting::AiBeatDetection | Setting::AiGridValidation | Setting::AiPhraseDetection | Setting::TxBeatMatched | Setting::TxEchoOut | Setting::TxBassSwap | Setting::TxFilterSweep | Setting::TxLoopRoll | Setting::DjQuickMix | Setting::DjMemory => {
                v.push("Off".to_owned());
                v.push("On".to_owned());
            },
            Setting::CrossfadeBars => {
                v.push("8".to_owned());
                v.push("16".to_owned());
                v.push("32".to_owned());
                v.push("64".to_owned());
                v.push("Auto".to_owned());
            },
            Setting::GlideBars => {
                v.push("8".to_owned());
                v.push("16".to_owned());
                v.push("32".to_owned());
                v.push("64".to_owned());
                v.push("Max".to_owned());
            },
            Setting::JumpBars => {
                v.push("4".to_owned());
                v.push("8".to_owned());
                v.push("16".to_owned());
                v.push("32".to_owned());
            },
            Setting::QuantizeBeats => {
                v.push("1/8".to_owned());
                v.push("1/4".to_owned());
                v.push("1/2".to_owned());
                v.push("1".to_owned());
                v.push("2".to_owned());
                v.push("4".to_owned());
                v.push("8".to_owned());
            },
            Setting::TempoRange => {
                v.push("±4%".to_owned());
                v.push("±6%".to_owned());
                v.push("±8%".to_owned());
                v.push("±10%".to_owned());
                v.push("±16%".to_owned());
            },
            Setting::NudgePercent => {
                v.push("1%".to_owned());
                v.push("2%".to_owned());
                v.push("3%".to_owned());
                v.push("4%".to_owned());
                v.push("5%".to_owned());
            },
            Setting::MixInPoint => {
                v.push("First Beat".to_owned());
                v.push("Drop".to_owned());
                v.push("Middle".to_owned());
            },
            Setting::TrainWreck => {
                v.push("Off".to_owned());
                v.push("Detect".to_owned());
                v.push("Auto Bail".to_owned());
            },
            Setting::CompactView => {
                v.push("Compact".to_owned());
                v.push("Full".to_owned());
            },
            Setting::ResumeSession => {
                v.push("Never".to_owned());
                v.push("Ask".to_owned());
                v.push("Always".to_owned());
            },
            Setting::AnalyzerEngine => {
                v.push("Built-in".to_owned());
                v.push(
                    if env.stratum {
                        "Stratum".to_owned()
                    } else {
                        "Stratum (build --features stratum)".to_owned()
                    },
                );
            },
            Setting::EditRules => {
                v.push("Open".to_owned());
            },
            Setting::DjMode => {
                v.push("Auto".to_owned());
                v.push("Assist".to_owned());
                v.push("Manual".to_owned());
            },
            Setting::DjCamelot | Setting::DjBpmGap => {
                v.push("Strict".to_owned());
                v.push("Prefer".to_owned());
                v.push("Off".to_owned());
            },
            Setting::DjTransitions => {
                v.push("Engine".to_owned());
                v.push("AI".to_owned());
            },
            Setting::DjStyle => {
                v.push("Underground".to_owned());
                v.push("Mainstream".to_owned());
                v.push("Exploratory".to_owned());
            },
            Setting::Browser => {
                v.push("Google Chrome".to_owned());
                v.push("Safari".to_owned());
                v.push("Firefox".to_owned());
                v.push("Arc".to_owned());
            },
            Setting::DefaultGenre => {
                v.push(c.default_genre.clone());
            },
            Setting::FavoriteGenres => {
                let n: String = decimal_str(c.favorite_genres.len() as u64);
                v.push(concat2(n.as_str(), " selected"));
            },
            Setting::Logout | Setting::ResetAll => {
            },
        }
        assert(strs(v@) == self.options(*c, *env));
        v
    }

    /// The choice in force.
    pub open spec fn index(self, c: AppConfig, env: SettingsEnv) -> int {
        match self {
            Setting::AudioQuality => audio_quality_index(c.audio_quality),
            Setting::PreviewQuality => preview_quality_index(c.preview_quality),
            Setting::OutputDevice => device_index(strs(env.devices@), c.output_device@),
            Setting::MonitorDevice => device_index(strs(env.devices@), c.monitor_device@),
            Setting::MasterLimiter => match c.master_limiter { LimiterMode::Off => 0, LimiterMode::SoftKnee => 1 },
            Setting::PitchStretch => pitch_stretch_index(c.pitch_stretch_engine),
            Setting::BpmMode => match c.bpm_mode { BpmMode::Glide => 0, BpmMode::Lock => 1 },
            Setting::SplitCue => if c.split_cue { 1 } else { 0 },
            Setting::CrossfadeBars => crossfade_bars_index(c.crossfade_bars, c.crossfade_bars_auto),
            Setting::GlideBars => glide_bars_index(c.glide_bars),
            Setting::JumpBars => jump_bars_index(c.jump_bars),
            Setting::QuantizeOn => if c.quantize_on { 1 } else { 0 },
            Setting::QuantizeBeats => quantize_beats_index(c.quantize_beats),
            Setting::TempoRange => tempo_range_index(c.tempo_range),
            Setting::NudgePercent => nudge_percent_index(c.nudge_percent),
            Setting::MixInPoint => mix_in_point_index(c.mix_in_point),
            Setting::SmartMixOut => if c.smart_mix_out { 1 } else { 0 },
            Setting::TrainWreck => match c.train_wreck_mode { TrainWreckMode::Off => 0, TrainWreckMode::Detect => 1, TrainWreckMode::AutoBail => 2 },
            Setting::ShuffleOnPlay => if c.shuffle_on_play { 1 } else { 0 },
            Setting::CompactView => if c.compact_view { 0 } else { 1 },
            Setting::ResumeSession => match c.resume_behavior { ResumeBehavior::Never => 0, ResumeBehavior::Ask => 1, ResumeBehavior::Always => 2 },
            Setting::AiBeatDetection => if c.ai_beat_detection { 1 } else { 0 },
            Setting::AiGridValidation => if c.ai_grid_validation { 1 } else { 0 },
            Setting::AiPhraseDetection => if c.ai_phrase_detection { 1 } else { 0 },
            Setting::AnalyzerEngine => match c.analyzer_engine { AnalyzerEngine::Builtin => 0, AnalyzerEngine::Stratum => 1 },
            Setting::TxBeatMatched => if enables(c, "BeatMatched"@) { 1 } else { 0 },
            Setting::TxEchoOut => if enables(c, "EchoOut"@) { 1 } else { 0 },
            Setting::TxBassSwap => if enables(c, "BassSwap"@) { 1 } else { 0 },
            Setting::TxFilterSweep => if enables(c, "FilterSweep"@) { 1 } else { 0 },
            Setting::TxLoopRoll => if enables(c, "LoopRoll"@) { 1 } else { 0 },
            Setting::EditRules => 0,
            Setting::DjMode => match c.claude_dj.mode { ClaudeDjMode::Auto => 0, ClaudeDjMode::Assist => 1, ClaudeDjMode::Manual => 2 },
            Setting::DjCamelot => strictness_index(c.claude_dj.camelot_strictness),
            Setting::DjBpmGap => strictness_index(c.claude_dj.bpm_gap_strictness),
            Setting::DjTransitions => match c.claude_dj.transition_picker { TransitionPicker::Engine => 0, TransitionPicker::Claude => 1 },
            Setting::DjStyle => match c.claude_dj.style { DjStyle::Underground => 0, DjStyle::Mainstream => 1, DjStyle::Exploratory => 2 },
            Setting::DjQuickMix => if c.claude_dj.quick_mix { 1 } else { 0 },
            Setting::DjMemory => if c.claude_dj.memory_enabled { 1 } else { 0 },
            Setting::Browser => browser_index(c.browser@),
            Setting::DefaultGenre => 0,
            Setting::FavoriteGenres => 0,
            Setting::Logout => 0,
            Setting::ResetAll => 0,
        }
    }

    fn position(self, c: &AppConfig, env: &SettingsEnv) -> (i: usize)
        ensures
            i == self.index(*c, *env),
    {
        match self {
            Setting::AudioQuality => audio_quality_idx(&c.audio_quality),
            Setting::PreviewQuality => preview_quality_idx(&c.preview_quality),
            Setting::OutputDevice => output_device_idx(c.output_device.as_str(), &env.devices),
            Setting::MonitorDevice => monitor_device_idx(c.monitor_device.as_str(), &env.devices),
            Setting::MasterLimiter => match c.master_limiter { LimiterMode::Off => 0, LimiterMode::SoftKnee => 1 },
            Setting::PitchStretch => pitch_stretch_idx(&c.pitch_stretch_engine),
            Setting::BpmMode => match c.bpm_mode { BpmMode::Glide => 0, BpmMode::Lock => 1 },
            Setting::SplitCue => if c.split_cue { 1 } else { 0 },
            Setting::CrossfadeBars => crossfade_bars_idx(c.crossfade_bars, c.crossfade_bars_auto),
            Setting::GlideBars => glide_bars_idx(c.glide_bars),
            Setting::JumpBars => jump_bars_idx(c.jump_bars),
            Setting::QuantizeOn => if c.quantize_on { 1 } else { 0 },
            Setting::QuantizeBeats => quantize_beats_idx(c.quantize_beats),
            Setting::TempoRange => tempo_range_idx(c.tempo_range),
            Setting::NudgePercent => nudge_percent_idx(c.nudge_percent),
            Setting::MixInPoint => mix_in_point_idx(&c.mix_in_point),
            Setting::SmartMixOut => if c.smart_mix_out { 1 } else { 0 },
            Setting::TrainWreck => match c.train_wreck_mode { TrainWreckMode::Off => 0, TrainWreckMode::Detect => 1, TrainWreckMode::AutoBail => 2 },
            Setting::ShuffleOnPlay => if c.shuffle_on_play { 1 } else { 0 },
            Setting::CompactView => if c.compact_view { 0 } else { 1 },
            Setting::ResumeSession => match c.resume_behavior { ResumeBehavior::Never => 0, ResumeBehavior::Ask => 1, ResumeBehavior::Always => 2 },
            Setting::AiBeatDetection => if c.ai_beat_detection { 1 } else { 0 },
            Setting::AiGridValidation => if c.ai_grid_validation { 1 } else { 0 },
            Setting::AiPhraseDetection => if c.ai_phrase_detection { 1 } else { 0 },
            Setting::AnalyzerEngine => match c.analyzer_engine { AnalyzerEngine::Builtin => 0, AnalyzerEngine::Stratum => 1 },
            Setting::TxBeatMatched => if transition_enabled(c, "BeatMatched") { 1 } else { 0 },
            Setting::TxEchoOut => if transition_enabled(c, "EchoOut") { 1 } else { 0 },
            Setting::TxBassSwap => if transition_enabled(c, "BassSwap") { 1 } else { 0 },
            Setting::TxFilterSweep => if transition_enabled(c, "FilterSweep") { 1 } else { 0 },
            Setting::TxLoopRoll => if transition_enabled(c, "LoopRoll") { 1 } else { 0 },
            Setting::EditRules => 0,
            Setting::DjMode => match c.claude_dj.mode { ClaudeDjMode::Auto => 0, ClaudeDjMode::Assist => 1, ClaudeDjMode::Manual => 2 },
            Setting::DjCamelot => strictness_idx(&c.claude_dj.camelot_strictness),
            Setting::DjBpmGap => strictness_idx(&c.claude_dj.bpm_gap_strictness),
            Setting::DjTransitions => match c.claude_dj.transition_picker { TransitionPicker::Engine => 0, TransitionPicker::Claude => 1 },
            Setting::DjStyle => match c.claude_dj.style { DjStyle::Underground => 0, DjStyle::Mainstream => 1, DjStyle::Exploratory => 2 },
            Setting::DjQuickMix => if c.claude_dj.quick_mix { 1 } else { 0 },
            Setting::DjMemory => if c.claude_dj.memory_enabled { 1 } else { 0 },
            Setting::Browser => browser_idx(c.browser.as_str()),
            Setting::DefaultGenre => 0,
            Setting::FavoriteGenres => 0,
            Setting::Logout => 0,
            Setting::ResetAll => 0,
        }
    }

    /// The choice of a fresh configuration.
    pub open spec fn default_index(self) -> int {
        match self {
            Setting::QuantizeBeats => 3,
            Setting::TempoRange | Setting::NudgePercent => 2,
            Setting::PreviewQuality | Setting::MasterLimiter | Setting::CrossfadeBars | Setting::GlideBars | Setting::JumpBars | Setting::QuantizeOn | Setting::SmartMixOut | Setting::TrainWreck | Setting::ResumeSession | Setting::TxBeatMatched | Setting::TxEchoOut | Setting::TxBassSwap | Setting::TxFilterSweep | Setting::TxLoopRoll | Setting::DjCamelot | Setting::DjBpmGap | Setting::DjMemory => 1,
            _ => 0,
        }
    }

    /// The row as the list shows it.
    #[verifier::opaque]
    pub open spec fn row(self, c: AppConfig, env: SettingsEnv) -> RowV {
        RowV {
            key: self.spec_key(),
            label: self.spec_label(),
            options: self.options(c, env),
            current_idx: self.index(c, env),
            default_idx: self.default_index(),
        }
    }

    /// A setting of audio output.
    pub open spec fn is_audio(self) -> bool {
        self is AudioQuality || self is PreviewQuality || self is OutputDevice
            || self is MonitorDevice || self is MasterLimiter || self is PitchStretch
    }

    /// A setting of how long a mix takes.
    pub open spec fn is_bars(self) -> bool {
        self is BpmMode || self is SplitCue || self is CrossfadeBars
            || self is GlideBars || self is JumpBars
    }

    /// A setting of how tracks are mixed.
    pub open spec fn is_mixing(self) -> bool {
        self is QuantizeOn || self is QuantizeBeats || self is TempoRange
            || self is NudgePercent || self is MixInPoint || self is SmartMixOut
            || self is TrainWreck
    }

    /// A setting of playback and analysis.
    pub open spec fn is_playback(self) -> bool {
        self is ShuffleOnPlay || self is CompactView || self is ResumeSession
            || self is AiBeatDetection || self is AiGridValidation || self is AiPhraseDetection
            || self is AnalyzerEngine
    }

    /// A setting of a transition.
    pub open spec fn is_transition(self) -> bool {
        self is TxBeatMatched || self is TxEchoOut || self is TxBassSwap
            || self is TxFilterSweep || self is TxLoopRoll
    }

    /// A setting of the DJ.
    pub open spec fn is_dj(self) -> bool {
        self is DjMode || self is DjCamelot || self is DjBpmGap
            || self is DjTransitions || self is DjStyle || self is DjQuickMix
            || self is DjMemory
    }

    /// What choosing an option of audio output does to the configuration.
    #[verifier::opaque]
    pub open spec fn audio_applied(
        self,
        idx: usize,
        env: SettingsEnv,
        old_c: AppConfig,
        new_c: AppConfig,
    ) -> bool {
        match self {
            Setting::AudioQuality => new_c == (AppConfig { audio_quality: if idx == 1 { AudioQuality::Standard } else { AudioQuality::High }, ..old_c }),
            Setting::PreviewQuality => new_c == (AppConfig { preview_quality: if idx == 0 { AudioQuality::Standard } else { AudioQuality::High }, ..old_c }),
            Setting::OutputDevice => new_c.output_device@ == chosen_device(strs(env.devices@), idx) && new_c == (AppConfig { output_device: new_c.output_device, ..old_c }),
            Setting::MonitorDevice => new_c.monitor_device@ == chosen_device(strs(env.devices@), idx) && new_c == (AppConfig { monitor_device: new_c.monitor_device, ..old_c }),
            Setting::MasterLimiter => new_c == (AppConfig { master_limiter: if idx == 0 { LimiterMode::Off } else { LimiterMode::SoftKnee }, ..old_c }),
            Setting::PitchStretch => new_c == (AppConfig {
                pitch_stretch_engine: if (idx == 1 && !env.rubberband) || (idx == 2 && !env.timestretch) { old_c.pitch_stretch_engine } else if idx == 1 { PitchStretchEngine::Rubberband } else if idx == 2 { PitchStretchEngine::Timestretch } else { PitchStretchEngine::Off },
                ..old_c
            }),
            _ => false,
        }
    }

    /// What choosing an option of how long a mix takes does to the configuration.
    #[verifier::opaque]
    pub open spec fn bars_applied(
        self,
        idx: usize,
        env: SettingsEnv,
        old_c: AppConfig,
        new_c: AppConfig,
    ) -> bool {
        match self {
            Setting::BpmMode => new_c == (AppConfig { bpm_mode: if idx == 0 { BpmMode::Glide } else { BpmMode::Lock }, ..old_c }),
            Setting::SplitCue => new_c == (AppConfig { split_cue: idx == 1, ..old_c }),
            Setting::CrossfadeBars => new_c == (AppConfig {
                crossfade_bars: if idx == 0 { 8 } else if idx == 2 { 32 } else if idx == 3 { 64 } else if idx == 4 { old_c.crossfade_bars } else { 16 },
                crossfade_bars_auto: idx == 4,
                ..old_c
            }),
            Setting::GlideBars => new_c == (AppConfig { glide_bars: if idx == 0 { 8 } else if idx == 2 { 32 } else if idx == 3 { 64 } else if idx == 4 { 0 } else { 16 }, ..old_c }),
            Setting::JumpBars => new_c == (AppConfig { jump_bars: if idx == 0 { 4 } else if idx == 2 { 16 } else if idx == 3 { 32 } else { 8 }, ..old_c }),
            _ => false,
        }
    }

    /// What choosing an option of how tracks are mixed does to the configuration.
    #[verifier::opaque]
    pub open spec fn mixing_applied(
        self,
        idx: usize,
        env: SettingsEnv,
        old_c: AppConfig,
        new_c: AppConfig,
    ) -> bool {
        match self {
            Setting::QuantizeOn => new_c == (AppConfig { quantize_on: idx == 1, ..old_c }),
            Setting::QuantizeBeats => new_c == (AppConfig { quantize_beats: if idx == 0 { 125_000 } else if idx == 1 { 250_000 } else if idx == 2 { 500_000 } else if idx == 4 { 2_000_000 } else if idx == 5 { 4_000_000 } else if idx == 6 { 8_000_000 } else { 1_000_000 }, ..old_c }),
            Setting::TempoRange => new_c == (AppConfig { tempo_range: if idx == 0 { 4 } else if idx == 1 { 6 } else if idx == 3 { 10 } else if idx == 4 { 16 } else { 8 }, ..old_c }),
            Setting::NudgePercent => new_c == (AppConfig { nudge_percent: if idx == 0 { 1 } else if idx == 1 { 2 } else if idx == 3 { 4 } else if idx == 4 { 5 } else { 3 }, ..old_c }),
            Setting::MixInPoint => new_c == (AppConfig { mix_in_point: if idx == 0 { MixInPoint::FirstBeat } else if idx == 1 { MixInPoint::Drop } else { MixInPoint::Middle }, ..old_c }),
            Setting::SmartMixOut => new_c == (AppConfig { smart_mix_out: idx == 1, ..old_c }),
            Setting::TrainWreck => new_c == (AppConfig { train_wreck_mode: if idx == 0 { TrainWreckMode::Off } else if idx == 1 { TrainWreckMode::Detect } else { TrainWreckMode::AutoBail }, ..old_c }),
            _ => false,
        }
    }

    /// What choosing an option of playback and analysis does to the configuration.
    #[verifier::opaque]
    pub open spec fn playback_applied(
        self,
        idx: usize,
        env: SettingsEnv,
        old_c: AppConfig,
        new_c: AppConfig,
    ) -> bool {
        match self {
            Setting::ShuffleOnPlay => new_c == (AppConfig { shuffle_on_play: idx == 1, ..old_c }),
            Setting::CompactView => new_c == (AppConfig { compact_view: idx == 0, ..old_c }),
            Setting::ResumeSession => new_c == (AppConfig { resume_behavior: if idx == 0 { ResumeBehavior::Never } else if idx == 1 { ResumeBehavior::Ask } else { ResumeBehavior::Always }, ..old_c }),
            Setting::AiBeatDetection => new_c == (AppConfig { ai_beat_detection: idx == 1, ..old_c }),
            Setting::AiGridValidation => new_c == (AppConfig { ai_grid_validation: idx == 1, ..old_c }),
            Setting::AiPhraseDetection => new_c == (AppConfig { ai_phrase_detection: idx == 1, ..old_c }),
            Setting::AnalyzerEngine => new_c == (AppConfig { analyzer_engine: if idx == 1 { AnalyzerEngine::Stratum } else { AnalyzerEngine::Builtin }, ..old_c }),
            _ => false,
        }
    }

    /// What choosing an option of a transition does to the configuration.
    #[verifier::opaque]
    pub open spec fn transition_applied(
        self,
        idx: usize,
        env: SettingsEnv,
        old_c: AppConfig,
        new_c: AppConfig,
    ) -> bool {
        match self {
            Setting::TxBeatMatched => transition_toggled(old_c, new_c, "BeatMatched"@, idx == 1),
            Setting::TxEchoOut => transition_toggled(old_c, new_c, "EchoOut"@, idx == 1),
            Setting::TxBassSwap => transition_toggled(old_c, new_c, "BassSwap"@, idx == 1),
            Setting::TxFilterSweep => transition_toggled(old_c, new_c, "FilterSweep"@, idx == 1),
            Setting::TxLoopRoll => transition_toggled(old_c, new_c, "LoopRoll"@, idx == 1),
            _ => false,
        }
    }

    /// What is asked of the DJ after choosing an option of it.
    pub open spec fn dj_chosen(self, idx: usize, d: ClaudeDjSettings) -> ClaudeDjSettings {
        match self {
            Setting::DjMode => ClaudeDjSettings { mode: if idx == 0 { ClaudeDjMode::Auto } else if idx == 1 { ClaudeDjMode::Assist } else { ClaudeDjMode::Manual }, ..d },
            Setting::DjCamelot => ClaudeDjSettings { camelot_strictness: if idx == 0 { Strictness::Strict } else if idx == 2 { Strictness::Off } else { Strictness::Prefer }, ..d },
            Setting::DjBpmGap => ClaudeDjSettings { bpm_gap_strictness: if idx == 0 { Strictness::Strict } else if idx == 2 { Strictness::Off } else { Strictness::Prefer }, ..d },
            Setting::DjTransitions => ClaudeDjSettings { transition_picker: if idx == 1 { TransitionPicker::Claude } else { TransitionPicker::Engine }, ..d },
            Setting::DjStyle => ClaudeDjSettings { style: if idx == 1 { DjStyle::Mainstream } else if idx == 2 { DjStyle::Exploratory } else { DjStyle::Underground }, ..d },
            Setting::DjQuickMix => ClaudeDjSettings { quick_mix: idx == 1, ..d },
            Setting::DjMemory => ClaudeDjSettings { memory_enabled: idx == 1, ..d },
            _ => d,
        }
    }

    /// What choosing an option of the DJ does to the configuration.
    #[verifier::opaque]
    pub open spec fn dj_applied(
        self,
        idx: usize,
        env: SettingsEnv,
        old_c: AppConfig,
        new_c: AppConfig,
    ) -> bool {
        new_c == (AppConfig { claude_dj: self.dj_chosen(idx, old_c.claude_dj), ..old_c })
    }

    /// What choosing an option of the remaining rows does to the configuration.
    #[verifier::opaque]
    pub open spec fn other_applied(
        self,
        idx: usize,
        env: SettingsEnv,
        old_c: AppConfig,
        new_c: AppConfig,
    ) -> bool {
        match self {
            Setting::EditRules => new_c == old_c,
            Setting::Browser => new_c.browser@ == (if idx == 1 { "Safari"@ } else if idx == 2 { "Firefox"@ } else if idx == 3 { "Arc"@ } else { "Google Chrome"@ }) && new_c == (AppConfig { browser: new_c.browser, ..old_c }),
            Setting::DefaultGenre => new_c == old_c,
            Setting::FavoriteGenres => new_c == old_c,
            Setting::Logout => new_c == old_c,
            Setting::ResetAll => new_c.is_default(),
            _ => false,
        }
    }

    /// What choosing an option does to the configuration.
    pub open spec fn applied(
        self,
        idx: usize,
        env: SettingsEnv,
        old_c: AppConfig,
        new_c: AppConfig,
    ) -> bool {
        if self.is_audio() {
            self.audio_applied(idx, env, old_c, new_c)
        } else if self.is_bars() {
            self.bars_applied(idx, env, old_c, new_c)
        } else if self.is_mixing() {
            self.mixing_applied(idx, env, old_c, new_c)
        } else if self.is_playback() {
            self.playback_applied(idx, env, old_c, new_c)
        } else if self.is_transition() {
            self.transition_applied(idx, env, old_c, new_c)
        } else if self.is_dj() {
            self.dj_applied(idx, env, old_c, new_c)
        } else {
            self.other_applied(idx, env, old_c, new_c)
        }
    }

    /// The follow-up that choosing an option asks for.
    #[verifier::opaque]
    pub open spec fn effect(self, idx: usize, env: SettingsEnv) -> Option<&'static str> {
        match self {
            Setting::OutputDevice => Some("output_device_changed"),
            Setting::MonitorDevice => Some("monitor_device_changed"),
            Setting::MasterLimiter => Some("master_limiter_changed"),
            Setting::PitchStretch => if idx == 1 && !env.rubberband {
                Some("rubberband_unavailable")
            } else if idx == 2 && !env.timestretch {
                Some("timestretch_unavailable")
            } else {
                Some("pitch_stretch_changed")
            },
            Setting::CrossfadeBars => Some("crossfade_bars_changed"),
            Setting::JumpBars => Some("jump_bars_changed"),
            Setting::QuantizeOn | Setting::QuantizeBeats => Some("quantize_changed"),
            Setting::TrainWreck => Some("train_wreck_changed"),
            Setting::AnalyzerEngine => if idx == 1 && !env.stratum { Some("stratum_fallback") } else { None },
            Setting::TxBeatMatched | Setting::TxEchoOut | Setting::TxBassSwap | Setting::TxFilterSweep | Setting::TxLoopRoll => Some("transitions_changed"),
            Setting::EditRules => Some("open_rules_editor"),
            Setting::DjMode | Setting::DjCamelot | Setting::DjBpmGap | Setting::DjTransitions | Setting::DjStyle | Setting::DjQuickMix | Setting::DjMemory => Some("claudedj_changed"),
            Setting::DefaultGenre => Some("pick_genre"),
            Setting::FavoriteGenres => Some("pick_favorites"),
            Setting::Logout => Some("logout"),
            Setting::ResetAll => Some("reset_all"),
            _ => None,
        }
    }
}

fn add_all(v: &mut Vec<String>, more: &Vec<String>)
    ensures
        strs(final(v)@) == strs(old(v)@) + strs(more@),
{
    let mut i: usize = 0;
    while i < more.len()
        invariant
            i <= more.len(),
            strs(v@) == strs(old(v)@) + strs(more@).take(i as int),
        decreases more.len() - i,
    {
        let ghost before = strs(v@);
        v.push(more[i].clone());
        i += 1;
        assert(strs(v@) == before.push(more@[i - 1]@));
        assert(strs(more@).take(i as int) == strs(more@).take(i - 1).push(more@[i - 1]@));
    }
    assert(strs(more@).take(i as int) == strs(more@));
}

fn set_audio_quality(config: &mut AppConfig, idx: usize, env: &SettingsEnv) -> (effect: Option<&'static str>)
    ensures
        Setting::AudioQuality.applied(idx, *env, *old(config), *final(config)),
        effect == Setting::AudioQuality.effect(idx, *env),
{
    reveal(Setting::audio_applied);
    reveal(Setting::effect);
    config.audio_quality = if idx == 1 { AudioQuality::Standard } else { AudioQuality::High };
    None
}

fn set_preview_quality(config: &mut AppConfig, idx: usize, env: &SettingsEnv) -> (effect: Option<&'static str>)
    ensures
        Setting::PreviewQuality.applied(idx, *env, *old(config), *final(config)),
        effect == Setting::PreviewQuality.effect(idx, *env),
{
    reveal(Setting::audio_applied);
    reveal(Setting::effect);
    config.preview_quality = if idx == 0 { AudioQuality::Standard } else { AudioQuality::High };
    None
}

fn set_output_device(config: &mut AppConfig, idx: usize, env: &SettingsEnv) -> (effect: Option<&'static str>)
    ensures
        Setting::OutputDevice.applied(idx, *env, *old(config), *final(config)),
        effect == Setting::OutputDevice.effect(idx, *env),
{
    reveal(Setting::audio_applied);
    reveal(Setting::effect);
    config.output_device = device_at(&env.devices, idx);
    Some("output_device_changed")
}

fn set_monitor_device(config: &mut AppConfig, idx: usize, env: &SettingsEnv) -> (effect: Option<&'static str>)
    ensures
        Setting::MonitorDevice.applied(idx, *env, *old(config), *final(config)),
        effect == Setting::MonitorDevice.effect(idx, *env),
{
    reveal(Setting::audio_applied);
    reveal(Setting::effect);
    config.monitor_device = device_at(&env.devices, idx);
    Some("monitor_device_changed")
}

fn set_master_limiter(config: &mut AppConfig, idx: usize, env: &SettingsEnv) -> (effect: Option<&'static str>)
    ensures
        Setting::MasterLimiter.applied(idx, *env, *old(config), *final(config)),
        effect == Setting::MasterLimiter.effect(idx, *env),
{
    reveal(Setting::audio_applied);
    reveal(Setting::effect);
    config.master_limiter = if idx == 0 { LimiterMode::Off } else { LimiterMode::SoftKnee };
    Some("master_limiter_changed")
}

fn set_pitch_stretch(config: &mut AppConfig, idx: usize, env: &SettingsEnv) -> (effect: Option<&'static str>)
    ensures
        Setting::PitchStretch.applied(idx, *env, *old(config), *final(config)),
        effect == Setting::PitchStretch.effect(idx, *env),
{
    reveal(Setting::audio_applied);
    reveal(Setting::effect);
    if idx == 1 && !env.rubberband {
        return Some("rubberband_unavailable");
    }
    if idx == 2 && !env.timestretch {
        return Some("timestretch_unavailable");
    }
    config.pitch_stretch_engine = if idx == 1 { PitchStretchEngine::Rubberband } else if idx == 2 { PitchStretchEngine::Timestretch } else { PitchStretchEngine::Off };
    Some("pitch_stretch_changed")
}

fn set_bpm_mode(config: &mut AppConfig, idx: usize, env: &SettingsEnv) -> (effect: Option<&'static str>)
    ensures
        Setting::BpmMode.applied(idx, *env, *old(config), *final(config)),
        effect == Setting::BpmMode.effect(idx, *env),
{
    reveal(Setting::bars_applied);
    reveal(Setting::effect);
    config.bpm_mode = if idx == 0 { BpmMode::Glide } else { BpmMode::Lock };
    None
}

fn set_split_cue(config: &mut AppConfig, idx: usize, env: &SettingsEnv) -> (effect: Option<&'static str>)
    ensures
        Setting::SplitCue.applied(idx, *env, *old(config), *final(config)),
        effect == Setting::SplitCue.effect(idx, *env),
{
    reveal(Setting::bars_applied);
    reveal(Setting::effect);
    config.split_cue = idx == 1;
    None
}

fn set_crossfade_bars(config: &mut AppConfig, idx: usize, env: &SettingsEnv) -> (effect: Option<&'static str>)
    ensures
        Setting::CrossfadeBars.applied(idx, *env, *old(config), *final(config)),
        effect == Setting::CrossfadeBars.effect(idx, *env),
{
    reveal(Setting::bars_applied);
    reveal(Setting::effect);
    if idx == 4 {
        config.crossfade_bars_auto = true;
    } else {
        config.crossfade_bars = if idx == 0 { 8 } else if idx == 2 { 32 } else if idx == 3 { 64 } else { 16 };
        config.crossfade_bars_auto = false;
    }
    Some("crossfade_bars_changed")
}

fn set_glide_bars(config: &mut AppConfig, idx: usize, env: &SettingsEnv) -> (effect: Option<&'static str>)
    ensures
        Setting::GlideBars.applied(idx, *env, *old(config), *final(config)),
        effect == Setting::GlideBars.effect(idx, *env),
{
    reveal(Setting::bars_applied);
    reveal(Setting::effect);
    config.glide_bars = if idx == 0 { 8 } else if idx == 2 { 32 } else if idx == 3 { 64 } else if idx == 4 { 0 } else { 16 };
    None
}

fn set_jump_bars(config: &mut AppConfig, idx: usize, env: &SettingsEnv) -> (effect: Option<&'static str>)
    ensures
        Setting::JumpBars.applied(idx, *env, *old(config), *final(config)),
        effect == Setting::JumpBars.effect(idx, *env),
{
    reveal(Setting::bars_applied);
    reveal(Setting::effect);
    config.jump_bars = if idx == 0 { 4 } else if idx == 2 { 16 } else if idx == 3 { 32 } else { 8 };
    Some("jump_bars_changed")
}

fn set_quantize_on(config: &mut AppConfig, idx: usize, env: &SettingsEnv) -> (effect: Option<&'static str>)
    ensures
        Setting::QuantizeOn.applied(idx, *env, *old(config), *final(config)),
        effect == Setting::QuantizeOn.effect(idx, *env),
{
    reveal(Setting::mixing_applied);
    reveal(Setting::effect);
    config.quantize_on = idx == 1;
    Some("quantize_changed")
}

fn set_quantize_beats(config: &mut AppConfig, idx: usize, env: &SettingsEnv) -> (effect: Option<&'static str>)
    ensures
        Setting::QuantizeBeats.applied(idx, *env, *old(config), *final(config)),
        effect == Setting::QuantizeBeats.effect(idx, *env),
{
    reveal(Setting::mixing_applied);
    reveal(Setting::effect);
    config.quantize_beats = if idx == 0 { 125_000 } else if idx == 1 { 250_000 } else if idx == 2 { 500_000 } else if idx == 4 { 2_000_000 } else if idx == 5 { 4_000_000 } else if idx == 6 { 8_000_000 } else { 1_000_000 };
    Some("quantize_changed")
}

fn set_tempo_range(config: &mut AppConfig, idx: usize, env: &SettingsEnv) -> (effect: Option<&'static str>)
    ensures
        Setting::TempoRange.applied(idx, *env, *old(config), *final(config)),
        effect == Setting::TempoRange.effect(idx, *env),
{
    reveal(Setting::mixing_applied);
    reveal(Setting::effect);
    config.tempo_range = if idx == 0 { 4 } else if idx == 1 { 6 } else if idx == 3 { 10 } else if idx == 4 { 16 } else { 8 };
    None
}

fn set_nudge_percent(config: &mut AppConfig, idx: usize, env: &SettingsEnv) -> (effect: Option<&'static str>)
    ensures
        Setting::NudgePercent.applied(idx, *env, *old(config), *final(config)),
        effect == Setting::NudgePercent.effect(idx, *env),
{
    reveal(Setting::mixing_applied);
    reveal(Setting::effect);
    config.nudge_percent = if idx == 0 { 1 } else if idx == 1 { 2 } else if idx == 3 { 4 } else if idx == 4 { 5 } else { 3 };
    None
}

fn set_mix_in_point(config: &mut AppConfig, idx: usize, env: &SettingsEnv) -> (effect: Option<&'static str>)
    ensures
        Setting::MixInPoint.applied(idx, *env, *old(config), *final(config)),
        effect == Setting::MixInPoint.effect(idx, *env),
{
    reveal(Setting::mixing_applied);
    reveal(Setting::effect);
    config.mix_in_point = if idx == 0 { MixInPoint::FirstBeat } else if idx == 1 { MixInPoint::Drop } else { MixInPoint::Middle };
    None
}

fn set_smart_mix_out(config: &mut AppConfig, idx: usize, env: &SettingsEnv) -> (effect: Option<&'static str>)
    ensures
        Setting::SmartMixOut.applied(idx, *env, *old(config), *final(config)),
        effect == Setting::SmartMixOut.effect(idx, *env),
{
    reveal(Setting::mixing_applied);
    reveal(Setting::effect);
    config.smart_mix_out = idx == 1;
    None
}

fn set_train_wreck(config: &mut AppConfig, idx: usize, env: &SettingsEnv) -> (effect: Option<&'static str>)
    ensures
        Setting::TrainWreck.applied(idx, *env, *old(config), *final(config)),
        effect == Setting::TrainWreck.effect(idx, *env),
{
    reveal(Setting::mixing_applied);
    reveal(Setting::effect);
    config.train_wreck_mode = if idx == 0 { TrainWreckMode::Off } else if idx == 1 { TrainWreckMode::Detect } else { TrainWreckMode::AutoBail };
    Some("train_wreck_changed")
}

fn set_shuffle_on_play(config: &mut AppConfig, idx: usize, env: &SettingsEnv) -> (effect: Option<&'static str>)
    ensures
        Setting::ShuffleOnPlay.applied(idx, *env, *old(config), *final(config)),
        effect == Setting::ShuffleOnPlay.effect(idx, *env),
{
    reveal(Setting::playback_applied);
    reveal(Setting::effect);
    config.shuffle_on_play = idx == 1;
    None
}

fn set_compact_view(config: &mut AppConfig, idx: usize, env: &SettingsEnv) -> (effect: Option<&'static str>)
    ensures
        Setting::CompactView.applied(idx, *env, *old(config), *final(config)),
        effect == Setting::CompactView.effect(idx, *env),
{
    reveal(Setting::playback_applied);
    reveal(Setting::effect);
    config.compact_view = idx == 0;
    None
}

fn set_resume_session(config: &mut AppConfig, idx: usize, env: &SettingsEnv) -> (effect: Option<&'static str>)
    ensures
        Setting::ResumeSession.applied(idx, *env, *old(config), *final(config)),
        effect == Setting::ResumeSession.effect(idx, *env),
{
    reveal(Setting::playback_applied);
    reveal(Setting::effect);
    config.resume_behavior = if idx == 0 { ResumeBehavior::Never } else if idx == 1 { ResumeBehavior::Ask } else { ResumeBehavior::Always };
    None
}

fn set_ai_beat_detection(config: &mut AppConfig, idx: usize, env: &SettingsEnv) -> (effect: Option<&'static str>)
    ensures
        Setting::AiBeatDetection.applied(idx, *env, *old(config), *final(config)),
        effect == Setting::AiBeatDetection.effect(idx, *env),
{
    reveal(Setting::playback_applied);
    reveal(Setting::effect);
    config.ai_beat_detection = idx == 1;
    None
}

fn set_ai_grid_validation(config: &mut AppConfig, idx: usize, env: &SettingsEnv) -> (effect: Option<&'static str>)
    ensures
        Setting::AiGridValidation.applied(idx, *env, *old(config), *final(config)),
        effect == Setting::AiGridValidation.effect(idx, *env),
{
    reveal(Setting::playback_applied);
    reveal(Setting::effect);
    config.ai_grid_validation = idx == 1;
    None
}

fn set_ai_phrase_detection(config: &mut AppConfig, idx: usize, env: &SettingsEnv) -> (effect: Option<&'static str>)
    ensures
        Setting::AiPhraseDetection.applied(idx, *env, *old(config), *final(config)),
        effect == Setting::AiPhraseDetection.effect(idx, *env),
{
    reveal(Setting::playback_applied);
    reveal(Setting::effect);
    config.ai_phrase_detection = idx == 1;
    None
}

fn set_analyzer_engine(config: &mut AppConfig, idx: usize, env: &SettingsEnv) -> (effect: Option<&'static str>)
    ensures
        Setting::AnalyzerEngine.applied(idx, *env, *old(config), *final(config)),
        effect == Setting::AnalyzerEngine.effect(idx, *env),
{
    reveal(Setting::playback_applied);
    reveal(Setting::effect);
    config.analyzer_engine = if idx == 1 { AnalyzerEngine::Stratum } else { AnalyzerEngine::Builtin };
    if idx == 1 && !env.stratum { Some("stratum_fallback") } else { None }
}

fn set_tx_beat_matched(config: &mut AppConfig, idx: usize, env: &SettingsEnv) -> (effect: Option<&'static str>)
    ensures
        Setting::TxBeatMatched.applied(idx, *env, *old(config), *final(config)),
        effect == Setting::TxBeatMatched.effect(idx, *env),
{
    reveal(Setting::transition_applied);
    reveal(Setting::effect);
    toggle_transition(config, "BeatMatched", idx == 1);
    Some("transitions_changed")
}

fn set_tx_echo_out(config: &mut AppConfig, idx: usize, env: &SettingsEnv) -> (effect: Option<&'static str>)
    ensures
        Setting::TxEchoOut.applied(idx, *env, *old(config), *final(config)),
        effect == Setting::TxEchoOut.effect(idx, *env),
{
    reveal(Setting::transition_applied);
    reveal(Setting::effect);
    toggle_transition(config, "EchoOut", idx == 1);
    Some("transitions_changed")
}

fn set_tx_bass_swap(config: &mut AppConfig, idx: usize, env: &SettingsEnv) -> (effect: Option<&'static str>)
    ensures
        Setting::TxBassSwap.applied(idx, *env, *old(config), *final(config)),
        effect == Setting::TxBassSwap.effect(idx, *env),
{
    reveal(Setting::transition_applied);
    reveal(Setting::effect);
    toggle_transition(config, "BassSwap", idx == 1);
    Some("transitions_changed")
}

fn set_tx_filter_sweep(config: &mut AppConfig, idx: usize, env: &SettingsEnv) -> (effect: Option<&'static str>)
    ensures
        Setting::TxFilterSweep.applied(idx, *env, *old(config), *final(config)),
        effect == Setting::TxFilterSweep.effect(idx, *env),
{
    reveal(Setting::transition_applied);
    reveal(Setting::effect);
    toggle_transition(config, "FilterSweep", idx == 1);
    Some("transitions_changed")
}

fn set_tx_loop_roll(config: &mut AppConfig, idx: usize, env: &SettingsEnv) -> (effect: Option<&'static str>)
    ensures
        Setting::TxLoopRoll.applied(idx, *env, *old(config), *final(config)),
        effect == Setting::TxLoopRoll.effect(idx, *env),
{
    reveal(Setting::transition_applied);
    reveal(Setting::effect);
    toggle_transition(config, "LoopRoll", idx == 1);
    Some("transitions_changed")
}

fn set_edit_rules(config: &mut AppConfig, idx: usize, env: &SettingsEnv) -> (effect: Option<&'static str>)
    ensures
        Setting::EditRules.applied(idx, *env, *old(config), *final(config)),
        effect == Setting::EditRules.effect(idx, *env),
{
    reveal(Setting::other_applied);
    reveal(Setting::effect);
    Some("open_rules_editor")
}

fn set_dj_mode(config: &mut AppConfig, idx: usize, env: &SettingsEnv) -> (effect: Option<&'static str>)
    ensures
        Setting::DjMode.applied(idx, *env, *old(config), *final(config)),
        effect == Setting::DjMode.effect(idx, *env),
{
    reveal(Setting::dj_applied);
    reveal(Setting::effect);
    config.claude_dj.mode = if idx == 0 { ClaudeDjMode::Auto } else if idx == 1 { ClaudeDjMode::Assist } else { ClaudeDjMode::Manual };
    Some("claudedj_changed")
}

fn set_dj_camelot(config: &mut AppConfig, idx: usize, env: &SettingsEnv) -> (effect: Option<&'static str>)
    ensures
        Setting::DjCamelot.applied(idx, *env, *old(config), *final(config)),
        effect == Setting::DjCamelot.effect(idx, *env),
{
    reveal(Setting::dj_applied);
    reveal(Setting::effect);
    config.claude_dj.camelot_strictness = if idx == 0 { Strictness::Strict } else if idx == 2 { Strictness::Off } else { Strictness::Prefer };
    Some("claudedj_changed")
}

fn set_dj_bpm_gap(config: &mut AppConfig, idx: usize, env: &SettingsEnv) -> (effect: Option<&'static str>)
    ensures
        Setting::DjBpmGap.applied(idx, *env, *old(config), *final(config)),
        effect == Setting::DjBpmGap.effect(idx, *env),
{
    reveal(Setting::dj_applied);
    reveal(Setting::effect);
    config.claude_dj.bpm_gap_strictness = if idx == 0 { Strictness::Strict } else if idx == 2 { Strictness::Off } else { Strictness::Prefer };
    Some("claudedj_changed")
}

fn set_dj_transitions(config: &mut AppConfig, idx: usize, env: &SettingsEnv) -> (effect: Option<&'static str>)
    ensures
        Setting::DjTransitions.applied(idx, *env, *old(config), *final(config)),
        effect == Setting::DjTransitions.effect(idx, *env),
{
    reveal(Setting::dj_applied);
    reveal(Setting::effect);
    config.claude_dj.transition_picker = if idx == 1 { TransitionPicker::Claude } else { TransitionPicker::Engine };
    Some("claudedj_changed")
}

fn set_dj_style(config: &mut AppConfig, idx: usize, env: &SettingsEnv) -> (effect: Option<&'static str>)
    ensures
        Setting::DjStyle.applied(idx, *env, *old(config), *final(config)),
        effect == Setting::DjStyle.effect(idx, *env),
{
    reveal(Setting::dj_applied);
    reveal(Setting::effect);
    config.claude_dj.style = if idx == 1 { DjStyle::Mainstream } else if idx == 2 { DjStyle::Exploratory } else { DjStyle::Underground };
    Some("claudedj_changed")
}

fn set_dj_quick_mix(config: &mut AppConfig, idx: usize, env: &SettingsEnv) -> (effect: Option<&'static str>)
    ensures
        Setting::DjQuickMix.applied(idx, *env, *old(config), *final(config)),
        effect == Setting::DjQuickMix.effect(idx, *env),
{
    reveal(Setting::dj_applied);
    reveal(Setting::effect);
    config.claude_dj.quick_mix = idx == 1;
    Some("claudedj_changed")
}

fn set_dj_memory(config: &mut AppConfig, idx: usize, env: &SettingsEnv) -> (effect: Option<&'static str>)
    ensures
        Setting::DjMemory.applied(idx, *env, *old(config), *final(config)),
        effect == Setting::DjMemory.effect(idx, *env),
{
    reveal(Setting::dj_applied);
    reveal(Setting::effect);
    config.claude_dj.memory_enabled = idx == 1;
    Some("claudedj_changed")
}

fn set_browser(config: &mut AppConfig, idx: usize, env: &SettingsEnv) -> (effect: Option<&'static str>)
    ensures
        Setting::Browser.applied(idx, *env, *old(config), *final(config)),
        effect == Setting::Browser.effect(idx, *env),
{
    reveal(Setting::other_applied);
    reveal(Setting::effect);
    config.browser = if idx == 1 { "Safari".to_owned() } else if idx == 2 { "Firefox".to_owned() } else if idx == 3 { "Arc".to_owned() } else { "Google Chrome".to_owned() };
    None
}

fn set_default_genre(config: &mut AppConfig, idx: usize, env: &SettingsEnv) -> (effect: Option<&'static str>)
    ensures
        Setting::DefaultGenre.applied(idx, *env, *old(config), *final(config)),
        effect == Setting::DefaultGenre.effect(idx, *env),
{
    reveal(Setting::other_applied);
    reveal(Setting::effect);
    Some("pick_genre")
}

fn set_favorite_genres(config: &mut AppConfig, idx: usize, env: &SettingsEnv) -> (effect: Option<&'static str>)
    ensures
        Setting::FavoriteGenres.applied(idx, *env, *old(config), *final(config)),
        effect == Setting::FavoriteGenres.effect(idx, *env),
{
    reveal(Setting::other_applied);
    reveal(Setting::effect);
    Some("pick_favorites")
}

fn set_logout(config: &mut AppConfig, idx: usize, env: &SettingsEnv) -> (effect: Option<&'static str>)
    ensures
        Setting::Logout.applied(idx, *env, *old(config), *final(config)),
        effect == Setting::Logout.effect(idx, *env),
{
    reveal(Setting::other_applied);
    reveal(Setting::effect);
    Some("logout")
}

fn set_reset_all(config: &mut AppConfig, idx: usize, env: &SettingsEnv) -> (effect: Option<&'static str>)
    ensures
        Setting::ResetAll.applied(idx, *env, *old(config), *final(config)),
        effect == Setting::ResetAll.effect(idx, *env),
{
    reveal(Setting::other_applied);
    reveal(Setting::effect);
    *config = AppConfig::default();
    Some("reset_all")
}

/// Applies a choice by the key of its row. Unknown keys do nothing. The result
/// names the follow-up that the change asks for.
pub fn apply_setting(
    config: &mut AppConfig,
    key: &str,
    option_idx: usize,
    env: &SettingsEnv,
) -> (effect: Option<&'static str>)
    ensures
        match setting_of(key@) {
            Some(s) => s.applied(option_idx, *env, *old(config), *final(config)) && effect
                == s.effect(option_idx, *env),
            None => *final(config) == *old(config) && effect is None,
        },
{
    let setting: Setting = match find_setting(key) {
        Some(s) => s,
        None => {
            return None;
        },
    };
    match setting {
        Setting::AudioQuality => set_audio_quality(config, option_idx, env),
        Setting::PreviewQuality => set_preview_quality(config, option_idx, env),
        Setting::OutputDevice => set_output_device(config, option_idx, env),
        Setting::MonitorDevice => set_monitor_device(config, option_idx, env),
        Setting::MasterLimiter => set_master_limiter(config, option_idx, env),
        Setting::PitchStretch => set_pitch_stretch(config, option_idx, env),
        Setting::BpmMode => set_bpm_mode(config, option_idx, env),
        Setting::SplitCue => set_split_cue(config, option_idx, env),
        Setting::CrossfadeBars => set_crossfade_bars(config, option_idx, env),
        Setting::GlideBars => set_glide_bars(config, option_idx, env),
        Setting::JumpBars => set_jump_bars(config, option_idx, env),
        Setting::QuantizeOn => set_quantize_on(config, option_idx, env),
        Setting::QuantizeBeats => set_quantize_beats(config, option_idx, env),
        Setting::TempoRange => set_tempo_range(config, option_idx, env),
        Setting::NudgePercent => set_nudge_percent(config, option_idx, env),
        Setting::MixInPoint => set_mix_in_point(config, option_idx, env),
        Setting::SmartMixOut => set_smart_mix_out(config, option_idx, env),
        Setting::TrainWreck => set_train_wreck(config, option_idx, env),
        Setting::ShuffleOnPlay => set_shuffle_on_play(config, option_idx, env),
        Setting::CompactView => set_compact_view(config, option_idx, env),
        Setting::ResumeSession => set_resume_session(config, option_idx, env),
        Setting::AiBeatDetection => set_ai_beat_detection(config, option_idx, env),
        Setting::AiGridValidation => set_ai_grid_validation(config, option_idx, env),
        Setting::AiPhraseDetection => set_ai_phrase_detection(config, option_idx, env),
        Setting::AnalyzerEngine => set_analyzer_engine(config, option_idx, env),
        Setting::TxBeatMatched => set_tx_beat_matched(config, option_idx, env),
        Setting::TxEchoOut => set_tx_echo_out(config, option_idx, env),
        Setting::TxBassSwap => set_tx_bass_swap(config, option_idx, env),
        Setting::TxFilterSweep => set_tx_filter_sweep(config, option_idx, env),
        Setting::TxLoopRoll => set_tx_loop_roll(config, option_idx, env),
        Setting::EditRules => set_edit_rules(config, option_idx, env),
        Setting::DjMode => set_dj_mode(config, option_idx, env),
        Setting::DjCamelot => set_dj_camelot(config, option_idx, env),
        Setting::DjBpmGap => set_dj_bpm_gap(config, option_idx, env),
        Setting::DjTransitions => set_dj_transitions(config, option_idx, env),
        Setting::DjStyle => set_dj_style(config, option_idx, env),
        Setting::DjQuickMix => set_dj_quick_mix(config, option_idx, env),
        Setting::DjMemory => set_dj_memory(config, option_idx, env),
        Setting::Browser => set_browser(config, option_idx, env),
        Setting::DefaultGenre => set_default_genre(config, option_idx, env),
        Setting::FavoriteGenres => set_favorite_genres(config, option_idx, env),
        Setting::Logout => set_logout(config, option_idx, env),
        Setting::ResetAll => set_reset_all(config, option_idx, env),
    }
}

impl TextSetting {
    pub open spec fn spec_key(self) -> &'static str {
        match self {
            TextSetting::LocalLibraryDir => "local_library_dir",
            TextSetting::RekordboxXml => "rekordbox_xml",
            TextSetting::EngineDjDb => "engine_dj_db",
            TextSetting::SeratoDb => "serato_db",
        }
    }

    /// The text in force.
    pub open spec fn text(self, c: AppConfig) -> Seq<char> {
        match self {
            TextSetting::LocalLibraryDir => c.local_library_dir@,
            TextSetting::RekordboxXml => c.rekordbox_xml@,
            TextSetting::EngineDjDb => c.engine_dj_db@,
            TextSetting::SeratoDb => c.serato_db@,
        }
    }

    #[verifier::opaque]
    pub open spec fn row(self, c: AppConfig) -> TextRowV {
        TextRowV {
            key: self.spec_key(),
            label: match self {
                TextSetting::LocalLibraryDir => "Local Library Directory",
                TextSetting::RekordboxXml => "Rekordbox XML",
                TextSetting::EngineDjDb => "Engine DJ Database",
                TextSetting::SeratoDb => "Serato Database",
            },
            value: self.text(c),
            default: ""@,
            placeholder: match self {
                TextSetting::LocalLibraryDir => "/path/to/music — Enter to edit",
                TextSetting::RekordboxXml => "/path/to/rekordbox.xml",
                TextSetting::EngineDjDb => "/path/to/m.db",
                TextSetting::SeratoDb => "/path/to/database V2",
            },
        }
    }

    /// The configuration with another text for this setting.
    pub open spec fn applied(self, value: String, old_c: AppConfig) -> AppConfig {
        match self {
            TextSetting::LocalLibraryDir => AppConfig { local_library_dir: value, ..old_c },
            TextSetting::RekordboxXml => AppConfig { rekordbox_xml: value, ..old_c },
            TextSetting::EngineDjDb => AppConfig { engine_dj_db: value, ..old_c },
            TextSetting::SeratoDb => AppConfig { serato_db: value, ..old_c },
        }
    }
}

/// Applies a text by the key of its row. Unknown keys do nothing, and no text
/// asks for a follow-up.
pub fn apply_text_setting(
    config: &mut AppConfig,
    key: &str,
    value: String,
) -> (effect: Option<&'static str>)
    ensures
        effect is None,
        *final(config) == (match text_setting_of(key@) {
            Some(s) => s.applied(value, *old(config)),
            None => *old(config),
        }),
{
    match find_text_setting(key) {
        Some(TextSetting::LocalLibraryDir) => {
            config.local_library_dir = value;
        },
        Some(TextSetting::RekordboxXml) => {
            config.rekordbox_xml = value;
        },
        Some(TextSetting::EngineDjDb) => {
            config.engine_dj_db = value;
        },
        Some(TextSetting::SeratoDb) => {
            config.serato_db = value;
        },
        None => {},
    }
    None
}

/// The settings list.
pub open spec fn setting_items(c: AppConfig, env: SettingsEnv) -> Seq<ItemV> {
    seq![
        ItemV::Section("Audio"),
        ItemV::Row(Setting::AudioQuality.row(c, env)),
        ItemV::Row(Setting::PreviewQuality.row(c, env)),
        ItemV::Row(Setting::OutputDevice.row(c, env)),
        ItemV::Row(Setting::MonitorDevice.row(c, env)),
        ItemV::Row(Setting::MasterLimiter.row(c, env)),
        ItemV::Row(Setting::PitchStretch.row(c, env)),
        ItemV::Section("Mixing"),
        ItemV::Row(Setting::BpmMode.row(c, env)),
        ItemV::Row(Setting::SplitCue.row(c, env)),
        ItemV::Row(Setting::CrossfadeBars.row(c, env)),
        ItemV::Row(Setting::GlideBars.row(c, env)),
        ItemV::Row(Setting::JumpBars.row(c, env)),
        ItemV::Row(Setting::QuantizeOn.row(c, env)),
        ItemV::Row(Setting::QuantizeBeats.row(c, env)),
        ItemV::Row(Setting::TempoRange.row(c, env)),
        ItemV::Row(Setting::NudgePercent.row(c, env)),
        ItemV::Row(Setting::MixInPoint.row(c, env)),
        ItemV::Row(Setting::SmartMixOut.row(c, env)),
        ItemV::Row(Setting::TrainWreck.row(c, env)),
        ItemV::Section("Playback"),
        ItemV::Row(Setting::ShuffleOnPlay.row(c, env)),
        ItemV::Row(Setting::CompactView.row(c, env)),
        ItemV::Row(Setting::ResumeSession.row(c, env)),
        ItemV::Section("Analysis"),
        ItemV::Row(Setting::AiBeatDetection.row(c, env)),
        ItemV::Row(Setting::AiGridValidation.row(c, env)),
        ItemV::Row(Setting::AiPhraseDetection.row(c, env)),
        ItemV::Row(Setting::AnalyzerEngine.row(c, env)),
        ItemV::Section("Transitions"),
        ItemV::Row(Setting::TxBeatMatched.row(c, env)),
        ItemV::Row(Setting::TxEchoOut.row(c, env)),
        ItemV::Row(Setting::TxBassSwap.row(c, env)),
        ItemV::Row(Setting::TxFilterSweep.row(c, env)),
        ItemV::Row(Setting::TxLoopRoll.row(c, env)),
        ItemV::Row(Setting::EditRules.row(c, env)),
        ItemV::Section("AI DJ"),
        ItemV::Row(Setting::DjMode.row(c, env)),
        ItemV::Row(Setting::DjCamelot.row(c, env)),
        ItemV::Row(Setting::DjBpmGap.row(c, env)),
        ItemV::Row(Setting::DjTransitions.row(c, env)),
        ItemV::Row(Setting::DjStyle.row(c, env)),
        ItemV::Row(Setting::DjQuickMix.row(c, env)),
        ItemV::Row(Setting::DjMemory.row(c, env)),
        ItemV::Section("Browser"),
        ItemV::Row(Setting::Browser.row(c, env)),
        ItemV::Row(Setting::DefaultGenre.row(c, env)),
        ItemV::Row(Setting::FavoriteGenres.row(c, env)),
        ItemV::Section("Library"),
        ItemV::TextRow(TextSetting::LocalLibraryDir.row(c)),
        ItemV::TextRow(TextSetting::RekordboxXml.row(c)),
        ItemV::TextRow(TextSetting::EngineDjDb.row(c)),
        ItemV::TextRow(TextSetting::SeratoDb.row(c)),
        ItemV::Section("Account"),
        ItemV::Row(Setting::Logout.row(c, env)),
        ItemV::Section("Reset"),
        ItemV::Row(Setting::ResetAll.row(c, env)),
    ]
}

fn add_section(out: &mut Vec<SettingItem>, name: &'static str)
    ensures
        items_view(final(out)@) == items_view(old(out)@).push(ItemV::Section(name)),
{
    out.push(SettingItem::Section(name));
    assert(items_view(out@) == items_view(old(out)@).push(ItemV::Section(name)));
}

fn add_row(
    out: &mut Vec<SettingItem>,
    s: Setting,
    config: &AppConfig,
    fresh: &AppConfig,
    env: &SettingsEnv,
)
    requires
        fresh.is_default(),
    ensures
        items_view(final(out)@) == items_view(old(out)@).push(ItemV::Row(s.row(*config, *env))),
{
    proof {
        lemma_default_index(s, *fresh, *env);
        reveal(Setting::row);
    }
    let row: SettingRow = SettingRow::new(
        s.key(),
        s.label(),
        s.choices(config, env),
        s.position(config, env),
        s.position(fresh, env),
    );
    assert(row@ == s.row(*config, *env));
    out.push(SettingItem::Row(row));
    assert(items_view(out@) == items_view(old(out)@).push(ItemV::Row(s.row(*config, *env))));
}

fn add_text_row(
    out: &mut Vec<SettingItem>,
    s: TextSetting,
    config: &AppConfig,
    fresh: &AppConfig,
)
    requires
        fresh.is_default(),
    ensures
        items_view(final(out)@) == items_view(old(out)@).push(ItemV::TextRow(s.row(*config))),
{
    let row: TextSettingRow = match s {
        TextSetting::LocalLibraryDir => TextSettingRow {
            key: "local_library_dir",
            label: "Local Library Directory",
            value: config.local_library_dir.clone(),
            default: fresh.local_library_dir.clone(),
            placeholder: "/path/to/music — Enter to edit",
        },
        TextSetting::RekordboxXml => TextSettingRow {
            key: "rekordbox_xml",
            label: "Rekordbox XML",
            value: config.rekordbox_xml.clone(),
            default: fresh.rekordbox_xml.clone(),
            placeholder: "/path/to/rekordbox.xml",
        },
        TextSetting::EngineDjDb => TextSettingRow {
            key: "engine_dj_db",
            label: "Engine DJ Database",
            value: config.engine_dj_db.clone(),
            default: fresh.engine_dj_db.clone(),
            placeholder: "/path/to/m.db",
        },
        TextSetting::SeratoDb => TextSettingRow {
            key: "serato_db",
            label: "Serato Database",
            value: config.serato_db.clone(),
            default: fresh.serato_db.clone(),
            placeholder: "/path/to/database V2",
        },
    };
    proof {
        reveal(TextSetting::row);
    }
    assert(row@ == s.row(*config));
    out.push(SettingItem::TextRow(row));
    assert(items_view(out@) == items_view(old(out)@).push(ItemV::TextRow(s.row(*config))));
}

/// Builds the settings list from the current configuration.
#[verifier::rlimit(40)]
pub fn build_settings(config: &AppConfig, env: &SettingsEnv) -> (out: Vec<SettingItem>)
    ensures
        items_view(out@) == setting_items(*config, *env),
{
    let d: AppConfig = AppConfig::default();
    let mut out: Vec<SettingItem> = Vec::new();
    assert(items_view(out@) == Seq::<ItemV>::empty());
    add_section(&mut out, "Audio");
    add_row(&mut out, Setting::AudioQuality, config, &d, env);
    add_row(&mut out, Setting::PreviewQuality, config, &d, env);
    add_row(&mut out, Setting::OutputDevice, config, &d, env);
    add_row(&mut out, Setting::MonitorDevice, config, &d, env);
    add_row(&mut out, Setting::MasterLimiter, config, &d, env);
    add_row(&mut out, Setting::PitchStretch, config, &d, env);
    add_section(&mut out, "Mixing");
    add_row(&mut out, Setting::BpmMode, config, &d, env);
    add_row(&mut out, Setting::SplitCue, config, &d, env);
    add_row(&mut out, Setting::CrossfadeBars, config, &d, env);
    add_row(&mut out, Setting::GlideBars, config, &d, env);
    add_row(&mut out, Setting::JumpBars, config, &d, env);
    add_row(&mut out, Setting::QuantizeOn, config, &d, env);
    add_row(&mut out, Setting::QuantizeBeats, config, &d, env);
    add_row(&mut out, Setting::TempoRange, config, &d, env);
    add_row(&mut out, Setting::NudgePercent, config, &d, env);
    add_row(&mut out, Setting::MixInPoint, config, &d, env);
    add_row(&mut out, Setting::SmartMixOut, config, &d, env);
    add_row(&mut out, Setting::TrainWreck, config, &d, env);
    add_section(&mut out, "Playback");
    add_row(&mut out, Setting::ShuffleOnPlay, config, &d, env);
    add_row(&mut out, Setting::CompactView, config, &d, env);
    add_row(&mut out, Setting::ResumeSession, config, &d, env);
    add_section(&mut out, "Analysis");
    add_row(&mut out, Setting::AiBeatDetection, config, &d, env);
    add_row(&mut out, Setting::AiGridValidation, config, &d, env);
    add_row(&mut out, Setting::AiPhraseDetection, config, &d, env);
    add_row(&mut out, Setting::AnalyzerEngine, config, &d, env);
    add_section(&mut out, "Transitions");
    add_row(&mut out, Setting::TxBeatMatched, config, &d, env);
    add_row(&mut out, Setting::TxEchoOut, config, &d, env);
    add_row(&mut out, Setting::TxBassSwap, config, &d, env);
    add_row(&mut out, Setting::TxFilterSweep, config, &d, env);
    add_row(&mut out, Setting::TxLoopRoll, config, &d, env);
    add_row(&mut out, Setting::EditRules, config, &d, env);
    add_section(&mut out, "AI DJ");
    add_row(&mut out, Setting::DjMode, config, &d, env);
    add_row(&mut out, Setting::DjCamelot, config, &d, env);
    add_row(&mut out, Setting::DjBpmGap, config, &d, env);
    add_row(&mut out, Setting::DjTransitions, config, &d, env);
    add_row(&mut out, Setting::DjStyle, config, &d, env);
    add_row(&mut out, Setting::DjQuickMix, config, &d, env);
    add_row(&mut out, Setting::DjMemory, config, &d, env);
    add_section(&mut out, "Browser");
    add_row(&mut out, Setting::Browser, config, &d, env);
    add_row(&mut out, Setting::DefaultGenre, config, &d, env);
    add_row(&mut out, Setting::FavoriteGenres, config, &d, env);
    add_section(&mut out, "Library");
    add_text_row(&mut out, TextSetting::LocalLibraryDir, config, &d);
    add_text_row(&mut out, TextSetting::RekordboxXml, config, &d);
    add_text_row(&mut out, TextSetting::EngineDjDb, config, &d);
    add_text_row(&mut out, TextSetting::SeratoDb, config, &d);
    add_section(&mut out, "Account");
    add_row(&mut out, Setting::Logout, config, &d, env);
    add_section(&mut out, "Reset");
    add_row(&mut out, Setting::ResetAll, config, &d, env);
    out
}

/// A fresh configuration shows the default choice in every row.
pub proof fn lemma_default_index(s: Setting, fresh: AppConfig, env: SettingsEnv)
    requires
        fresh.is_default(),
    ensures
        s.index(fresh, env) == s.default_index(),
{
    reveal_strlit("");
    reveal_strlit("Google Chrome");
    reveal_strlit("Safari");
    reveal_strlit("Firefox");
    reveal_strlit("Arc");
    assert("Google Chrome"@.len() == 13 && "Safari"@.len() == 6);
    assert("Firefox"@.len() == 7 && "Arc"@.len() == 3 && ""@.len() == 0);
    let names = strs(fresh.enabled_transitions@);
    assert(names[0] == "BeatMatched"@);
    assert(names[1] == "EchoOut"@);
    assert(names[2] == "BassSwap"@);
    assert(names[3] == "FilterSweep"@);
    assert(names[4] == "LoopRoll"@);
}

} // verus!
