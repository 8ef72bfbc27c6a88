//! What choosing an option leaves as it was, and what choosing it again does.
use crate::config::{AppConfig, ClaudeDjSettings};
use crate::settings::{
    enables, setting_items, transition_toggled, without, ItemV, Setting, SettingsEnv,
    TextSetting,
};
use crate::settings_laws::{chosen_option_is_shown, selectable, toggle_changes_one_transition};
use crate::text::strs;
use vstd::prelude::*;

verus! {

/// The transition that a setting switches.
spec fn transition_of(s: Setting) -> Seq<char> {
    match s {
        Setting::TxBeatMatched => "BeatMatched"@,
        Setting::TxEchoOut => "EchoOut"@,
        Setting::TxBassSwap => "BassSwap"@,
        Setting::TxFilterSweep => "FilterSweep"@,
        _ => "LoopRoll"@,
    }
}

/// The transitions have different names.
proof fn lemma_transition_names(s: Setting, t: Setting)
    requires
        s.is_transition(),
        t.is_transition(),
        s != t,
    ensures
        transition_of(s) != transition_of(t),
{
    reveal_strlit("BeatMatched");
    reveal_strlit("EchoOut");
    reveal_strlit("BassSwap");
    reveal_strlit("FilterSweep");
    reveal_strlit("LoopRoll");
    assert("BeatMatched"@[0] == 'B' && "FilterSweep"@[0] == 'F');
    assert("BassSwap"@[0] == 'B' && "LoopRoll"@[0] == 'L');
    assert("BeatMatched"@.len() == 11 && "EchoOut"@.len() == 7 && "BassSwap"@.len() == 8);
    assert("FilterSweep"@.len() == 11 && "LoopRoll"@.len() == 8);
}

/// Two configurations agree on what the row of a setting shows.
#[verifier::opaque]
spec fn agrees(t: Setting, a: AppConfig, b: AppConfig) -> bool {
    match t {
        Setting::AudioQuality => a.audio_quality == b.audio_quality,
        Setting::PreviewQuality => a.preview_quality == b.preview_quality,
        Setting::OutputDevice => a.output_device@ == b.output_device@,
        Setting::MonitorDevice => a.monitor_device@ == b.monitor_device@,
        Setting::MasterLimiter => a.master_limiter == b.master_limiter,
        Setting::PitchStretch => a.pitch_stretch_engine == b.pitch_stretch_engine,
        Setting::BpmMode => a.bpm_mode == b.bpm_mode,
        Setting::SplitCue => a.split_cue == b.split_cue,
        Setting::CrossfadeBars => a.crossfade_bars == b.crossfade_bars && a.crossfade_bars_auto
            == b.crossfade_bars_auto,
        Setting::GlideBars => a.glide_bars == b.glide_bars,
        Setting::JumpBars => a.jump_bars == b.jump_bars,
        Setting::QuantizeOn => a.quantize_on == b.quantize_on,
        Setting::QuantizeBeats => a.quantize_beats == b.quantize_beats,
        Setting::TempoRange => a.tempo_range == b.tempo_range,
        Setting::NudgePercent => a.nudge_percent == b.nudge_percent,
        Setting::MixInPoint => a.mix_in_point == b.mix_in_point,
        Setting::SmartMixOut => a.smart_mix_out == b.smart_mix_out,
        Setting::TrainWreck => a.train_wreck_mode == b.train_wreck_mode,
        Setting::ShuffleOnPlay => a.shuffle_on_play == b.shuffle_on_play,
        Setting::CompactView => a.compact_view == b.compact_view,
        Setting::ResumeSession => a.resume_behavior == b.resume_behavior,
        Setting::AiBeatDetection => a.ai_beat_detection == b.ai_beat_detection,
        Setting::AiGridValidation => a.ai_grid_validation == b.ai_grid_validation,
        Setting::AiPhraseDetection => a.ai_phrase_detection == b.ai_phrase_detection,
        Setting::AnalyzerEngine => a.analyzer_engine == b.analyzer_engine,
        Setting::TxBeatMatched
        | Setting::TxEchoOut
        | Setting::TxBassSwap
        | Setting::TxFilterSweep
        | Setting::TxLoopRoll => enables(a, transition_of(t)) == enables(b, transition_of(t)),
        Setting::DjMode => a.claude_dj.mode == b.claude_dj.mode,
        Setting::DjCamelot => a.claude_dj.camelot_strictness == b.claude_dj.camelot_strictness,
        Setting::DjBpmGap => a.claude_dj.bpm_gap_strictness == b.claude_dj.bpm_gap_strictness,
        Setting::DjTransitions => a.claude_dj.transition_picker == b.claude_dj.transition_picker,
        Setting::DjStyle => a.claude_dj.style == b.claude_dj.style,
        Setting::DjQuickMix => a.claude_dj.quick_mix == b.claude_dj.quick_mix,
        Setting::DjMemory => a.claude_dj.memory_enabled == b.claude_dj.memory_enabled,
        Setting::Browser => a.browser@ == b.browser@,
        Setting::DefaultGenre => a.default_genre@ == b.default_genre@,
        Setting::FavoriteGenres => a.favorite_genres@.len() == b.favorite_genres@.len(),
        Setting::EditRules | Setting::Logout | Setting::ResetAll => true,
    }
}

#[verifier::spinoff_prover]
#[verifier::rlimit(60)]
proof fn lemma_agreeing_rows(t: Setting, env: SettingsEnv, a: AppConfig, b: AppConfig)
    requires
        agrees(t, a, b),
    ensures
        t.index(a, env) == t.index(b, env),
        t.options(a, env) == t.options(b, env),
        t.row(a, env) == t.row(b, env),
{
    reveal(agrees);
    reveal(Setting::row);
}

#[verifier::spinoff_prover]
#[verifier::rlimit(40)]
proof fn lemma_audio_agrees(
    s: Setting,
    t: Setting,
    idx: usize,
    env: SettingsEnv,
    old_c: AppConfig,
    new_c: AppConfig,
)
    requires
        s.applied(idx, env, old_c, new_c),
        s.is_audio() && !(s is OutputDevice) && !(s is MonitorDevice),
        s != t,
    ensures
        agrees(t, old_c, new_c),
{
    reveal(Setting::audio_applied);
    reveal(agrees);
}

proof fn lemma_output_agrees(
    t: Setting,
    idx: usize,
    env: SettingsEnv,
    old_c: AppConfig,
    new_c: AppConfig,
)
    requires
        Setting::OutputDevice.applied(idx, env, old_c, new_c),
        t != Setting::OutputDevice,
    ensures
        agrees(t, old_c, new_c),
{
    reveal(Setting::audio_applied);
    reveal(agrees);
}

proof fn lemma_monitor_agrees(
    t: Setting,
    idx: usize,
    env: SettingsEnv,
    old_c: AppConfig,
    new_c: AppConfig,
)
    requires
        Setting::MonitorDevice.applied(idx, env, old_c, new_c),
        t != Setting::MonitorDevice,
    ensures
        agrees(t, old_c, new_c),
{
    reveal(Setting::audio_applied);
    reveal(agrees);
}

#[verifier::spinoff_prover]
#[verifier::rlimit(40)]
proof fn lemma_bars_agrees(
    s: Setting,
    t: Setting,
    idx: usize,
    env: SettingsEnv,
    old_c: AppConfig,
    new_c: AppConfig,
)
    requires
        s.applied(idx, env, old_c, new_c),
        s.is_bars(),
        s != t,
    ensures
        agrees(t, old_c, new_c),
{
    reveal(Setting::bars_applied);
    reveal(agrees);
}

#[verifier::spinoff_prover]
#[verifier::rlimit(40)]
proof fn lemma_mixing_agrees(
    s: Setting,
    t: Setting,
    idx: usize,
    env: SettingsEnv,
    old_c: AppConfig,
    new_c: AppConfig,
)
    requires
        s.applied(idx, env, old_c, new_c),
        s.is_mixing(),
        s != t,
    ensures
        agrees(t, old_c, new_c),
{
    reveal(Setting::mixing_applied);
    reveal(agrees);
}

#[verifier::spinoff_prover]
#[verifier::rlimit(40)]
proof fn lemma_playback_agrees(
    s: Setting,
    t: Setting,
    idx: usize,
    env: SettingsEnv,
    old_c: AppConfig,
    new_c: AppConfig,
)
    requires
        s.applied(idx, env, old_c, new_c),
        s.is_playback(),
        s != t,
    ensures
        agrees(t, old_c, new_c),
{
    reveal(Setting::playback_applied);
    reveal(agrees);
}

#[verifier::spinoff_prover]
#[verifier::rlimit(40)]
proof fn lemma_transition_agrees(
    s: Setting,
    t: Setting,
    idx: usize,
    env: SettingsEnv,
    old_c: AppConfig,
    new_c: AppConfig,
)
    requires
        s.applied(idx, env, old_c, new_c),
        s.is_transition(),
        s != t,
    ensures
        agrees(t, old_c, new_c),
{
    reveal(Setting::transition_applied);
    reveal(agrees);
    if t.is_transition() {
        lemma_transition_names(s, t);
        toggle_changes_one_transition(old_c, new_c, transition_of(s), idx == 1, transition_of(t));
    }
}

#[verifier::spinoff_prover]
#[verifier::rlimit(40)]
proof fn lemma_dj_agrees(
    s: Setting,
    t: Setting,
    idx: usize,
    env: SettingsEnv,
    old_c: AppConfig,
    new_c: AppConfig,
)
    requires
        s.applied(idx, env, old_c, new_c),
        s.is_dj(),
        s != t,
    ensures
        agrees(t, old_c, new_c),
{
    reveal(Setting::dj_applied);
    reveal(agrees);
}

#[verifier::spinoff_prover]
#[verifier::rlimit(40)]
proof fn lemma_other_agrees(
    s: Setting,
    t: Setting,
    idx: usize,
    env: SettingsEnv,
    old_c: AppConfig,
    new_c: AppConfig,
)
    requires
        s.applied(idx, env, old_c, new_c),
        !s.is_audio() && !s.is_bars() && !s.is_mixing(),
        !s.is_playback() && !s.is_transition() && !s.is_dj(),
        !(s is ResetAll),
        s != t,
    ensures
        agrees(t, old_c, new_c),
{
    reveal(Setting::other_applied);
    reveal(agrees);
}

/// Choosing an option of a setting leaves the row of every other setting as it
/// was: its options and the one in force.
pub proof fn other_rows_stay(
    s: Setting,
    t: Setting,
    idx: usize,
    env: SettingsEnv,
    old_c: AppConfig,
    new_c: AppConfig,
)
    requires
        s.applied(idx, env, old_c, new_c),
        !(s is ResetAll),
        s != t,
    ensures
        t.index(new_c, env) == t.index(old_c, env),
        t.options(new_c, env) == t.options(old_c, env),
        t.row(new_c, env) == t.row(old_c, env),
{
    if s is OutputDevice {
        lemma_output_agrees(t, idx, env, old_c, new_c);
    } else if s is MonitorDevice {
        lemma_monitor_agrees(t, idx, env, old_c, new_c);
    } else if s.is_audio() {
        lemma_audio_agrees(s, t, idx, env, old_c, new_c);
    } else if s.is_bars() {
        lemma_bars_agrees(s, t, idx, env, old_c, new_c);
    } else if s.is_mixing() {
        lemma_mixing_agrees(s, t, idx, env, old_c, new_c);
    } else if s.is_playback() {
        lemma_playback_agrees(s, t, idx, env, old_c, new_c);
    } else if s.is_transition() {
        lemma_transition_agrees(s, t, idx, env, old_c, new_c);
    } else if s.is_dj() {
        lemma_dj_agrees(s, t, idx, env, old_c, new_c);
    } else {
        lemma_other_agrees(s, t, idx, env, old_c, new_c);
    }
    lemma_agreeing_rows(t, env, old_c, new_c);
}

/// Choosing an option leaves every text as it was.
pub proof fn texts_stay(
    s: Setting,
    t: TextSetting,
    idx: usize,
    env: SettingsEnv,
    old_c: AppConfig,
    new_c: AppConfig,
)
    requires
        s.applied(idx, env, old_c, new_c),
        !(s is ResetAll),
    ensures
        t.text(new_c) == t.text(old_c),
        t.row(new_c) == t.row(old_c),
{
    reveal(Setting::audio_applied);
    reveal(Setting::bars_applied);
    reveal(Setting::mixing_applied);
    reveal(Setting::playback_applied);
    reveal(Setting::transition_applied);
    reveal(Setting::dj_applied);
    reveal(Setting::other_applied);
    reveal(TextSetting::row);
}

/// Writing a text leaves every choice as it was.
pub proof fn text_keeps_choices(
    s: TextSetting,
    value: String,
    t: Setting,
    env: SettingsEnv,
    c: AppConfig,
)
    ensures
        t.row(s.applied(value, c), env) == t.row(c, env),
{
    reveal(agrees);
    lemma_agreeing_rows(t, env, s.applied(value, c), c);
}

/// Writing a text shows it, and leaves every other text as it was.
pub proof fn text_changes_one_row(s: TextSetting, t: TextSetting, value: String, c: AppConfig)
    ensures
        s.text(s.applied(value, c)) == value@,
        s != t ==> t.row(s.applied(value, c)) == t.row(c),
{
    reveal(TextSetting::row);
}

/// Choosing an option changes no item of the list but the row of its setting.
pub proof fn list_changes_in_one_row(
    s: Setting,
    idx: usize,
    env: SettingsEnv,
    old_c: AppConfig,
    new_c: AppConfig,
    i: int,
)
    requires
        s.applied(idx, env, old_c, new_c),
        !(s is ResetAll),
        0 <= i < setting_items(old_c, env).len(),
    ensures
        setting_items(new_c, env).len() == setting_items(old_c, env).len(),
        setting_items(new_c, env)[i] == setting_items(old_c, env)[i] || (setting_items(
            old_c,
            env,
        )[i] == ItemV::Row(s.row(old_c, env)) && setting_items(new_c, env)[i] == ItemV::Row(
            s.row(new_c, env),
        )),
{
    assert forall|t: Setting| s != t implies #[trigger] t.row(new_c, env) == t.row(old_c, env) by {
        other_rows_stay(s, t, idx, env, old_c, new_c);
    }
    assert forall|t: TextSetting| #[trigger] t.row(new_c) == t.row(old_c) by {
        texts_stay(s, t, idx, env, old_c, new_c);
    }
}

/// Two configurations hold the same.
pub open spec fn same_config(a: AppConfig, b: AppConfig) -> bool {
    &&& b == (AppConfig {
        output_device: b.output_device,
        monitor_device: b.monitor_device,
        enabled_transitions: b.enabled_transitions,
        browser: b.browser,
        default_genre: b.default_genre,
        favorite_genres: b.favorite_genres,
        local_library_dir: b.local_library_dir,
        rekordbox_xml: b.rekordbox_xml,
        engine_dj_db: b.engine_dj_db,
        serato_db: b.serato_db,
        global_keys: b.global_keys,
        ..a
    })
    &&& a.output_device@ == b.output_device@
    &&& a.monitor_device@ == b.monitor_device@
    &&& strs(a.enabled_transitions@) == strs(b.enabled_transitions@)
    &&& a.browser@ == b.browser@
    &&& a.default_genre@ == b.default_genre@
    &&& strs(a.favorite_genres@) == strs(b.favorite_genres@)
    &&& a.local_library_dir@ == b.local_library_dir@
    &&& a.rekordbox_xml@ == b.rekordbox_xml@
    &&& a.engine_dj_db@ == b.engine_dj_db@
    &&& a.serato_db@ == b.serato_db@
    &&& a.global_keys@.len() == b.global_keys@.len()
    &&& forall|i: int|
        0 <= i < a.global_keys@.len() ==> (#[trigger] a.global_keys@[i]).0@
            == b.global_keys@[i].0@ && a.global_keys@[i].1@ == b.global_keys@[i].1@
}

proof fn lemma_without_twice(list: Seq<Seq<char>>, name: Seq<char>)
    ensures
        without(without(list, name), name) == without(list, name),
    decreases list.len(),
{
    if list.len() > 0 {
        let rest = without(list.drop_last(), name);
        lemma_without_twice(list.drop_last(), name);
        if list.last() != name {
            assert(rest.push(list.last()).drop_last() =~= rest);
        }
    }
}

proof fn lemma_toggled_twice(
    a: AppConfig,
    b: AppConfig,
    c: AppConfig,
    name: Seq<char>,
    on: bool,
)
    requires
        transition_toggled(a, b, name, on),
        transition_toggled(b, c, name, on),
    ensures
        same_config(b, c),
{
    let before = strs(a.enabled_transitions@);
    if on {
        toggle_changes_one_transition(a, b, name, on, name);
    } else {
        lemma_without_twice(before, name);
    }
}

/// The settings that hold a text.
spec fn holds_text(s: Setting) -> bool {
    s is OutputDevice || s is MonitorDevice || s is Browser || s is ResetAll || s.is_transition()
}

#[verifier::spinoff_prover]
#[verifier::rlimit(40)]
proof fn again_audio(
    s: Setting,
    idx: usize,
    env: SettingsEnv,
    first: AppConfig,
    once: AppConfig,
    twice: AppConfig,
)
    requires
        s.applied(idx, env, first, once),
        s.applied(idx, env, once, twice),
        s.is_audio(),
        !holds_text(s),
    ensures
        once == twice,
{
    reveal(Setting::audio_applied);
}

#[verifier::spinoff_prover]
#[verifier::rlimit(40)]
proof fn again_bars(
    s: Setting,
    idx: usize,
    env: SettingsEnv,
    first: AppConfig,
    once: AppConfig,
    twice: AppConfig,
)
    requires
        s.applied(idx, env, first, once),
        s.applied(idx, env, once, twice),
        s.is_bars(),
        !holds_text(s),
    ensures
        once == twice,
{
    reveal(Setting::bars_applied);
}

#[verifier::spinoff_prover]
#[verifier::rlimit(40)]
proof fn again_mixing(
    s: Setting,
    idx: usize,
    env: SettingsEnv,
    first: AppConfig,
    once: AppConfig,
    twice: AppConfig,
)
    requires
        s.applied(idx, env, first, once),
        s.applied(idx, env, once, twice),
        s.is_mixing(),
        !holds_text(s),
    ensures
        once == twice,
{
    reveal(Setting::mixing_applied);
}

#[verifier::spinoff_prover]
#[verifier::rlimit(40)]
proof fn again_playback(
    s: Setting,
    idx: usize,
    env: SettingsEnv,
    first: AppConfig,
    once: AppConfig,
    twice: AppConfig,
)
    requires
        s.applied(idx, env, first, once),
        s.applied(idx, env, once, twice),
        s.is_playback(),
        !holds_text(s),
    ensures
        once == twice,
{
    reveal(Setting::playback_applied);
}

proof fn lemma_dj_chosen_twice(s: Setting, idx: usize, d: ClaudeDjSettings)
    ensures
        s.dj_chosen(idx, s.dj_chosen(idx, d)) == s.dj_chosen(idx, d),
{
}

#[verifier::spinoff_prover]
#[verifier::rlimit(40)]
proof fn again_dj(
    s: Setting,
    idx: usize,
    env: SettingsEnv,
    first: AppConfig,
    once: AppConfig,
    twice: AppConfig,
)
    requires
        s.applied(idx, env, first, once),
        s.applied(idx, env, once, twice),
        s.is_dj(),
        !holds_text(s),
    ensures
        once == twice,
{
    reveal(Setting::dj_applied);
    lemma_dj_chosen_twice(s, idx, first.claude_dj);
    assert(once.claude_dj == twice.claude_dj);
}

#[verifier::spinoff_prover]
#[verifier::rlimit(40)]
proof fn again_other(
    s: Setting,
    idx: usize,
    env: SettingsEnv,
    first: AppConfig,
    once: AppConfig,
    twice: AppConfig,
)
    requires
        s.applied(idx, env, first, once),
        s.applied(idx, env, once, twice),
        !s.is_audio() && !s.is_bars() && !s.is_mixing(),
        !s.is_playback() && !s.is_transition() && !s.is_dj(),
        !holds_text(s),
    ensures
        once == twice,
{
    reveal(Setting::other_applied);
}

proof fn again_output(
    idx: usize,
    env: SettingsEnv,
    first: AppConfig,
    once: AppConfig,
    twice: AppConfig,
)
    requires
        Setting::OutputDevice.applied(idx, env, first, once),
        Setting::OutputDevice.applied(idx, env, once, twice),
    ensures
        same_config(once, twice),
{
    reveal(Setting::audio_applied);
}

proof fn again_monitor(
    idx: usize,
    env: SettingsEnv,
    first: AppConfig,
    once: AppConfig,
    twice: AppConfig,
)
    requires
        Setting::MonitorDevice.applied(idx, env, first, once),
        Setting::MonitorDevice.applied(idx, env, once, twice),
    ensures
        same_config(once, twice),
{
    reveal(Setting::audio_applied);
}

proof fn again_browser(
    idx: usize,
    env: SettingsEnv,
    first: AppConfig,
    once: AppConfig,
    twice: AppConfig,
)
    requires
        Setting::Browser.applied(idx, env, first, once),
        Setting::Browser.applied(idx, env, once, twice),
    ensures
        same_config(once, twice),
{
    reveal(Setting::other_applied);
}

proof fn again_reset(
    idx: usize,
    env: SettingsEnv,
    first: AppConfig,
    once: AppConfig,
    twice: AppConfig,
)
    requires
        Setting::ResetAll.applied(idx, env, first, once),
        Setting::ResetAll.applied(idx, env, once, twice),
    ensures
        same_config(once, twice),
{
    reveal(Setting::other_applied);
    assert(strs(once.favorite_genres@) =~= strs(twice.favorite_genres@));
}

proof fn again_transition(
    s: Setting,
    idx: usize,
    env: SettingsEnv,
    first: AppConfig,
    once: AppConfig,
    twice: AppConfig,
)
    requires
        s.applied(idx, env, first, once),
        s.applied(idx, env, once, twice),
        s.is_transition(),
    ensures
        same_config(once, twice),
{
    reveal(Setting::transition_applied);
    lemma_toggled_twice(first, once, twice, transition_of(s), idx == 1);
}

/// Choosing the same option again changes nothing more.
pub proof fn choosing_again_changes_nothing(
    s: Setting,
    idx: usize,
    env: SettingsEnv,
    first: AppConfig,
    once: AppConfig,
    twice: AppConfig,
)
    requires
        s.applied(idx, env, first, once),
        s.applied(idx, env, once, twice),
    ensures
        same_config(once, twice),
{
    if s is OutputDevice {
        again_output(idx, env, first, once, twice);
    } else if s is MonitorDevice {
        again_monitor(idx, env, first, once, twice);
    } else if s is Browser {
        again_browser(idx, env, first, once, twice);
    } else if s is ResetAll {
        again_reset(idx, env, first, once, twice);
    } else if s.is_transition() {
        again_transition(s, idx, env, first, once, twice);
    } else if s.is_audio() {
        again_audio(s, idx, env, first, once, twice);
    } else if s.is_bars() {
        again_bars(s, idx, env, first, once, twice);
    } else if s.is_mixing() {
        again_mixing(s, idx, env, first, once, twice);
    } else if s.is_playback() {
        again_playback(s, idx, env, first, once, twice);
    } else if s.is_dj() {
        again_dj(s, idx, env, first, once, twice);
    } else {
        again_other(s, idx, env, first, once, twice);
    }
}

/// Choosing the option of a fresh configuration takes the mark of a change from
/// the row.
pub proof fn default_is_no_change(
    s: Setting,
    env: SettingsEnv,
    old_c: AppConfig,
    new_c: AppConfig,
)
    requires
        s.applied(s.default_index() as usize, env, old_c, new_c),
        s.default_index() < s.options(old_c, env).len(),
        selectable(s, s.default_index(), env),
    ensures
        s.row(new_c, env).current_idx == s.row(new_c, env).default_idx,
{
    reveal(Setting::row);
    chosen_option_is_shown(s, s.default_index() as usize, env, old_c, new_c);
}

} // verus!
