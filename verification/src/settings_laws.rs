//! What holds of the settings as a whole.
use crate::config::AppConfig;
use crate::settings::{
    browser_index, device_index, enables, is_first_device, lemma_without, setting_of,
    text_setting_of, without, ItemV, Setting, SettingsEnv, TextSetting,
};
use crate::settings_list::{clip_line, cut_line, focusable, focused_line, is_focused, scroll_for};
use crate::style::{line_width, span, Color, SpanV, Style};
use crate::text::{max_of, strs};
use vstd::prelude::*;

verus! {

/// Three marks that tell the keys of all settings apart.
#[verifier::opaque]
spec fn key_marks(s: Seq<char>) -> (char, char, nat) {
    (s[0], s[3], s.len())
}

proof fn lemma_key_marks()
    ensures
        key_marks("audio_quality"@) == ('a', 'i', 13nat),
        key_marks("preview_quality"@) == ('p', 'v', 15nat),
        key_marks("output_device"@) == ('o', 'p', 13nat),
        key_marks("monitor_device"@) == ('m', 'i', 14nat),
        key_marks("master_limiter"@) == ('m', 't', 14nat),
        key_marks("pitch_stretch"@) == ('p', 'c', 13nat),
        key_marks("bpm_mode"@) == ('b', '_', 8nat),
        key_marks("split_cue"@) == ('s', 'i', 9nat),
        key_marks("crossfade_bars"@) == ('c', 's', 14nat),
        key_marks("glide_bars"@) == ('g', 'd', 10nat),
        key_marks("jump_bars"@) == ('j', 'p', 9nat),
        key_marks("quantize_on"@) == ('q', 'n', 11nat),
        key_marks("quantize_beats"@) == ('q', 'n', 14nat),
        key_marks("tempo_range"@) == ('t', 'p', 11nat),
        key_marks("nudge_percent"@) == ('n', 'g', 13nat),
        key_marks("mix_in_point"@) == ('m', '_', 12nat),
        key_marks("smart_mix_out"@) == ('s', 'r', 13nat),
        key_marks("train_wreck"@) == ('t', 'i', 11nat),
        key_marks("shuffle_on_play"@) == ('s', 'f', 15nat),
        key_marks("compact_view"@) == ('c', 'p', 12nat),
        key_marks("resume_session"@) == ('r', 'u', 14nat),
        key_marks("ai_beat_detection"@) == ('a', 'b', 17nat),
        key_marks("ai_grid_validation"@) == ('a', 'g', 18nat),
        key_marks("ai_phrase_detection"@) == ('a', 'p', 19nat),
        key_marks("analyzer_engine"@) == ('a', 'l', 15nat),
        key_marks("tx_beatmatched"@) == ('t', 'b', 14nat),
        key_marks("tx_echoout"@) == ('t', 'e', 10nat),
        key_marks("tx_bassswap"@) == ('t', 'b', 11nat),
        key_marks("tx_filtersweep"@) == ('t', 'f', 14nat),
        key_marks("tx_looproll"@) == ('t', 'l', 11nat),
        key_marks("edit_rules"@) == ('e', 't', 10nat),
        key_marks("dj_mode"@) == ('d', 'm', 7nat),
        key_marks("dj_camelot"@) == ('d', 'c', 10nat),
        key_marks("dj_bpm_gap"@) == ('d', 'b', 10nat),
        key_marks("dj_transitions"@) == ('d', 't', 14nat),
        key_marks("dj_style"@) == ('d', 's', 8nat),
        key_marks("dj_quick_mix"@) == ('d', 'q', 12nat),
        key_marks("dj_memory"@) == ('d', 'm', 9nat),
        key_marks("browser"@) == ('b', 'w', 7nat),
        key_marks("default_genre"@) == ('d', 'a', 13nat),
        key_marks("favorite_genres"@) == ('f', 'o', 15nat),
        key_marks("logout"@) == ('l', 'o', 6nat),
        key_marks("__reset_all__"@) == ('_', 'e', 13nat),
        key_marks("local_library_dir"@) == ('l', 'a', 17nat),
        key_marks("rekordbox_xml"@) == ('r', 'o', 13nat),
        key_marks("engine_dj_db"@) == ('e', 'i', 12nat),
        key_marks("serato_db"@) == ('s', 'a', 9nat),
{
    reveal(key_marks);
    reveal_strlit("audio_quality");
    reveal_strlit("preview_quality");
    reveal_strlit("output_device");
    reveal_strlit("monitor_device");
    reveal_strlit("master_limiter");
    reveal_strlit("pitch_stretch");
    reveal_strlit("bpm_mode");
    reveal_strlit("split_cue");
    reveal_strlit("crossfade_bars");
    reveal_strlit("glide_bars");
    reveal_strlit("jump_bars");
    reveal_strlit("quantize_on");
    reveal_strlit("quantize_beats");
    reveal_strlit("tempo_range");
    reveal_strlit("nudge_percent");
    reveal_strlit("mix_in_point");
    reveal_strlit("smart_mix_out");
    reveal_strlit("train_wreck");
    reveal_strlit("shuffle_on_play");
    reveal_strlit("compact_view");
    reveal_strlit("resume_session");
    reveal_strlit("ai_beat_detection");
    reveal_strlit("ai_grid_validation");
    reveal_strlit("ai_phrase_detection");
    reveal_strlit("analyzer_engine");
    reveal_strlit("tx_beatmatched");
    reveal_strlit("tx_echoout");
    reveal_strlit("tx_bassswap");
    reveal_strlit("tx_filtersweep");
    reveal_strlit("tx_looproll");
    reveal_strlit("edit_rules");
    reveal_strlit("dj_mode");
    reveal_strlit("dj_camelot");
    reveal_strlit("dj_bpm_gap");
    reveal_strlit("dj_transitions");
    reveal_strlit("dj_style");
    reveal_strlit("dj_quick_mix");
    reveal_strlit("dj_memory");
    reveal_strlit("browser");
    reveal_strlit("default_genre");
    reveal_strlit("favorite_genres");
    reveal_strlit("logout");
    reveal_strlit("__reset_all__");
    reveal_strlit("local_library_dir");
    reveal_strlit("rekordbox_xml");
    reveal_strlit("engine_dj_db");
    reveal_strlit("serato_db");
}

/// Every row has a key of its own: the key of a setting leads back to it, and
/// to no text setting.
pub proof fn setting_keys_are_distinct(s: Setting)
    ensures
        setting_of(s.spec_key()@) == Some(s),
        text_setting_of(s.spec_key()@) is None,
{
    lemma_key_marks();
}

/// Every text row has a key of its own, which is the key of no setting.
pub proof fn text_setting_keys_are_distinct(s: TextSetting)
    ensures
        text_setting_of(s.spec_key()@) == Some(s),
        setting_of(s.spec_key()@) is None,
{
    lemma_key_marks();
}

proof fn lemma_names()
    ensures
        browser_index("Safari"@) == 1,
        browser_index("Firefox"@) == 2,
        browser_index("Arc"@) == 3,
        browser_index("Google Chrome"@) == 0,
        "BeatMatched"@.len() == 11 && "EchoOut"@.len() == 7 && "BassSwap"@.len() == 8
            && "FilterSweep"@.len() == 11 && "LoopRoll"@.len() == 8,
        "BeatMatched"@[0] == 'B' && "FilterSweep"@[0] == 'F',
        "BassSwap"@[0] == 'B' && "LoopRoll"@[0] == 'L',
{
    reveal_strlit("Safari");
    reveal_strlit("Firefox");
    reveal_strlit("Arc");
    reveal_strlit("Google Chrome");
    assert("Google Chrome"@.len() == 13 && "Safari"@.len() == 6);
    assert("Firefox"@.len() == 7 && "Arc"@.len() == 3);
    reveal_strlit("BeatMatched");
    reveal_strlit("EchoOut");
    reveal_strlit("BassSwap");
    reveal_strlit("FilterSweep");
    reveal_strlit("LoopRoll");
}

/// Switching one transition leaves every other one as it was.
pub proof fn toggle_changes_one_transition(
    old_c: AppConfig,
    new_c: AppConfig,
    name: Seq<char>,
    on: bool,
    other: Seq<char>,
)
    requires
        crate::settings::transition_toggled(old_c, new_c, name, on),
    ensures
        enables(new_c, name) == on,
        other != name ==> enables(new_c, other) == enables(old_c, other),
{
    let before = strs(old_c.enabled_transitions@);
    let after = strs(new_c.enabled_transitions@);
    if on {
        if !enables(old_c, name) {
            assert(after[before.len() as int] == name);
            if before.contains(other) {
                let i = choose|i: int| 0 <= i < before.len() && before[i] == other;
                assert(after[i] == other);
            }
            if other != name && after.contains(other) {
                let i = choose|i: int| 0 <= i < after.len() && after[i] == other;
                assert(before[i] == other);
            }
        }
    } else {
        lemma_without(before, name, name);
        lemma_without(before, name, other);
    }
}

/// Switching a transition on or off never makes a name stand twice.
pub proof fn toggle_keeps_transitions_unique(
    old_c: AppConfig,
    new_c: AppConfig,
    name: Seq<char>,
    on: bool,
)
    requires
        crate::settings::transition_toggled(old_c, new_c, name, on),
        strs(old_c.enabled_transitions@).no_duplicates(),
    ensures
        strs(new_c.enabled_transitions@).no_duplicates(),
{
    let before = strs(old_c.enabled_transitions@);
    if on {
        if !enables(old_c, name) {
            let after = before.push(name);
            assert forall|i: int, j: int|
                0 <= i < after.len() && 0 <= j < after.len() && i != j implies after[i]
                != after[j] by {
                if i < before.len() && j < before.len() {
                    assert(before[i] != before[j]);
                } else if i < before.len() {
                    assert(before[i] != name);
                } else {
                    assert(before[j] != name);
                }
            }
        }
    } else {
        lemma_without_unique(before, name);
    }
}

proof fn lemma_without_unique(list: Seq<Seq<char>>, name: Seq<char>)
    requires
        list.no_duplicates(),
    ensures
        without(list, name).no_duplicates(),
    decreases list.len(),
{
    if list.len() > 0 {
        let rest = list.drop_last();
        assert forall|i: int, j: int|
            0 <= i < rest.len() && 0 <= j < rest.len() && i != j implies rest[i] != rest[j] by {
            assert(list[i] != list[j]);
        }
        lemma_without_unique(rest, name);
        if list.last() != name {
            let w = without(rest, name);
            lemma_without(rest, name, list.last());
            assert(!rest.contains(list.last())) by {
                if rest.contains(list.last()) {
                    let i = choose|i: int| 0 <= i < rest.len() && rest[i] == list.last();
                    assert(list[i] != list[list.len() - 1]);
                }
            }
            assert forall|i: int, j: int|
                0 <= i < w.len() + 1 && 0 <= j < w.len() + 1 && i != j implies w.push(
                list.last(),
            )[i] != w.push(list.last())[j] by {
                if i == w.len() {
                    assert(w[j] != list.last());
                } else if j == w.len() {
                    assert(w[i] != list.last());
                }
            }
        }
    }
}

/// The option can be chosen in this build, and a device in it is told apart
/// by its name.
pub open spec fn selectable(s: Setting, idx: int, env: SettingsEnv) -> bool {
    let devices = strs(env.devices@);
    match s {
        Setting::PitchStretch => !(idx == 1 && !env.rubberband) && !(idx == 2 && !env.timestretch),
        Setting::OutputDevice | Setting::MonitorDevice => idx > 0 ==> devices[idx - 1].len() > 0
            && is_first_device(devices, devices[idx - 1], idx - 1),
        _ => true,
    }
}

/// After an option was chosen, its row shows that option as the current one.
pub proof fn chosen_option_is_shown(
    s: Setting,
    idx: usize,
    env: SettingsEnv,
    old_c: AppConfig,
    new_c: AppConfig,
)
    requires
        s.applied(idx, env, old_c, new_c),
        idx < s.options(old_c, env).len(),
        selectable(s, idx as int, env),
    ensures
        s.index(new_c, env) == idx,
{
    match s {
        Setting::AudioQuality => {
            shown_audio_quality(idx, env, old_c, new_c);
        },
        Setting::PreviewQuality => {
            shown_preview_quality(idx, env, old_c, new_c);
        },
        Setting::OutputDevice => {
            shown_output_device(idx, env, old_c, new_c);
        },
        Setting::MonitorDevice => {
            shown_monitor_device(idx, env, old_c, new_c);
        },
        Setting::MasterLimiter => {
            shown_master_limiter(idx, env, old_c, new_c);
        },
        Setting::PitchStretch => {
            shown_pitch_stretch(idx, env, old_c, new_c);
        },
        Setting::BpmMode => {
            shown_bpm_mode(idx, env, old_c, new_c);
        },
        Setting::SplitCue => {
            shown_split_cue(idx, env, old_c, new_c);
        },
        Setting::CrossfadeBars => {
            shown_crossfade_bars(idx, env, old_c, new_c);
        },
        Setting::GlideBars => {
            shown_glide_bars(idx, env, old_c, new_c);
        },
        Setting::JumpBars => {
            shown_jump_bars(idx, env, old_c, new_c);
        },
        Setting::QuantizeOn => {
            shown_quantize_on(idx, env, old_c, new_c);
        },
        Setting::QuantizeBeats => {
            shown_quantize_beats(idx, env, old_c, new_c);
        },
        Setting::TempoRange => {
            shown_tempo_range(idx, env, old_c, new_c);
        },
        Setting::NudgePercent => {
            shown_nudge_percent(idx, env, old_c, new_c);
        },
        Setting::MixInPoint => {
            shown_mix_in_point(idx, env, old_c, new_c);
        },
        Setting::SmartMixOut => {
            shown_smart_mix_out(idx, env, old_c, new_c);
        },
        Setting::TrainWreck => {
            shown_train_wreck(idx, env, old_c, new_c);
        },
        Setting::ShuffleOnPlay => {
            shown_shuffle_on_play(idx, env, old_c, new_c);
        },
        Setting::CompactView => {
            shown_compact_view(idx, env, old_c, new_c);
        },
        Setting::ResumeSession => {
            shown_resume_session(idx, env, old_c, new_c);
        },
        Setting::AiBeatDetection => {
            shown_ai_beat_detection(idx, env, old_c, new_c);
        },
        Setting::AiGridValidation => {
            shown_ai_grid_validation(idx, env, old_c, new_c);
        },
        Setting::AiPhraseDetection => {
            shown_ai_phrase_detection(idx, env, old_c, new_c);
        },
        Setting::AnalyzerEngine => {
            shown_analyzer_engine(idx, env, old_c, new_c);
        },
        Setting::TxBeatMatched => {
            shown_tx_beat_matched(idx, env, old_c, new_c);
        },
        Setting::TxEchoOut => {
            shown_tx_echo_out(idx, env, old_c, new_c);
        },
        Setting::TxBassSwap => {
            shown_tx_bass_swap(idx, env, old_c, new_c);
        },
        Setting::TxFilterSweep => {
            shown_tx_filter_sweep(idx, env, old_c, new_c);
        },
        Setting::TxLoopRoll => {
            shown_tx_loop_roll(idx, env, old_c, new_c);
        },
        Setting::EditRules => {
            shown_edit_rules(idx, env, old_c, new_c);
        },
        Setting::DjMode => {
            shown_dj_mode(idx, env, old_c, new_c);
        },
        Setting::DjCamelot => {
            shown_dj_camelot(idx, env, old_c, new_c);
        },
        Setting::DjBpmGap => {
            shown_dj_bpm_gap(idx, env, old_c, new_c);
        },
        Setting::DjTransitions => {
            shown_dj_transitions(idx, env, old_c, new_c);
        },
        Setting::DjStyle => {
            shown_dj_style(idx, env, old_c, new_c);
        },
        Setting::DjQuickMix => {
            shown_dj_quick_mix(idx, env, old_c, new_c);
        },
        Setting::DjMemory => {
            shown_dj_memory(idx, env, old_c, new_c);
        },
        Setting::Browser => {
            shown_browser(idx, env, old_c, new_c);
        },
        Setting::DefaultGenre => {
            shown_default_genre(idx, env, old_c, new_c);
        },
        Setting::FavoriteGenres => {
            shown_favorite_genres(idx, env, old_c, new_c);
        },
        Setting::Logout => {
            shown_logout(idx, env, old_c, new_c);
        },
        Setting::ResetAll => {
            shown_reset_all(idx, env, old_c, new_c);
        },
    }
}

proof fn shown_audio_quality(idx: usize, env: SettingsEnv, old_c: AppConfig, new_c: AppConfig)
    requires
        Setting::AudioQuality.applied(idx, env, old_c, new_c),
        idx < Setting::AudioQuality.options(old_c, env).len(),
        selectable(Setting::AudioQuality, idx as int, env),
    ensures
        Setting::AudioQuality.index(new_c, env) == idx,
{
    reveal(Setting::audio_applied);
}

proof fn shown_preview_quality(idx: usize, env: SettingsEnv, old_c: AppConfig, new_c: AppConfig)
    requires
        Setting::PreviewQuality.applied(idx, env, old_c, new_c),
        idx < Setting::PreviewQuality.options(old_c, env).len(),
        selectable(Setting::PreviewQuality, idx as int, env),
    ensures
        Setting::PreviewQuality.index(new_c, env) == idx,
{
    reveal(Setting::audio_applied);
}

proof fn shown_output_device(idx: usize, env: SettingsEnv, old_c: AppConfig, new_c: AppConfig)
    requires
        Setting::OutputDevice.applied(idx, env, old_c, new_c),
        idx < Setting::OutputDevice.options(old_c, env).len(),
        selectable(Setting::OutputDevice, idx as int, env),
    ensures
        Setting::OutputDevice.index(new_c, env) == idx,
{
    reveal(Setting::audio_applied);
    let devices = strs(env.devices@);
    if idx > 0 {
        lemma_first_device(devices, devices[idx - 1], idx - 1);
    }
}

proof fn shown_monitor_device(idx: usize, env: SettingsEnv, old_c: AppConfig, new_c: AppConfig)
    requires
        Setting::MonitorDevice.applied(idx, env, old_c, new_c),
        idx < Setting::MonitorDevice.options(old_c, env).len(),
        selectable(Setting::MonitorDevice, idx as int, env),
    ensures
        Setting::MonitorDevice.index(new_c, env) == idx,
{
    reveal(Setting::audio_applied);
    let devices = strs(env.devices@);
    if idx > 0 {
        lemma_first_device(devices, devices[idx - 1], idx - 1);
    }
}

proof fn shown_master_limiter(idx: usize, env: SettingsEnv, old_c: AppConfig, new_c: AppConfig)
    requires
        Setting::MasterLimiter.applied(idx, env, old_c, new_c),
        idx < Setting::MasterLimiter.options(old_c, env).len(),
        selectable(Setting::MasterLimiter, idx as int, env),
    ensures
        Setting::MasterLimiter.index(new_c, env) == idx,
{
    reveal(Setting::audio_applied);
}

proof fn shown_pitch_stretch(idx: usize, env: SettingsEnv, old_c: AppConfig, new_c: AppConfig)
    requires
        Setting::PitchStretch.applied(idx, env, old_c, new_c),
        idx < Setting::PitchStretch.options(old_c, env).len(),
        selectable(Setting::PitchStretch, idx as int, env),
    ensures
        Setting::PitchStretch.index(new_c, env) == idx,
{
    reveal(Setting::audio_applied);
}

proof fn shown_bpm_mode(idx: usize, env: SettingsEnv, old_c: AppConfig, new_c: AppConfig)
    requires
        Setting::BpmMode.applied(idx, env, old_c, new_c),
        idx < Setting::BpmMode.options(old_c, env).len(),
        selectable(Setting::BpmMode, idx as int, env),
    ensures
        Setting::BpmMode.index(new_c, env) == idx,
{
    reveal(Setting::bars_applied);
}

proof fn shown_split_cue(idx: usize, env: SettingsEnv, old_c: AppConfig, new_c: AppConfig)
    requires
        Setting::SplitCue.applied(idx, env, old_c, new_c),
        idx < Setting::SplitCue.options(old_c, env).len(),
        selectable(Setting::SplitCue, idx as int, env),
    ensures
        Setting::SplitCue.index(new_c, env) == idx,
{
    reveal(Setting::bars_applied);
}

proof fn shown_crossfade_bars(idx: usize, env: SettingsEnv, old_c: AppConfig, new_c: AppConfig)
    requires
        Setting::CrossfadeBars.applied(idx, env, old_c, new_c),
        idx < Setting::CrossfadeBars.options(old_c, env).len(),
        selectable(Setting::CrossfadeBars, idx as int, env),
    ensures
        Setting::CrossfadeBars.index(new_c, env) == idx,
{
    reveal(Setting::bars_applied);
}

proof fn shown_glide_bars(idx: usize, env: SettingsEnv, old_c: AppConfig, new_c: AppConfig)
    requires
        Setting::GlideBars.applied(idx, env, old_c, new_c),
        idx < Setting::GlideBars.options(old_c, env).len(),
        selectable(Setting::GlideBars, idx as int, env),
    ensures
        Setting::GlideBars.index(new_c, env) == idx,
{
    reveal(Setting::bars_applied);
}

proof fn shown_jump_bars(idx: usize, env: SettingsEnv, old_c: AppConfig, new_c: AppConfig)
    requires
        Setting::JumpBars.applied(idx, env, old_c, new_c),
        idx < Setting::JumpBars.options(old_c, env).len(),
        selectable(Setting::JumpBars, idx as int, env),
    ensures
        Setting::JumpBars.index(new_c, env) == idx,
{
    reveal(Setting::bars_applied);
}

proof fn shown_quantize_on(idx: usize, env: SettingsEnv, old_c: AppConfig, new_c: AppConfig)
    requires
        Setting::QuantizeOn.applied(idx, env, old_c, new_c),
        idx < Setting::QuantizeOn.options(old_c, env).len(),
        selectable(Setting::QuantizeOn, idx as int, env),
    ensures
        Setting::QuantizeOn.index(new_c, env) == idx,
{
    reveal(Setting::mixing_applied);
}

proof fn shown_quantize_beats(idx: usize, env: SettingsEnv, old_c: AppConfig, new_c: AppConfig)
    requires
        Setting::QuantizeBeats.applied(idx, env, old_c, new_c),
        idx < Setting::QuantizeBeats.options(old_c, env).len(),
        selectable(Setting::QuantizeBeats, idx as int, env),
    ensures
        Setting::QuantizeBeats.index(new_c, env) == idx,
{
    reveal(Setting::mixing_applied);
}

proof fn shown_tempo_range(idx: usize, env: SettingsEnv, old_c: AppConfig, new_c: AppConfig)
    requires
        Setting::TempoRange.applied(idx, env, old_c, new_c),
        idx < Setting::TempoRange.options(old_c, env).len(),
        selectable(Setting::TempoRange, idx as int, env),
    ensures
        Setting::TempoRange.index(new_c, env) == idx,
{
    reveal(Setting::mixing_applied);
}

proof fn shown_nudge_percent(idx: usize, env: SettingsEnv, old_c: AppConfig, new_c: AppConfig)
    requires
        Setting::NudgePercent.applied(idx, env, old_c, new_c),
        idx < Setting::NudgePercent.options(old_c, env).len(),
        selectable(Setting::NudgePercent, idx as int, env),
    ensures
        Setting::NudgePercent.index(new_c, env) == idx,
{
    reveal(Setting::mixing_applied);
}

proof fn shown_mix_in_point(idx: usize, env: SettingsEnv, old_c: AppConfig, new_c: AppConfig)
    requires
        Setting::MixInPoint.applied(idx, env, old_c, new_c),
        idx < Setting::MixInPoint.options(old_c, env).len(),
        selectable(Setting::MixInPoint, idx as int, env),
    ensures
        Setting::MixInPoint.index(new_c, env) == idx,
{
    reveal(Setting::mixing_applied);
}

proof fn shown_smart_mix_out(idx: usize, env: SettingsEnv, old_c: AppConfig, new_c: AppConfig)
    requires
        Setting::SmartMixOut.applied(idx, env, old_c, new_c),
        idx < Setting::SmartMixOut.options(old_c, env).len(),
        selectable(Setting::SmartMixOut, idx as int, env),
    ensures
        Setting::SmartMixOut.index(new_c, env) == idx,
{
    reveal(Setting::mixing_applied);
}

proof fn shown_train_wreck(idx: usize, env: SettingsEnv, old_c: AppConfig, new_c: AppConfig)
    requires
        Setting::TrainWreck.applied(idx, env, old_c, new_c),
        idx < Setting::TrainWreck.options(old_c, env).len(),
        selectable(Setting::TrainWreck, idx as int, env),
    ensures
        Setting::TrainWreck.index(new_c, env) == idx,
{
    reveal(Setting::mixing_applied);
}

proof fn shown_shuffle_on_play(idx: usize, env: SettingsEnv, old_c: AppConfig, new_c: AppConfig)
    requires
        Setting::ShuffleOnPlay.applied(idx, env, old_c, new_c),
        idx < Setting::ShuffleOnPlay.options(old_c, env).len(),
        selectable(Setting::ShuffleOnPlay, idx as int, env),
    ensures
        Setting::ShuffleOnPlay.index(new_c, env) == idx,
{
    reveal(Setting::playback_applied);
}

proof fn shown_compact_view(idx: usize, env: SettingsEnv, old_c: AppConfig, new_c: AppConfig)
    requires
        Setting::CompactView.applied(idx, env, old_c, new_c),
        idx < Setting::CompactView.options(old_c, env).len(),
        selectable(Setting::CompactView, idx as int, env),
    ensures
        Setting::CompactView.index(new_c, env) == idx,
{
    reveal(Setting::playback_applied);
}

proof fn shown_resume_session(idx: usize, env: SettingsEnv, old_c: AppConfig, new_c: AppConfig)
    requires
        Setting::ResumeSession.applied(idx, env, old_c, new_c),
        idx < Setting::ResumeSession.options(old_c, env).len(),
        selectable(Setting::ResumeSession, idx as int, env),
    ensures
        Setting::ResumeSession.index(new_c, env) == idx,
{
    reveal(Setting::playback_applied);
}

proof fn shown_ai_beat_detection(idx: usize, env: SettingsEnv, old_c: AppConfig, new_c: AppConfig)
    requires
        Setting::AiBeatDetection.applied(idx, env, old_c, new_c),
        idx < Setting::AiBeatDetection.options(old_c, env).len(),
        selectable(Setting::AiBeatDetection, idx as int, env),
    ensures
        Setting::AiBeatDetection.index(new_c, env) == idx,
{
    reveal(Setting::playback_applied);
}

proof fn shown_ai_grid_validation(idx: usize, env: SettingsEnv, old_c: AppConfig, new_c: AppConfig)
    requires
        Setting::AiGridValidation.applied(idx, env, old_c, new_c),
        idx < Setting::AiGridValidation.options(old_c, env).len(),
        selectable(Setting::AiGridValidation, idx as int, env),
    ensures
        Setting::AiGridValidation.index(new_c, env) == idx,
{
    reveal(Setting::playback_applied);
}

proof fn shown_ai_phrase_detection(idx: usize, env: SettingsEnv, old_c: AppConfig, new_c: AppConfig)
    requires
        Setting::AiPhraseDetection.applied(idx, env, old_c, new_c),
        idx < Setting::AiPhraseDetection.options(old_c, env).len(),
        selectable(Setting::AiPhraseDetection, idx as int, env),
    ensures
        Setting::AiPhraseDetection.index(new_c, env) == idx,
{
    reveal(Setting::playback_applied);
}

proof fn shown_analyzer_engine(idx: usize, env: SettingsEnv, old_c: AppConfig, new_c: AppConfig)
    requires
        Setting::AnalyzerEngine.applied(idx, env, old_c, new_c),
        idx < Setting::AnalyzerEngine.options(old_c, env).len(),
        selectable(Setting::AnalyzerEngine, idx as int, env),
    ensures
        Setting::AnalyzerEngine.index(new_c, env) == idx,
{
    reveal(Setting::playback_applied);
}

proof fn shown_tx_beat_matched(idx: usize, env: SettingsEnv, old_c: AppConfig, new_c: AppConfig)
    requires
        Setting::TxBeatMatched.applied(idx, env, old_c, new_c),
        idx < Setting::TxBeatMatched.options(old_c, env).len(),
        selectable(Setting::TxBeatMatched, idx as int, env),
    ensures
        Setting::TxBeatMatched.index(new_c, env) == idx,
{
    reveal(Setting::transition_applied);
    toggle_changes_one_transition(old_c, new_c, "BeatMatched"@, idx == 1, "BeatMatched"@);
}

proof fn shown_tx_echo_out(idx: usize, env: SettingsEnv, old_c: AppConfig, new_c: AppConfig)
    requires
        Setting::TxEchoOut.applied(idx, env, old_c, new_c),
        idx < Setting::TxEchoOut.options(old_c, env).len(),
        selectable(Setting::TxEchoOut, idx as int, env),
    ensures
        Setting::TxEchoOut.index(new_c, env) == idx,
{
    reveal(Setting::transition_applied);
    toggle_changes_one_transition(old_c, new_c, "EchoOut"@, idx == 1, "EchoOut"@);
}

proof fn shown_tx_bass_swap(idx: usize, env: SettingsEnv, old_c: AppConfig, new_c: AppConfig)
    requires
        Setting::TxBassSwap.applied(idx, env, old_c, new_c),
        idx < Setting::TxBassSwap.options(old_c, env).len(),
        selectable(Setting::TxBassSwap, idx as int, env),
    ensures
        Setting::TxBassSwap.index(new_c, env) == idx,
{
    reveal(Setting::transition_applied);
    toggle_changes_one_transition(old_c, new_c, "BassSwap"@, idx == 1, "BassSwap"@);
}

proof fn shown_tx_filter_sweep(idx: usize, env: SettingsEnv, old_c: AppConfig, new_c: AppConfig)
    requires
        Setting::TxFilterSweep.applied(idx, env, old_c, new_c),
        idx < Setting::TxFilterSweep.options(old_c, env).len(),
        selectable(Setting::TxFilterSweep, idx as int, env),
    ensures
        Setting::TxFilterSweep.index(new_c, env) == idx,
{
    reveal(Setting::transition_applied);
    toggle_changes_one_transition(old_c, new_c, "FilterSweep"@, idx == 1, "FilterSweep"@);
}

proof fn shown_tx_loop_roll(idx: usize, env: SettingsEnv, old_c: AppConfig, new_c: AppConfig)
    requires
        Setting::TxLoopRoll.applied(idx, env, old_c, new_c),
        idx < Setting::TxLoopRoll.options(old_c, env).len(),
        selectable(Setting::TxLoopRoll, idx as int, env),
    ensures
        Setting::TxLoopRoll.index(new_c, env) == idx,
{
    reveal(Setting::transition_applied);
    toggle_changes_one_transition(old_c, new_c, "LoopRoll"@, idx == 1, "LoopRoll"@);
}

proof fn shown_edit_rules(idx: usize, env: SettingsEnv, old_c: AppConfig, new_c: AppConfig)
    requires
        Setting::EditRules.applied(idx, env, old_c, new_c),
        idx < Setting::EditRules.options(old_c, env).len(),
        selectable(Setting::EditRules, idx as int, env),
    ensures
        Setting::EditRules.index(new_c, env) == idx,
{
    reveal(Setting::other_applied);
}

proof fn shown_dj_mode(idx: usize, env: SettingsEnv, old_c: AppConfig, new_c: AppConfig)
    requires
        Setting::DjMode.applied(idx, env, old_c, new_c),
        idx < Setting::DjMode.options(old_c, env).len(),
        selectable(Setting::DjMode, idx as int, env),
    ensures
        Setting::DjMode.index(new_c, env) == idx,
{
    reveal(Setting::dj_applied);
}

proof fn shown_dj_camelot(idx: usize, env: SettingsEnv, old_c: AppConfig, new_c: AppConfig)
    requires
        Setting::DjCamelot.applied(idx, env, old_c, new_c),
        idx < Setting::DjCamelot.options(old_c, env).len(),
        selectable(Setting::DjCamelot, idx as int, env),
    ensures
        Setting::DjCamelot.index(new_c, env) == idx,
{
    reveal(Setting::dj_applied);
}

proof fn shown_dj_bpm_gap(idx: usize, env: SettingsEnv, old_c: AppConfig, new_c: AppConfig)
    requires
        Setting::DjBpmGap.applied(idx, env, old_c, new_c),
        idx < Setting::DjBpmGap.options(old_c, env).len(),
        selectable(Setting::DjBpmGap, idx as int, env),
    ensures
        Setting::DjBpmGap.index(new_c, env) == idx,
{
    reveal(Setting::dj_applied);
}

proof fn shown_dj_transitions(idx: usize, env: SettingsEnv, old_c: AppConfig, new_c: AppConfig)
    requires
        Setting::DjTransitions.applied(idx, env, old_c, new_c),
        idx < Setting::DjTransitions.options(old_c, env).len(),
        selectable(Setting::DjTransitions, idx as int, env),
    ensures
        Setting::DjTransitions.index(new_c, env) == idx,
{
    reveal(Setting::dj_applied);
}

proof fn shown_dj_style(idx: usize, env: SettingsEnv, old_c: AppConfig, new_c: AppConfig)
    requires
        Setting::DjStyle.applied(idx, env, old_c, new_c),
        idx < Setting::DjStyle.options(old_c, env).len(),
        selectable(Setting::DjStyle, idx as int, env),
    ensures
        Setting::DjStyle.index(new_c, env) == idx,
{
    reveal(Setting::dj_applied);
}

proof fn shown_dj_quick_mix(idx: usize, env: SettingsEnv, old_c: AppConfig, new_c: AppConfig)
    requires
        Setting::DjQuickMix.applied(idx, env, old_c, new_c),
        idx < Setting::DjQuickMix.options(old_c, env).len(),
        selectable(Setting::DjQuickMix, idx as int, env),
    ensures
        Setting::DjQuickMix.index(new_c, env) == idx,
{
    reveal(Setting::dj_applied);
}

proof fn shown_dj_memory(idx: usize, env: SettingsEnv, old_c: AppConfig, new_c: AppConfig)
    requires
        Setting::DjMemory.applied(idx, env, old_c, new_c),
        idx < Setting::DjMemory.options(old_c, env).len(),
        selectable(Setting::DjMemory, idx as int, env),
    ensures
        Setting::DjMemory.index(new_c, env) == idx,
{
    reveal(Setting::dj_applied);
}

proof fn shown_browser(idx: usize, env: SettingsEnv, old_c: AppConfig, new_c: AppConfig)
    requires
        Setting::Browser.applied(idx, env, old_c, new_c),
        idx < Setting::Browser.options(old_c, env).len(),
        selectable(Setting::Browser, idx as int, env),
    ensures
        Setting::Browser.index(new_c, env) == idx,
{
    reveal(Setting::other_applied);
    lemma_names();
}

proof fn shown_default_genre(idx: usize, env: SettingsEnv, old_c: AppConfig, new_c: AppConfig)
    requires
        Setting::DefaultGenre.applied(idx, env, old_c, new_c),
        idx < Setting::DefaultGenre.options(old_c, env).len(),
        selectable(Setting::DefaultGenre, idx as int, env),
    ensures
        Setting::DefaultGenre.index(new_c, env) == idx,
{
    reveal(Setting::other_applied);
}

proof fn shown_favorite_genres(idx: usize, env: SettingsEnv, old_c: AppConfig, new_c: AppConfig)
    requires
        Setting::FavoriteGenres.applied(idx, env, old_c, new_c),
        idx < Setting::FavoriteGenres.options(old_c, env).len(),
        selectable(Setting::FavoriteGenres, idx as int, env),
    ensures
        Setting::FavoriteGenres.index(new_c, env) == idx,
{
    reveal(Setting::other_applied);
}

proof fn shown_logout(idx: usize, env: SettingsEnv, old_c: AppConfig, new_c: AppConfig)
    requires
        Setting::Logout.applied(idx, env, old_c, new_c),
        idx < Setting::Logout.options(old_c, env).len(),
        selectable(Setting::Logout, idx as int, env),
    ensures
        Setting::Logout.index(new_c, env) == idx,
{
    reveal(Setting::other_applied);
}

proof fn shown_reset_all(idx: usize, env: SettingsEnv, old_c: AppConfig, new_c: AppConfig)
    requires
        Setting::ResetAll.applied(idx, env, old_c, new_c),
        idx < Setting::ResetAll.options(old_c, env).len(),
        selectable(Setting::ResetAll, idx as int, env),
    ensures
        Setting::ResetAll.index(new_c, env) == idx,
{
    reveal(Setting::other_applied);
}

proof fn lemma_first_device(devices: Seq<Seq<char>>, name: Seq<char>, i: int)
    requires
        is_first_device(devices, name, i),
        name.len() > 0,
    ensures
        device_index(devices, name) == i + 1,
{
    let k = choose|k: int| is_first_device(devices, name, k);
    assert(is_first_device(devices, name, k));
    if k < i {
        assert(devices[k] != name);
    } else if i < k {
        assert(devices[i] != name);
    }
}

/// The row with the focus is always among the lines on the screen.
pub proof fn focused_row_is_visible(items: Seq<ItemV>, selected: nat, height: nat)
    requires
        selected < focusable(items).len(),
        height > 0,
    ensures
        ({
            let f = focused_line(items, selected, items.len());
            let scroll = scroll_for(f, height as int);
            0 <= f < items.len() && is_focused(items, f, selected) && scroll <= f < scroll + height
                && scroll >= 0
        }),
{
    assert(items.take(items.len() as int) == items);
    lemma_focus_found(items, selected, items.len());
}

proof fn lemma_focus_found(items: Seq<ItemV>, selected: nat, n: nat)
    requires
        n <= items.len(),
        selected < focusable(items.take(n as int)).len(),
    ensures
        0 <= focused_line(items, selected, n) < n,
        is_focused(items, focused_line(items, selected, n), selected),
    decreases n,
{
    if n == 0 {
        assert(items.take(0).len() == 0);
    } else {
        let pre = items.take(n - 1);
        assert(items.take(n as int).drop_last() == pre);
        assert(items.take(n as int).last() == items[n - 1]);
        if !is_focused(items, n - 1, selected) {
            lemma_focus_found(items, selected, (n - 1) as nat);
        }
    }
}

/// A clipped line never exceeds the width it was clipped to, and fills it
/// where something was cut off. (`…` itself takes one cell.)
pub proof fn clipped_line_fits(line: Seq<SpanV>, w: nat)
    ensures
        line_width(clip_line(line, w)) <= max_of(w as int, 1),
        line_width(line) > w && w > 0 ==> line_width(clip_line(line, w)) == w,
{
    if line_width(line) > w {
        let budget = crate::text::minus(w as int, 1);
        lemma_cut_width(line, budget);
        reveal_strlit("…");
        let cut = cut_line(line, budget);
        let end = span("…"@, Style::of(Color::DarkGray));
        assert(cut.push(end).drop_last() == cut);
        assert("…"@.len() == 1);
    }
}

proof fn lemma_front_width(line: Seq<SpanV>)
    requires
        line.len() > 0,
    ensures
        line_width(line) == line[0].text.len() + line_width(line.skip(1)),
    decreases line.len(),
{
    reveal_with_fuel(line_width, 2);
    if line.len() == 1 {
        assert(line.drop_last().len() == 0);
        assert(line.skip(1).len() == 0);
    } else {
        lemma_front_width(line.drop_last());
        assert(line.drop_last().skip(1) == line.skip(1).drop_last());
        assert(line.skip(1).last() == line.last());
    }
}

proof fn lemma_cut_width(line: Seq<SpanV>, budget: nat)
    ensures
        line_width(cut_line(line, budget)) <= budget,
        line_width(line) > budget ==> line_width(cut_line(line, budget)) == budget,
    decreases line.len(),
{
    if line.len() > 0 {
        lemma_front_width(line);
        let cut = cut_line(line, budget);
        if line[0].text.len() <= budget {
            let left = (budget - line[0].text.len()) as nat;
            lemma_cut_width(line.skip(1), left);
            lemma_front_width(cut);
            assert(cut.skip(1) == cut_line(line.skip(1), left));
        } else if budget > 0 {
            lemma_front_width(cut);
            assert(cut.skip(1).len() == 0);
        }
    }
}

} // verus!
