//! What the engine and the DJ are told agrees with the configuration.
use crate::config::AppConfig;
use crate::effects::{Act, EffectV};
use crate::settings::{Setting, SettingsEnv};
use crate::settings_keys::{action_text, resync_effects, setting_effects};
use crate::text::{decimal, digits_value};
use vstd::prelude::*;

verus! {

/// What an act tells of a setting is what the configuration holds.
pub open spec fn agrees(act: Act, c: AppConfig) -> bool {
    match act {
        Act::SetQuantize { on, step } => on == c.quantize_on && step == c.quantize_beats,
        Act::SetCrossfadeBars(n) => n == c.crossfade_bars,
        Act::SetCrossfadeBarsAuto(b) => b == c.crossfade_bars_auto,
        Act::SetJumpBars(n) => n == c.jump_bars,
        Act::SetPitchStretch(e) => e == c.pitch_stretch_engine,
        _ => true,
    }
}

/// An act that carries a setting.
pub open spec fn carries_setting(act: Act) -> bool {
    act is SetQuantize || act is SetCrossfadeBars || act is SetCrossfadeBarsAuto
        || act is SetJumpBars || act is SetPitchStretch
}

/// After a setting was chosen, whatever the engine is told agrees with the
/// configuration, and is among what handing over all of it would tell.
pub proof fn what_is_told_agrees(
    action: Option<Seq<char>>,
    c: AppConfig,
    signed_in: bool,
    i: int,
)
    requires
        0 <= i < setting_effects(action, c, signed_in).1.len(),
    ensures
        setting_effects(action, c, signed_in).1[i] matches EffectV::Do(act) ==> agrees(act, c) && (
        carries_setting(act) ==> resync_effects(c).contains(EffectV::Do(act))),
{
    let all = resync_effects(c);
    assert(all.contains(all[1]));
    assert(all.contains(all[3]));
    assert(all.contains(all[4]));
    assert(all.contains(all[5]));
    assert(all.contains(all[6]));
}

/// Handing over the configuration again tells of every setting what it holds, and
/// has the rest taken over.
pub proof fn everything_is_handed_over(c: AppConfig, i: int)
    requires
        0 <= i < resync_effects(c).len(),
    ensures
        resync_effects(c)[i] matches EffectV::Do(act) && agrees(act, c),
        resync_effects(c).contains(
            EffectV::Do(Act::SetQuantize { on: c.quantize_on, step: c.quantize_beats }),
        ),
        resync_effects(c).contains(EffectV::Do(Act::SetCrossfadeBars(c.crossfade_bars))),
        resync_effects(c).contains(EffectV::Do(Act::SetCrossfadeBarsAuto(c.crossfade_bars_auto))),
        resync_effects(c).contains(EffectV::Do(Act::SetJumpBars(c.jump_bars))),
        resync_effects(c).contains(EffectV::Do(Act::SetPitchStretch(c.pitch_stretch_engine))),
        resync_effects(c).contains(EffectV::Do(Act::SyncTransitions)),
        resync_effects(c).contains(EffectV::Do(Act::SyncTrainWreck)),
        resync_effects(c).contains(EffectV::Do(Act::SyncLimiter)),
        resync_effects(c).contains(EffectV::Do(Act::SyncClaudeDj)),
        resync_effects(c).contains(EffectV::Do(Act::SaveConfig)),
{
    let all = resync_effects(c);
    assert(all.contains(all[0]));
    assert(all.contains(all[1]));
    assert(all.contains(all[2]));
    assert(all.contains(all[3]));
    assert(all.contains(all[4]));
    assert(all.contains(all[5]));
    assert(all.contains(all[6]));
    assert(all.contains(all[7]));
    assert(all.contains(all[8]));
    assert(all.contains(all[9]));
}

/// What choosing an option of a setting does, to the engine and to the rest.
pub open spec fn told(s: Setting, idx: usize, env: SettingsEnv, c: AppConfig) -> Seq<EffectV> {
    setting_effects(action_text(s.effect(idx, env)), c, true).1
}

/// Three marks that tell the names of all follow-ups apart.
#[verifier::opaque]
spec fn marks(s: Seq<char>) -> (char, char, nat) {
    (s[0], s[7], s.len())
}

proof fn lemma_marks()
    ensures
        marks("transitions_changed"@) == ('t', 'i', 19nat),
        marks("pitch_stretch_changed"@) == ('p', 't', 21nat),
        marks("train_wreck_changed"@) == ('t', 'r', 19nat),
        marks("rubberband_unavailable"@) == ('r', 'a', 22nat),
        marks("timestretch_unavailable"@) == ('t', 'e', 23nat),
        marks("crossfade_bars_changed"@) == ('c', 'd', 22nat),
        marks("quantize_changed"@) == ('q', 'e', 16nat),
        marks("jump_bars_changed"@) == ('j', 'r', 17nat),
        marks("stratum_fallback"@) == ('s', '_', 16nat),
        marks("master_limiter_changed"@) == ('m', 'l', 22nat),
        marks("claudedj_changed"@) == ('c', 'j', 16nat),
        marks("monitor_device_changed"@) == ('m', '_', 22nat),
        marks("output_device_changed"@) == ('o', 'd', 21nat),
        marks("pick_genre"@) == ('p', 'n', 10nat),
        marks("pick_favorites"@) == ('p', 'v', 14nat),
        marks("open_rules_editor"@) == ('o', 'l', 17nat),
        "logout"@.len() == 6,
        marks("logout"@).2 == 6,
{
    reveal(marks);
    reveal_strlit("transitions_changed");
    reveal_strlit("pitch_stretch_changed");
    reveal_strlit("train_wreck_changed");
    reveal_strlit("rubberband_unavailable");
    reveal_strlit("timestretch_unavailable");
    reveal_strlit("crossfade_bars_changed");
    reveal_strlit("quantize_changed");
    reveal_strlit("jump_bars_changed");
    reveal_strlit("stratum_fallback");
    reveal_strlit("master_limiter_changed");
    reveal_strlit("claudedj_changed");
    reveal_strlit("monitor_device_changed");
    reveal_strlit("output_device_changed");
    reveal_strlit("pick_genre");
    reveal_strlit("pick_favorites");
    reveal_strlit("open_rules_editor");
    reveal_strlit("logout");
    assert("logout"@.len() == 6);
}

/// Switching quantizing on or off tells the engine so, and so does choosing its
/// step.
pub proof fn quantizing_is_told(
    idx: usize,
    env: SettingsEnv,
    old_c: AppConfig,
    new_c: AppConfig,
)
    requires
        Setting::QuantizeOn.applied(idx, env, old_c, new_c),
        idx < 2,
    ensures
        told(Setting::QuantizeOn, idx, env, new_c).contains(
            EffectV::Do(
                Act::SetQuantize {
                    on: Setting::QuantizeOn.options(old_c, env)[idx as int] == "On"@,
                    step: old_c.quantize_beats,
                },
            ),
        ),
{
    lemma_marks();
    reveal(Setting::mixing_applied);
    reveal(Setting::effect);
    reveal_strlit("On");
    reveal_strlit("Off");
    assert("On"@.len() == 2 && "Off"@.len() == 3);
    let fx = told(Setting::QuantizeOn, idx, env, new_c);
    assert(fx.contains(fx[0]));
}

pub proof fn quantize_step_is_told(
    idx: usize,
    env: SettingsEnv,
    old_c: AppConfig,
    new_c: AppConfig,
)
    requires
        Setting::QuantizeBeats.applied(idx, env, old_c, new_c),
        idx < 7,
    ensures
        told(Setting::QuantizeBeats, idx, env, new_c).contains(
            EffectV::Do(
                Act::SetQuantize { on: old_c.quantize_on, step: new_c.quantize_beats },
            ),
        ),
        idx <= 3 ==> {
            let parts = if idx == 3 {
                1
            } else {
                digits_value(Setting::QuantizeBeats.options(old_c, env)[idx as int].skip(2))
            };
            parts * new_c.quantize_beats == 1_000_000
        },
        idx >= 3 ==> new_c.quantize_beats == 1_000_000 * digits_value(
            Setting::QuantizeBeats.options(old_c, env)[idx as int],
        ),
{
    lemma_marks();
    reveal(Setting::mixing_applied);
    reveal(Setting::effect);
    let fx = told(Setting::QuantizeBeats, idx, env, new_c);
    assert(fx.contains(fx[0]));
    reveal_strlit("1/8");
    reveal_strlit("1/4");
    reveal_strlit("1/2");
    lemma_digit_texts();
    assert("1/8"@.skip(2) =~= "8"@);
    assert("1/4"@.skip(2) =~= "4"@);
    assert("1/2"@.skip(2) =~= "2"@);
}

proof fn lemma_one_digit(s: Seq<char>, n: nat)
    requires
        n < 10,
        s.len() == 1,
        s[0] == ('0' as u8 + n) as u8 as char,
    ensures
        digits_value(s) == n,
        s == decimal(n),
{
    crate::readings::decimal_reads_back(n);
    assert(s =~= decimal(n));
}

proof fn lemma_two_digits(s: Seq<char>, n: nat)
    requires
        10 <= n < 100,
        s.len() == 2,
        s[0] == ('0' as u8 + n / 10) as u8 as char,
        s[1] == ('0' as u8 + n % 10) as u8 as char,
    ensures
        digits_value(s) == n,
        s == decimal(n),
{
    crate::readings::decimal_reads_back(n);
    assert(decimal(n / 10).len() == 1) by {
        crate::readings::decimal_reads_back(n / 10);
    }
    assert(s =~= decimal(n));
}

proof fn lemma_digit_texts()
    ensures
        digits_value("1"@) == 1,
        digits_value("2"@) == 2,
        digits_value("4"@) == 4,
        digits_value("8"@) == 8,
        digits_value("16"@) == 16,
        digits_value("32"@) == 32,
        digits_value("64"@) == 64,
        "1"@ == decimal(1),
        "2"@ == decimal(2),
        "4"@ == decimal(4),
        "8"@ == decimal(8),
        "16"@ == decimal(16),
        "32"@ == decimal(32),
        "64"@ == decimal(64),
{
    reveal_strlit("1");
    reveal_strlit("2");
    reveal_strlit("4");
    reveal_strlit("8");
    reveal_strlit("16");
    reveal_strlit("32");
    reveal_strlit("64");
    lemma_one_digit("1"@, 1);
    lemma_one_digit("2"@, 2);
    lemma_one_digit("4"@, 4);
    lemma_one_digit("8"@, 8);
    lemma_two_digits("16"@, 16);
    lemma_two_digits("32"@, 32);
    lemma_two_digits("64"@, 64);
}

/// The length of a crossfade that is chosen is the number that the option reads,
/// and the engine is told it; the last option leaves the length to the engine.
pub proof fn crossfade_length_is_told(
    idx: usize,
    env: SettingsEnv,
    old_c: AppConfig,
    new_c: AppConfig,
)
    requires
        Setting::CrossfadeBars.applied(idx, env, old_c, new_c),
        idx < 5,
    ensures
        ({
            let option = Setting::CrossfadeBars.options(old_c, env)[idx as int];
            let fx = told(Setting::CrossfadeBars, idx, env, new_c);
            &&& option == "Auto"@ <==> idx == 4
            &&& option == "Auto"@ ==> fx.contains(EffectV::Do(Act::SetCrossfadeBarsAuto(true)))
                && new_c.crossfade_bars == old_c.crossfade_bars
            &&& option != "Auto"@ ==> fx.contains(
                EffectV::Do(Act::SetCrossfadeBars(digits_value(option) as u32)),
            ) && fx.contains(EffectV::Do(Act::SetCrossfadeBarsAuto(false)))
        }),
{
    lemma_marks();
    lemma_digit_texts();
    reveal(Setting::bars_applied);
    reveal(Setting::effect);
    let fx = told(Setting::CrossfadeBars, idx, env, new_c);
    assert(fx.contains(fx[0]));
    assert(fx.contains(fx[1]));
    reveal_strlit("Auto");
    assert("Auto"@.len() == 4);
    reveal_strlit("8");
    reveal_strlit("16");
    reveal_strlit("32");
    reveal_strlit("64");
}

/// The bars of a jump that are chosen are the number that the option reads, and
/// the engine is told them.
pub proof fn jump_length_is_told(
    idx: usize,
    env: SettingsEnv,
    old_c: AppConfig,
    new_c: AppConfig,
)
    requires
        Setting::JumpBars.applied(idx, env, old_c, new_c),
        idx < 4,
    ensures
        new_c.jump_bars == digits_value(Setting::JumpBars.options(old_c, env)[idx as int]),
        told(Setting::JumpBars, idx, env, new_c).contains(
            EffectV::Do(
                Act::SetJumpBars(
                    digits_value(Setting::JumpBars.options(old_c, env)[idx as int]) as u32,
                ),
            ),
        ),
{
    lemma_marks();
    lemma_digit_texts();
    reveal(Setting::bars_applied);
    reveal(Setting::effect);
    let fx = told(Setting::JumpBars, idx, env, new_c);
    assert(fx.contains(fx[0]));
}

/// The remaining numbers that can be chosen are those that the options read.
pub proof fn numbers_are_as_read(
    idx: usize,
    env: SettingsEnv,
    old_c: AppConfig,
    glide: AppConfig,
    range: AppConfig,
    nudge: AppConfig,
)
    requires
        Setting::GlideBars.applied(idx, env, old_c, glide),
        Setting::TempoRange.applied(idx, env, old_c, range),
        Setting::NudgePercent.applied(idx, env, old_c, nudge),
        idx < 5,
    ensures
        idx < 4 ==> glide.glide_bars == digits_value(
            Setting::GlideBars.options(old_c, env)[idx as int],
        ),
        idx == 4 ==> glide.glide_bars == 0,
        Setting::TempoRange.options(old_c, env)[idx as int] == "±"@ + decimal(
            range.tempo_range as nat,
        ) + "%"@,
        Setting::NudgePercent.options(old_c, env)[idx as int] == decimal(
            nudge.nudge_percent as nat,
        ) + "%"@,
{
    lemma_digit_texts();
    reveal(Setting::bars_applied);
    reveal(Setting::mixing_applied);
    reveal_strlit("±");
    reveal_strlit("%");
    reveal_strlit("±4%");
    reveal_strlit("±6%");
    reveal_strlit("±8%");
    reveal_strlit("±10%");
    reveal_strlit("±16%");
    reveal_strlit("1%");
    reveal_strlit("2%");
    reveal_strlit("3%");
    reveal_strlit("4%");
    reveal_strlit("5%");
    reveal_with_fuel(decimal, 3);
    assert("±4%"@ =~= "±"@ + decimal(4) + "%"@);
    assert("±6%"@ =~= "±"@ + decimal(6) + "%"@);
    assert("±8%"@ =~= "±"@ + decimal(8) + "%"@);
    assert("±10%"@ =~= "±"@ + decimal(10) + "%"@);
    assert("±16%"@ =~= "±"@ + decimal(16) + "%"@);
    assert("1%"@ =~= decimal(1) + "%"@);
    assert("2%"@ =~= decimal(2) + "%"@);
    assert("3%"@ =~= decimal(3) + "%"@);
    assert("4%"@ =~= decimal(4) + "%"@);
    assert("5%"@ =~= decimal(5) + "%"@);
}

/// A setting that is on or off.
pub open spec fn flag(s: Setting, c: AppConfig) -> Option<bool> {
    match s {
        Setting::SplitCue => Some(c.split_cue),
        Setting::QuantizeOn => Some(c.quantize_on),
        Setting::SmartMixOut => Some(c.smart_mix_out),
        Setting::ShuffleOnPlay => Some(c.shuffle_on_play),
        Setting::AiBeatDetection => Some(c.ai_beat_detection),
        Setting::AiGridValidation => Some(c.ai_grid_validation),
        Setting::AiPhraseDetection => Some(c.ai_phrase_detection),
        Setting::DjQuickMix => Some(c.claude_dj.quick_mix),
        Setting::DjMemory => Some(c.claude_dj.memory_enabled),
        _ => None,
    }
}

/// A switch is on after "On" was chosen, and off after "Off".
#[verifier::spinoff_prover]
#[verifier::rlimit(60)]
pub proof fn switches_are_as_read(
    s: Setting,
    idx: usize,
    env: SettingsEnv,
    old_c: AppConfig,
    new_c: AppConfig,
)
    requires
        s.applied(idx, env, old_c, new_c),
        idx < s.options(old_c, env).len(),
        flag(s, old_c) is Some,
    ensures
        flag(s, new_c) == Some(s.options(old_c, env)[idx as int] == "On"@),
        s.options(old_c, env)[idx as int] == "On"@ || s.options(old_c, env)[idx as int] == "Off"@,
{
    reveal_strlit("On");
    reveal_strlit("Off");
    assert("On"@.len() == 2 && "Off"@.len() == 3);
    match s {
        Setting::SplitCue => {
            reveal(Setting::bars_applied);
        },
        Setting::QuantizeOn => {
            reveal(Setting::mixing_applied);
        },
        Setting::SmartMixOut => {
            reveal(Setting::mixing_applied);
        },
        Setting::ShuffleOnPlay => {
            reveal(Setting::playback_applied);
        },
        Setting::AiBeatDetection => {
            reveal(Setting::playback_applied);
        },
        Setting::AiGridValidation => {
            reveal(Setting::playback_applied);
        },
        Setting::AiPhraseDetection => {
            reveal(Setting::playback_applied);
        },
        Setting::DjQuickMix => {
            reveal(Setting::dj_applied);
        },
        Setting::DjMemory => {
            reveal(Setting::dj_applied);
        },
        _ => {},
    }
}

/// A transition that is switched goes by the name on its row.
pub proof fn transitions_go_by_their_label(
    s: Setting,
    idx: usize,
    env: SettingsEnv,
    old_c: AppConfig,
    new_c: AppConfig,
    name: Seq<char>,
)
    requires
        s.applied(idx, env, old_c, new_c),
        idx < 2,
        s.is_transition(),
        s.spec_label()@ == "Transition: "@ + name,
    ensures
        crate::settings::enables(new_c, name) == (s.options(old_c, env)[idx as int] == "On"@),
        told(s, idx, env, new_c).contains(EffectV::Do(Act::SyncTransitions)),
{
    lemma_marks();
    reveal(Setting::transition_applied);
    reveal(Setting::effect);
    reveal_strlit("On");
    reveal_strlit("Off");
    assert("On"@.len() == 2 && "Off"@.len() == 3);
    reveal_strlit("Transition: ");
    reveal_strlit("Transition: BeatMatched");
    reveal_strlit("Transition: EchoOut");
    reveal_strlit("Transition: BassSwap");
    reveal_strlit("Transition: FilterSweep");
    reveal_strlit("Transition: LoopRoll");
    reveal_strlit("BeatMatched");
    reveal_strlit("EchoOut");
    reveal_strlit("BassSwap");
    reveal_strlit("FilterSweep");
    reveal_strlit("LoopRoll");
    assert("Transition: "@.len() == 12);
    assert(("Transition: "@ + name).skip(12) =~= name);
    assert("Transition: BeatMatched"@.skip(12) =~= "BeatMatched"@);
    assert("Transition: EchoOut"@.skip(12) =~= "EchoOut"@);
    assert("Transition: BassSwap"@.skip(12) =~= "BassSwap"@);
    assert("Transition: FilterSweep"@.skip(12) =~= "FilterSweep"@);
    assert("Transition: LoopRoll"@.skip(12) =~= "LoopRoll"@);
    let before = crate::text::strs(old_c.enabled_transitions@);
    let after = crate::text::strs(new_c.enabled_transitions@);
    crate::settings::lemma_without(before, name, name);
    if idx == 1 && !before.contains(name) {
        assert(after.last() == name);
        assert(after.contains(name));
    }
    let fx = told(s, idx, env, new_c);
    assert(fx.contains(fx[0]));
}

/// Choosing an option of what the engine or the DJ takes over has it taken over,
/// and every choice that opens nothing is saved.
pub proof fn choices_take_effect(s: Setting, idx: usize, env: SettingsEnv, c: AppConfig)
    ensures
        s is MasterLimiter ==> told(s, idx, env, c).contains(EffectV::Do(Act::SyncLimiter)),
        s is TrainWreck ==> told(s, idx, env, c).contains(EffectV::Do(Act::SyncTrainWreck)),
        s.is_dj() ==> told(s, idx, env, c).contains(EffectV::Do(Act::SyncClaudeDj)),
        s is PitchStretch && !(idx == 1 && !env.rubberband) && !(idx == 2 && !env.timestretch)
            ==> told(s, idx, env, c).contains(
            EffectV::Do(Act::SetPitchStretch(c.pitch_stretch_engine)),
        ),
        s is Logout ==> told(s, idx, env, c).contains(EffectV::Do(Act::LogOut)),
        s is DefaultGenre ==> told(s, idx, env, c).contains(
            EffectV::Do(Act::LoadGenres { favorites: false }),
        ),
        s is FavoriteGenres ==> told(s, idx, env, c).contains(
            EffectV::Do(Act::LoadGenres { favorites: true }),
        ),
        s is EditRules ==> told(s, idx, env, c).contains(EffectV::Do(Act::OpenRulesEditor)),
        !(s is DefaultGenre) && !(s is FavoriteGenres) && !(s is EditRules) ==> told(
            s,
            idx,
            env,
            c,
        ).contains(EffectV::Do(Act::SaveConfig)),
{
    lemma_marks();
    reveal(Setting::effect);
    let fx = told(s, idx, env, c);
    if fx.len() > 0 {
        assert(fx.contains(fx[0]));
    }
    if fx.len() > 1 {
        assert(fx.contains(fx[1]));
        assert(fx.contains(fx[fx.len() - 2]));
    }
    reveal_strlit("reset_all");
    assert("reset_all"@.len() == 9);
    reveal(marks);
}

} // verus!
