//! What remote commands do to the engine.
use crate::act_kinds::{act_amount, act_deck, act_incoming};
use crate::effects::{Act, EffectV, TextAct};
use crate::remote_deck::{deck_effects, for_playback, CueAction, DeckCommand};
use vstd::prelude::*;

verus! {

/// The deck that a command names.
pub open spec fn command_deck(c: DeckCommand) -> Option<bool> {
    match c {
        DeckCommand::NudgeDeck { is_a, .. } => Some(is_a),
        DeckCommand::PlayDeck { is_a } => Some(is_a),
        DeckCommand::JumpDeck { is_a, .. } => Some(is_a),
        DeckCommand::CueJump { is_a, .. } => Some(is_a),
        DeckCommand::CueSet { is_a, .. } => Some(is_a),
        DeckCommand::SetRate { deck, .. } => deck,
        DeckCommand::SetEq { is_a, .. } => Some(is_a),
        DeckCommand::SetDeckFilter { is_a, .. } => Some(is_a),
        DeckCommand::SetChannelFader { is_a, .. } => Some(is_a),
        DeckCommand::LoopBeats { is_a, .. } => Some(is_a),
        DeckCommand::LoopRelease { is_a } => Some(is_a),
        DeckCommand::DelayFeedback { is_a, .. } => Some(is_a),
        DeckCommand::DelaySamples { is_a, .. } => Some(is_a),
        DeckCommand::DelaySync { is_a, .. } => Some(is_a),
        DeckCommand::LoopIn { is_a } => Some(is_a),
        DeckCommand::LoopOut { is_a } => Some(is_a),
        DeckCommand::StopDeck { is_a } => Some(is_a),
        DeckCommand::SeekDeck { is_a, .. } => Some(is_a),
        DeckCommand::Cue { is_a, .. } => Some(is_a),
        _ => None,
    }
}

/// The amount that a command carries.
pub open spec fn command_amount(c: DeckCommand) -> Option<int> {
    match c {
        DeckCommand::Nudge(n) => Some(n as int),
        DeckCommand::NudgeDeck { direction, .. } => Some(direction as int),
        DeckCommand::JumpDeck { bars, .. } => Some(bars as int),
        DeckCommand::CueJump { slot, .. } => Some(slot as int),
        DeckCommand::CueSet { slot, .. } => Some(slot as int),
        DeckCommand::Jump(n) => Some(n as int),
        DeckCommand::ShiftGrid(n) => Some(n as int),
        DeckCommand::Extend(n) => Some(n as int),
        DeckCommand::SetRate { rate, .. } => Some(rate as int),
        DeckCommand::SetMixIn(n) => Some(n as int),
        DeckCommand::SetDeckFilter { pos, .. } => Some(pos as int),
        DeckCommand::SetChannelFader { level, .. } => Some(level as int),
        DeckCommand::SetCrossfader(n) => Some(n as int),
        DeckCommand::LoopBeats { beats, .. } => Some(beats as int),
        DeckCommand::MasterGain(n) => Some(n as int),
        DeckCommand::DelayFeedback { value, .. } => Some(value as int),
        DeckCommand::DelaySamples { samples, .. } => Some(samples as int),
        DeckCommand::DelaySync { fraction, .. } => Some(fraction as int),
        DeckCommand::SeekDeck { time, .. } => Some(time as int),
        DeckCommand::Cue { slot, .. } => Some(slot as int),
        _ => None,
    }
}

/// A command that names a deck acts on that deck and on no other; one that names
/// none touches no single deck.
#[verifier::spinoff_prover]
#[verifier::rlimit(40)]
pub proof fn commands_stay_on_their_deck(c: DeckCommand, i: int)
    requires
        0 <= i < deck_effects(c).len(),
    ensures
        deck_effects(c)[i] matches EffectV::Do(a) ==> act_deck(a) == command_deck(c),
{
}

#[verifier::spinoff_prover]
#[verifier::rlimit(60)]
proof fn lemma_amounts_reach_the_engine_playback(c: DeckCommand)
    requires
        for_playback(c),
        command_amount(c) is Some,
    ensures
        deck_effects(c).len() > 0,
        deck_effects(c)[0] matches EffectV::Do(a) && act_amount(a) == command_amount(c),
{
}

#[verifier::spinoff_prover]
#[verifier::rlimit(60)]
proof fn lemma_amounts_reach_the_engine_deck(c: DeckCommand)
    requires
        !for_playback(c),
        command_amount(c) is Some,
    ensures
        deck_effects(c).len() > 0,
        deck_effects(c)[0] matches EffectV::Do(a) && act_amount(a) == command_amount(c),
{
}

/// The first thing that a command with an amount does carries that amount,
/// unchanged.
pub proof fn amounts_reach_the_engine(c: DeckCommand)
    requires
        command_amount(c) is Some,
    ensures
        deck_effects(c).len() > 0,
        deck_effects(c)[0] matches EffectV::Do(a) && act_amount(a) == command_amount(c),
{
    if for_playback(c) {
        lemma_amounts_reach_the_engine_playback(c);
    } else {
        lemma_amounts_reach_the_engine_deck(c);
    }
}

/// A command does what it is called.
pub open spec fn does_as_called(c: DeckCommand, a: Act) -> bool {
    match c {
        DeckCommand::Skip => a is Skip,
        DeckCommand::Pause => a is Pause,
        DeckCommand::Teleport => a is Teleport,
        DeckCommand::MixNow => a is MixNow,
        DeckCommand::ClearQueue => a is ClearQueue,
        DeckCommand::Nudge(_) => a is Nudge,
        DeckCommand::ResumeAuto => a is ResumeAuto,
        DeckCommand::NudgeDeck { .. } => a is NudgeDeck,
        DeckCommand::PlayDeck { .. } => a is PlayPauseDeck,
        DeckCommand::JumpDeck { .. } => a is JumpDeckBars,
        DeckCommand::CueJump { .. } => a is CueJump,
        DeckCommand::CueSet { .. } => a is CueSet,
        DeckCommand::Metronome => a is ToggleMetronome,
        DeckCommand::SplitCue => a is ToggleSplitCue,
        DeckCommand::Shuffle | DeckCommand::SmartShuffle => a is SmartShuffle,
        DeckCommand::Jump(_) => a is Jump,
        DeckCommand::ShiftGrid(_) => a is ShiftGrid,
        DeckCommand::Extend(_) => a is Extend,
        DeckCommand::SetRate { deck, .. } => if deck is Some {
            a is SetDeckRate
        } else {
            a is SetIncomingRate
        },
        DeckCommand::Volume { .. } => a is SetVolume,
        DeckCommand::SetMixIn(_) => a is SetMixIn,
        DeckCommand::SetEq { .. } => a is SetEq,
        DeckCommand::SetDeckFilter { .. } => a is SetFilter,
        DeckCommand::SetChannelFader { .. } => a is SetFader,
        DeckCommand::SetCrossfader(_) => a is SetCrossfader,
        DeckCommand::SetTransition(_) => false,
        DeckCommand::LoopBeats { .. } => a is LoopBeats,
        DeckCommand::LoopRelease { .. } => a is LoopRelease,
        DeckCommand::InstallRubberband => a is InstallRubberband,
        DeckCommand::MasterGain(_) => a is SetMasterGain,
        DeckCommand::DelayFeedback { .. } => a is DelayFeedback,
        DeckCommand::DelaySamples { .. } => a is DelaySamples,
        DeckCommand::DelaySync { .. } => a is DelaySync,
        DeckCommand::LoopIn { .. } => a is LoopIn,
        DeckCommand::LoopOut { .. } => a is LoopOut,
        DeckCommand::StopDeck { .. } => a is StopDeck,
        DeckCommand::SeekDeck { .. } => a is SeekDeck,
        DeckCommand::Cue { action, .. } => match action {
            CueAction::Store => a is CueSet,
            CueAction::Jump => a is CueJump,
            CueAction::Clear => a is CueClear,
        },
        DeckCommand::ExportHistory => a is ExportHistory,
        DeckCommand::Diagnose => a is WriteDiagnosis,
        DeckCommand::Restart => a is Restart,
        DeckCommand::Status => a is WriteStatus,
        DeckCommand::GetScreen => a is WriteScreen,
    }
}

#[verifier::spinoff_prover]
#[verifier::rlimit(60)]
proof fn lemma_commands_do_as_called_playback(c: DeckCommand, i: int)
    requires
        for_playback(c),
        0 <= i < deck_effects(c).len(),
    ensures
        deck_effects(c)[i] matches EffectV::Do(a) ==> does_as_called(c, a),
        deck_effects(c)[i] matches EffectV::With(t, s) ==> (c matches DeckCommand::SetTransition(name)
            && t == TextAct::SetTransition && s == name@),
{
}

#[verifier::spinoff_prover]
#[verifier::rlimit(60)]
proof fn lemma_commands_do_as_called_deck(c: DeckCommand, i: int)
    requires
        !for_playback(c),
        0 <= i < deck_effects(c).len(),
    ensures
        deck_effects(c)[i] matches EffectV::Do(a) ==> does_as_called(c, a),
        deck_effects(c)[i] matches EffectV::With(t, s) ==> (c matches DeckCommand::SetTransition(name)
            && t == TextAct::SetTransition && s == name@),
{
}

/// Whatever a command does is of the kind that it is called.
pub proof fn commands_do_as_called(c: DeckCommand, i: int)
    requires
        0 <= i < deck_effects(c).len(),
    ensures
        deck_effects(c)[i] matches EffectV::Do(a) ==> does_as_called(c, a),
        deck_effects(c)[i] matches EffectV::With(t, s) ==> (c matches DeckCommand::SetTransition(name)
            && t == TextAct::SetTransition && s == name@),
{
    if for_playback(c) {
        lemma_commands_do_as_called_playback(c, i);
    } else {
        lemma_commands_do_as_called_deck(c, i);
    }
}

/// Two levels go to the decks they are meant for: the one for what plays, and the
/// one for what comes in.
pub proof fn volumes_reach_their_track(playing: Option<i64>, incoming: Option<i64>, i: int)
    requires
        0 <= i < deck_effects(DeckCommand::Volume { playing, incoming }).len(),
    ensures
        deck_effects(DeckCommand::Volume { playing, incoming })[i] matches EffectV::Do(a) ==> (
        act_incoming(a) == Some(true) && incoming is Some && act_amount(a) == Some(
            incoming->0 as int,
        )) || (act_incoming(a) == Some(false) && playing is Some && act_amount(a) == Some(
            playing->0 as int,
        )),
        deck_effects(DeckCommand::Volume { playing, incoming }).len() == 1 + (if playing is Some {
            1int
        } else {
            0
        }) + (if incoming is Some {
            1int
        } else {
            0
        }),
{
}

/// A gain handed on is off by half a hundredth of a decibel at most; a band that
/// was not named is left alone.
pub open spec fn gain_kept(asked: Option<i64>, set: Option<i32>) -> bool {
    match (asked, set) {
        (None, None) => true,
        (Some(n), Some(g)) => -20_000_000_000_000 <= n <= 20_000_000_000_000 ==> -5_000 <= 10_000 * g
            - n <= 5_000,
        _ => false,
    }
}

/// Each gain of a command for the equaliser goes to its own band.
pub proof fn gains_reach_their_band(is_a: bool, low: Option<i64>, mid: Option<i64>, high: Option<i64>)
    ensures
        deck_effects(DeckCommand::SetEq { is_a, low, mid, high })[0] matches EffectV::Do(
            Act::SetEq { is_a: d, low: l, mid: m, high: h },
        ) && d == is_a && gain_kept(low, l) && gain_kept(mid, m) && gain_kept(high, h),
{
}

/// A command says what it did of the deck it was for: said of the other deck, the
/// message differs in the letter of the deck and nowhere else.
pub open spec fn same_but_for_deck(a: Seq<char>, b: Seq<char>, at: int) -> bool {
    &&& a.len() == b.len()
    &&& 0 <= at < a.len()
    &&& a[at] == 'A' && b[at] == 'B'
    &&& forall|i: int| 0 <= i < a.len() && i != at ==> #[trigger] a[i] == b[i]
}

/// The message of an effect list that ends in one.
pub open spec fn last_message(fx: Seq<EffectV>) -> Seq<char> {
    fx.last()->Toast_0
}

proof fn lemma_of_deck(head: Seq<char>, tail: Seq<char>)
    ensures
        same_but_for_deck(
            crate::remote_deck::of_deck(head, true, tail),
            crate::remote_deck::of_deck(head, false, tail),
            head.len() as int,
        ),
{
    reveal_strlit("A");
    reveal_strlit("B");
    let a = crate::remote_deck::of_deck(head, true, tail);
    let b = crate::remote_deck::of_deck(head, false, tail);
    assert(a.len() == b.len() == head.len() + 1 + tail.len());
    assert forall|i: int| 0 <= i < a.len() && i != head.len() implies #[trigger] a[i] == b[i] by {
        if i > head.len() {
            assert(a[i] == tail[i - head.len() - 1]);
        }
    }
}

/// The same command for deck B.
pub open spec fn for_deck_b(c: DeckCommand) -> DeckCommand {
    match c {
        DeckCommand::PlayDeck { .. } => DeckCommand::PlayDeck { is_a: false },
        DeckCommand::JumpDeck { bars, .. } => DeckCommand::JumpDeck { is_a: false, bars },
        DeckCommand::CueSet { slot, .. } => DeckCommand::CueSet { is_a: false, slot },
        DeckCommand::SetRate { rate, .. } => DeckCommand::SetRate { deck: Some(false), rate },
        DeckCommand::SetEq { low, mid, high, .. } => DeckCommand::SetEq {
            is_a: false,
            low,
            mid,
            high,
        },
        DeckCommand::SetDeckFilter { pos, .. } => DeckCommand::SetDeckFilter { is_a: false, pos },
        DeckCommand::SetChannelFader { level, .. } => DeckCommand::SetChannelFader {
            is_a: false,
            level,
        },
        DeckCommand::LoopBeats { beats, .. } => DeckCommand::LoopBeats { is_a: false, beats },
        DeckCommand::LoopRelease { .. } => DeckCommand::LoopRelease { is_a: false },
        DeckCommand::DelayFeedback { value, .. } => DeckCommand::DelayFeedback {
            is_a: false,
            value,
        },
        DeckCommand::DelaySamples { samples, .. } => DeckCommand::DelaySamples {
            is_a: false,
            samples,
        },
        DeckCommand::DelaySync { fraction, .. } => DeckCommand::DelaySync { is_a: false, fraction },
        DeckCommand::LoopIn { .. } => DeckCommand::LoopIn { is_a: false },
        DeckCommand::LoopOut { .. } => DeckCommand::LoopOut { is_a: false },
        DeckCommand::StopDeck { .. } => DeckCommand::StopDeck { is_a: false },
        DeckCommand::SeekDeck { time, .. } => DeckCommand::SeekDeck { is_a: false, time },
        DeckCommand::Cue { slot, action, .. } => DeckCommand::Cue { is_a: false, slot, action },
        other => other,
    }
}

/// What is said of a command names the deck it was for.
#[verifier::spinoff_prover]
#[verifier::rlimit(60)]
pub proof fn messages_name_the_deck(c: DeckCommand)
    requires
        command_deck(c) == Some(true),
        deck_effects(c).last() is Toast,
    ensures
        exists|at: int|
            same_but_for_deck(
                last_message(deck_effects(c)),
                last_message(deck_effects(for_deck_b(c))),
                at,
            ),
{
    let a = last_message(deck_effects(c));
    let b = last_message(deck_effects(for_deck_b(c)));
    let (head, tail) = message_parts(c);
    lemma_of_deck(head, tail);
    assert(a == crate::remote_deck::of_deck(head, true, tail));
    assert(b == crate::remote_deck::of_deck(head, false, tail));
    assert(same_but_for_deck(a, b, head.len() as int));
}

spec fn message_parts(c: DeckCommand) -> (Seq<char>, Seq<char>) {
    match c {
        DeckCommand::PlayDeck { .. } => ("Play/Pause "@, ""@),
        DeckCommand::JumpDeck { bars, .. } => (
            "Jump "@ + crate::numbers::signed_whole_number(bars as int) + " bars "@,
            ""@,
        ),
        DeckCommand::CueSet { slot, .. } => (
            "Cue "@ + crate::text::decimal((slot + 1) as nat) + " set "@,
            ""@,
        ),
        DeckCommand::SetRate { rate, .. } => (
            "Tempo "@,
            ": "@ + crate::numbers::plain3(rate as int),
        ),
        DeckCommand::SetEq { low, mid, high, .. } => (
            "EQ "@,
            ": low="@ + crate::numbers::debug_number(low) + " mid="@
                + crate::numbers::debug_number(mid) + " high="@ + crate::numbers::debug_number(
                high,
            ),
        ),
        DeckCommand::SetDeckFilter { pos, .. } => (
            "Filter "@,
            ": "@ + crate::numbers::signed2(pos as int),
        ),
        DeckCommand::SetChannelFader { level, .. } => (
            "Fader "@,
            ": "@ + crate::numbers::plain2(level as int),
        ),
        DeckCommand::LoopBeats { beats, .. } => (
            "Loop "@,
            " "@ + crate::numbers::shortest(beats as int) + " beats"@,
        ),
        DeckCommand::LoopRelease { .. } => ("Loop "@, " released"@),
        DeckCommand::DelayFeedback { value, .. } => (
            "Delay feedback "@,
            ": "@ + crate::numbers::plain2(value as int),
        ),
        DeckCommand::DelaySamples { samples, .. } => (
            "Delay samples "@,
            ": "@ + crate::text::decimal(samples as nat),
        ),
        DeckCommand::DelaySync { fraction, .. } => (
            "Delay sync "@,
            ": "@ + crate::numbers::plain2(fraction as int) + " beats"@,
        ),
        DeckCommand::LoopIn { .. } => ("Loop IN "@, ""@),
        DeckCommand::LoopOut { .. } => ("Loop OUT "@, ""@),
        DeckCommand::StopDeck { .. } => ("Stop "@, ""@),
        DeckCommand::SeekDeck { time, .. } => (
            "Seek "@,
            " → "@ + crate::numbers::plain1(time as int) + "s"@,
        ),
        DeckCommand::Cue { slot, action, .. } => (
            "Cue "@ + crate::text::decimal((slot + 1) as nat) + (match action {
                CueAction::Store => " set ("@,
                CueAction::Jump => " jump ("@,
                CueAction::Clear => " clear ("@,
            }),
            ")"@,
        ),
        _ => (""@, ""@),
    }
}

} // verus!
