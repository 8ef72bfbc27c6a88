//! What an act is about: the deck it works on, the amount it carries, and what it
//! does.
use crate::effects::{Act, EffectV};
use vstd::prelude::*;

verus! {

/// The deck that an act works on, where it names one.
pub open spec fn act_deck(a: Act) -> Option<bool> {
    match a {
        Act::SetEq { is_a, .. } => Some(is_a),
        Act::SetFilter { is_a, .. } => Some(is_a),
        Act::SetFader { is_a, .. } => Some(is_a),
        Act::SetDeckRate { is_a, .. } => Some(is_a),
        Act::PlayPauseDeck { is_a } => Some(is_a),
        Act::NudgeDeck { is_a, .. } => Some(is_a),
        Act::JumpDeckBars { is_a, .. } => Some(is_a),
        Act::JumpDeckBeats { is_a, .. } => Some(is_a),
        Act::StopDeck { is_a } => Some(is_a),
        Act::SeekDeck { is_a, .. } => Some(is_a),
        Act::PreviewDeck { is_a } => Some(is_a),
        Act::StopPreview { is_a } => Some(is_a),
        Act::PlayDeck { is_a } => Some(is_a),
        Act::CueSet { is_a, .. } => Some(is_a),
        Act::CueJump { is_a, .. } => Some(is_a),
        Act::CueClear { is_a, .. } => Some(is_a),
        Act::LoopEngage { is_a, .. } => Some(is_a),
        Act::LoopDisengage { is_a } => Some(is_a),
        Act::LoopBeats { is_a, .. } => Some(is_a),
        Act::LoopRelease { is_a } => Some(is_a),
        Act::LoopIn { is_a } => Some(is_a),
        Act::LoopOut { is_a } => Some(is_a),
        Act::DelayFeedback { is_a, .. } => Some(is_a),
        Act::DelaySamples { is_a, .. } => Some(is_a),
        Act::DelaySync { is_a, .. } => Some(is_a),
        Act::ToggleFavorite { is_a } => Some(is_a),
        _ => None,
    }
}

/// The amount that an act carries, where it carries one.
pub open spec fn act_amount(a: Act) -> Option<int> {
    match a {
        Act::Nudge(n) => Some(n as int),
        Act::Jump(n) => Some(n as int),
        Act::Extend(n) => Some(n as int),
        Act::ShiftGrid(n) => Some(n as int),
        Act::SetMixIn(n) => Some(n as int),
        Act::SetMasterGain(n) => Some(n as int),
        Act::SetFilter { pos, .. } => Some(pos as int),
        Act::SetFader { level, .. } => Some(level as int),
        Act::SetCrossfader(n) => Some(n as int),
        Act::SweepCrossfader { target, .. } => Some(target as int),
        Act::SetVolume { level, .. } => Some(level as int),
        Act::SetDeckRate { rate, .. } => Some(rate as int),
        Act::SetPlayingRate(n) => Some(n as int),
        Act::SetIncomingRate(n) => Some(n as int),
        Act::NudgeDeck { direction, .. } => Some(direction as int),
        Act::JumpDeckBars { bars, .. } => Some(bars as int),
        Act::JumpDeckBeats { by, .. } => Some(by as int),
        Act::SeekDeck { time, .. } => Some(time as int),
        Act::CueSet { slot, .. } => Some(slot as int),
        Act::CueJump { slot, .. } => Some(slot as int),
        Act::CueClear { slot, .. } => Some(slot as int),
        Act::LoopEngage { beats, .. } => Some(beats as int),
        Act::LoopBeats { micros, .. } => Some(micros as int),
        Act::DelayFeedback { value, .. } => Some(value as int),
        Act::DelaySamples { samples, .. } => Some(samples as int),
        Act::DelaySync { micros, .. } => Some(micros as int),
        Act::SetJumpBars(n) => Some(n as int),
        Act::SetCrossfadeBars(n) => Some(n as int),
        _ => None,
    }
}

/// The act works on the incoming track alone, or on the playing one alone, where
/// it names one of the two.
pub open spec fn act_incoming(a: Act) -> Option<bool> {
    match a {
        Act::SetVolume { incoming, .. } => Some(incoming),
        Act::SetIncomingRate(_) => Some(true),
        Act::SetPlayingRate(_) => Some(false),
        _ => None,
    }
}

/// The same act on the other deck.
pub open spec fn on_other_deck(a: Act) -> Act {
    match a {
        Act::SetEq { is_a, low, mid, high } => Act::SetEq { is_a: !is_a, low, mid, high },
        Act::SetFilter { is_a, pos } => Act::SetFilter { is_a: !is_a, pos },
        Act::SetFader { is_a, level } => Act::SetFader { is_a: !is_a, level },
        Act::SetDeckRate { is_a, rate } => Act::SetDeckRate { is_a: !is_a, rate },
        Act::PlayPauseDeck { is_a } => Act::PlayPauseDeck { is_a: !is_a },
        Act::NudgeDeck { is_a, direction } => Act::NudgeDeck { is_a: !is_a, direction },
        Act::JumpDeckBars { is_a, bars } => Act::JumpDeckBars { is_a: !is_a, bars },
        Act::JumpDeckBeats { is_a, by } => Act::JumpDeckBeats { is_a: !is_a, by },
        Act::StopDeck { is_a } => Act::StopDeck { is_a: !is_a },
        Act::SeekDeck { is_a, time } => Act::SeekDeck { is_a: !is_a, time },
        Act::PreviewDeck { is_a } => Act::PreviewDeck { is_a: !is_a },
        Act::StopPreview { is_a } => Act::StopPreview { is_a: !is_a },
        Act::PlayDeck { is_a } => Act::PlayDeck { is_a: !is_a },
        Act::CueSet { is_a, slot } => Act::CueSet { is_a: !is_a, slot },
        Act::CueJump { is_a, slot } => Act::CueJump { is_a: !is_a, slot },
        Act::CueClear { is_a, slot } => Act::CueClear { is_a: !is_a, slot },
        Act::LoopEngage { is_a, beats } => Act::LoopEngage { is_a: !is_a, beats },
        Act::LoopDisengage { is_a } => Act::LoopDisengage { is_a: !is_a },
        Act::LoopBeats { is_a, micros } => Act::LoopBeats { is_a: !is_a, micros },
        Act::LoopRelease { is_a } => Act::LoopRelease { is_a: !is_a },
        Act::LoopIn { is_a } => Act::LoopIn { is_a: !is_a },
        Act::LoopOut { is_a } => Act::LoopOut { is_a: !is_a },
        Act::DelayFeedback { is_a, value } => Act::DelayFeedback { is_a: !is_a, value },
        Act::DelaySamples { is_a, samples } => Act::DelaySamples { is_a: !is_a, samples },
        Act::DelaySync { is_a, micros } => Act::DelaySync { is_a: !is_a, micros },
        Act::ToggleFavorite { is_a } => Act::ToggleFavorite { is_a: !is_a },
        other => other,
    }
}

/// Every act among some effects that names a deck names this one.
pub open spec fn stays_on(fx: Seq<EffectV>, deck: bool) -> bool {
    forall|i: int|
        0 <= i < fx.len() ==> (#[trigger] fx[i] matches EffectV::Do(a) ==> act_deck(a) is None
            || act_deck(a) == Some(deck))
}

/// No act among some effects names a deck.
pub open spec fn names_no_deck(fx: Seq<EffectV>) -> bool {
    forall|i: int|
        0 <= i < fx.len() ==> (#[trigger] fx[i] matches EffectV::Do(a) ==> act_deck(a) is None)
}

} // verus!
