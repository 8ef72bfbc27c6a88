//! Remote commands that work the engine: what each of them does and says.
use crate::dj_tools::{gain, gain_of};
use crate::effects::{
    act_and_toast, add_act, add_text, add_toast, fx_view, no_effects, only_act, only_toast, Act,
    Effect, EffectV, TextAct,
};
use crate::meters::{phase_str, phase_text};
use crate::mixer::{deck_label, deck_letter};
use crate::numbers::{
    debug_number, debug_number_str, plain1, plain1_str, plain2, plain2_str, plain3, plain3_str,
    shortest, shortest_str, signed2, signed2_str, signed_whole_number, signed_whole_number_str,
};
use crate::text::{
    concat2, concat3, decimal, decimal_str, signed_decimal, signed_decimal_str, wide_decimal_str,
};
use vstd::prelude::*;
use vstd::string::*;

verus! {

#[derive(Debug, Clone, Copy, PartialEq, Eq, Structural)]
pub enum CueAction {
    Store,
    Jump,
    Clear,
}

/// A remote command for the engine. Levels, rates, beats and seconds are in
/// millionths, shifts in microseconds.
pub enum DeckCommand {
    Skip,
    Pause,
    Teleport,
    MixNow,
    ClearQueue,
    Nudge(i32),
    ResumeAuto,
    NudgeDeck { is_a: bool, direction: i32 },
    PlayDeck { is_a: bool },
    JumpDeck { is_a: bool, bars: i32 },
    CueJump { is_a: bool, slot: u8 },
    CueSet { is_a: bool, slot: u8 },
    Metronome,
    SplitCue,
    Shuffle,
    SmartShuffle,
    Jump(i32),
    ShiftGrid(i64),
    Extend(i32),
    SetRate { deck: Option<bool>, rate: i64 },
    Volume { playing: Option<i64>, incoming: Option<i64> },
    SetMixIn(i64),
    SetEq { is_a: bool, low: Option<i64>, mid: Option<i64>, high: Option<i64> },
    SetDeckFilter { is_a: bool, pos: i64 },
    SetChannelFader { is_a: bool, level: i64 },
    SetCrossfader(i64),
    SetTransition(String),
    LoopBeats { is_a: bool, beats: i64 },
    LoopRelease { is_a: bool },
    InstallRubberband,
    MasterGain(i64),
    DelayFeedback { is_a: bool, value: i64 },
    DelaySamples { is_a: bool, samples: u64 },
    DelaySync { is_a: bool, fraction: i64 },
    LoopIn { is_a: bool },
    LoopOut { is_a: bool },
    StopDeck { is_a: bool },
    SeekDeck { is_a: bool, time: i64 },
    Cue { is_a: bool, slot: usize, action: CueAction },
    ExportHistory,
    Diagnose,
    Restart,
    Status,
    GetScreen,
}

pub open spec fn say(act: Act, text: Seq<char>, ms: u64) -> Seq<EffectV> {
    seq![EffectV::Do(act), EffectV::Toast(text, ms)]
}

/// The name of a deck between two texts.
pub open spec fn of_deck(head: Seq<char>, is_a: bool, tail: Seq<char>) -> Seq<char> {
    head + deck_letter(is_a) + tail
}

/// What the commands for playback do.
pub open spec fn playback_effects(c: DeckCommand) -> Seq<EffectV> {
    match c {
        DeckCommand::Skip => say(Act::Skip, "Skipped (remote)"@, 1000),
        DeckCommand::Pause => say(Act::Pause, "Pause (remote)"@, 1000),
        DeckCommand::Teleport => say(Act::Teleport, "Teleport (remote)"@, 1000),
        DeckCommand::MixNow => say(Act::MixNow, "Mix now (remote)"@, 1000),
        DeckCommand::ClearQueue => say(Act::ClearQueue, "Queue cleared (remote)"@, 1000),
        DeckCommand::Nudge(dir) => seq![EffectV::Do(Act::Nudge(dir))],
        DeckCommand::ResumeAuto => seq![EffectV::Do(Act::ResumeAuto)],
        DeckCommand::Metronome => seq![EffectV::Do(Act::ToggleMetronome)],
        DeckCommand::SplitCue => seq![EffectV::Do(Act::ToggleSplitCue)],
        DeckCommand::Shuffle => say(Act::SmartShuffle, "Queue shuffled (IPC)"@, 1000),
        DeckCommand::SmartShuffle => say(Act::SmartShuffle, "Smart shuffled (IPC)"@, 1000),
        DeckCommand::Jump(bars) => say(
            Act::Jump(bars),
            "Jump "@ + signed_decimal(bars as int) + " bars (IPC)"@,
            1000,
        ),
        DeckCommand::ShiftGrid(us) => say(
            Act::ShiftGrid(us),
            "Grid shifted "@ + phase_text(us as int),
            1000,
        ),
        DeckCommand::Extend(bars) => say(
            Act::Extend(bars),
            "Extended "@ + signed_decimal(bars as int) + " bars"@,
            1000,
        ),
        DeckCommand::SetMixIn(t) => say(
            Act::SetMixIn(t),
            "Mix-in: "@ + plain1(t as int) + "s"@,
            1000,
        ),
        DeckCommand::SetCrossfader(pos) => say(
            Act::SetCrossfader(pos),
            "Crossfader: "@ + signed2(pos as int),
            1000,
        ),
        DeckCommand::SetTransition(name) => seq![EffectV::With(TextAct::SetTransition, name@)],
        DeckCommand::InstallRubberband => seq![
            EffectV::Toast("Installing rubberband — this may take a minute…"@, 8000),
            EffectV::Do(Act::InstallRubberband),
        ],
        DeckCommand::MasterGain(g) => say(
            Act::SetMasterGain(g),
            "Master gain: "@ + plain2(g as int),
            1000,
        ),
        DeckCommand::Volume { playing, incoming } => (match playing {
            Some(level) => seq![EffectV::Do(Act::SetVolume { incoming: false, level })],
            None => Seq::empty(),
        }) + (match incoming {
            Some(level) => seq![EffectV::Do(Act::SetVolume { incoming: true, level })],
            None => Seq::empty(),
        }) + seq![EffectV::Toast("Volume set (IPC)"@, 500)],
        DeckCommand::ExportHistory => seq![EffectV::Do(Act::ExportHistory)],
        DeckCommand::Diagnose => say(Act::WriteDiagnosis, "Diagnostic written"@, 1000),
        DeckCommand::Restart => seq![EffectV::Do(Act::Restart)],
        DeckCommand::Status => seq![EffectV::Do(Act::WriteStatus)],
        DeckCommand::GetScreen => seq![EffectV::Do(Act::WriteScreen)],
        _ => Seq::empty(),
    }
}

/// What the commands for one deck do.
pub open spec fn one_deck_effects(c: DeckCommand) -> Seq<EffectV> {
    match c {
        DeckCommand::NudgeDeck { is_a, direction } => seq![
            EffectV::Do(Act::NudgeDeck { is_a, direction }),
        ],
        DeckCommand::PlayDeck { is_a } => say(
            Act::PlayPauseDeck { is_a },
            of_deck("Play/Pause "@, is_a, ""@),
            500,
        ),
        DeckCommand::JumpDeck { is_a, bars } => say(
            Act::JumpDeckBars { is_a, bars },
            of_deck("Jump "@ + signed_whole_number(bars as int) + " bars "@, is_a, ""@),
            500,
        ),
        DeckCommand::CueJump { is_a, slot } => seq![
            EffectV::Do(Act::CueJump { is_a, slot: slot as usize }),
        ],
        DeckCommand::CueSet { is_a, slot } => say(
            Act::CueSet { is_a, slot: slot as usize },
            of_deck("Cue "@ + decimal((slot + 1) as nat) + " set "@, is_a, ""@),
            500,
        ),
        DeckCommand::SetRate { deck, rate } => match deck {
            Some(is_a) => say(
                Act::SetDeckRate { is_a, rate },
                of_deck("Tempo "@, is_a, ": "@ + plain3(rate as int)),
                600,
            ),
            None => say(Act::SetIncomingRate(rate), "Rate: "@ + plain3(rate as int), 1000),
        },
        DeckCommand::SetEq { is_a, low, mid, high } => say(
            Act::SetEq { is_a, low: gain(low), mid: gain(mid), high: gain(high) },
            of_deck(
                "EQ "@,
                is_a,
                ": low="@ + debug_number(low) + " mid="@ + debug_number(mid) + " high="@
                    + debug_number(high),
            ),
            1000,
        ),
        DeckCommand::SetDeckFilter { is_a, pos } => say(
            Act::SetFilter { is_a, pos },
            of_deck("Filter "@, is_a, ": "@ + signed2(pos as int)),
            1000,
        ),
        DeckCommand::SetChannelFader { is_a, level } => say(
            Act::SetFader { is_a, level },
            of_deck("Fader "@, is_a, ": "@ + plain2(level as int)),
            1000,
        ),
        DeckCommand::LoopBeats { is_a, beats } => say(
            Act::LoopBeats { is_a, micros: beats },
            of_deck("Loop "@, is_a, " "@ + shortest(beats as int) + " beats"@),
            1000,
        ),
        DeckCommand::LoopRelease { is_a } => say(
            Act::LoopRelease { is_a },
            of_deck("Loop "@, is_a, " released"@),
            1000,
        ),
        DeckCommand::DelayFeedback { is_a, value } => say(
            Act::DelayFeedback { is_a, value },
            of_deck("Delay feedback "@, is_a, ": "@ + plain2(value as int)),
            1000,
        ),
        DeckCommand::DelaySamples { is_a, samples } => say(
            Act::DelaySamples { is_a, samples },
            of_deck("Delay samples "@, is_a, ": "@ + decimal(samples as nat)),
            1000,
        ),
        DeckCommand::DelaySync { is_a, fraction } => say(
            Act::DelaySync { is_a, micros: fraction },
            of_deck("Delay sync "@, is_a, ": "@ + plain2(fraction as int) + " beats"@),
            1000,
        ),
        DeckCommand::LoopIn { is_a } => say(
            Act::LoopIn { is_a },
            of_deck("Loop IN "@, is_a, ""@),
            1000,
        ),
        DeckCommand::LoopOut { is_a } => say(
            Act::LoopOut { is_a },
            of_deck("Loop OUT "@, is_a, ""@),
            1000,
        ),
        DeckCommand::StopDeck { is_a } => say(
            Act::StopDeck { is_a },
            of_deck("Stop "@, is_a, ""@),
            1000,
        ),
        DeckCommand::SeekDeck { is_a, time } => say(
            Act::SeekDeck { is_a, time },
            of_deck("Seek "@, is_a, " → "@ + plain1(time as int) + "s"@),
            1000,
        ),
        DeckCommand::Cue { is_a, slot, action } => {
            let head = "Cue "@ + decimal((slot + 1) as nat);
            match action {
                CueAction::Store => say(
                    Act::CueSet { is_a, slot },
                    of_deck(head + " set ("@, is_a, ")"@),
                    800,
                ),
                CueAction::Jump => say(
                    Act::CueJump { is_a, slot },
                    of_deck(head + " jump ("@, is_a, ")"@),
                    500,
                ),
                CueAction::Clear => say(
                    Act::CueClear { is_a, slot },
                    of_deck(head + " clear ("@, is_a, ")"@),
                    500,
                ),
            }
        },
        _ => Seq::empty(),
    }
}

/// The command is one for playback, not for one deck.
pub open spec fn for_playback(c: DeckCommand) -> bool {
    match c {
        DeckCommand::NudgeDeck { .. }
        | DeckCommand::PlayDeck { .. }
        | DeckCommand::JumpDeck { .. }
        | DeckCommand::CueJump { .. }
        | DeckCommand::CueSet { .. }
        | DeckCommand::SetRate { .. }
        | DeckCommand::SetEq { .. }
        | DeckCommand::SetDeckFilter { .. }
        | DeckCommand::SetChannelFader { .. }
        | DeckCommand::LoopBeats { .. }
        | DeckCommand::LoopRelease { .. }
        | DeckCommand::DelayFeedback { .. }
        | DeckCommand::DelaySamples { .. }
        | DeckCommand::DelaySync { .. }
        | DeckCommand::LoopIn { .. }
        | DeckCommand::LoopOut { .. }
        | DeckCommand::StopDeck { .. }
        | DeckCommand::SeekDeck { .. }
        | DeckCommand::Cue { .. } => false,
        _ => true,
    }
}

/// What a remote command for the engine does.
pub open spec fn deck_effects(c: DeckCommand) -> Seq<EffectV> {
    if for_playback(c) {
        playback_effects(c)
    } else {
        one_deck_effects(c)
    }
}

fn tell(act: Act, text: String, ms: u64) -> (fx: Vec<Effect>)
    ensures
        fx_view(fx@) == say(act, text@, ms),
{
    act_and_toast(act, text.as_str(), ms)
}

fn deck_text(head: &str, is_a: bool, tail: &str) -> (s: String)
    ensures
        s@ == of_deck(head@, is_a, tail@),
{
    concat3(head, deck_label(is_a), tail)
}

fn volume(playing: Option<i64>, incoming: Option<i64>) -> (fx: Vec<Effect>)
    ensures
        fx_view(fx@) == playback_effects(DeckCommand::Volume { playing, incoming }),
{
    let mut fx: Vec<Effect> = no_effects();
    if let Some(level) = playing {
        add_act(&mut fx, Act::SetVolume { incoming: false, level });
    }
    if let Some(level) = incoming {
        add_act(&mut fx, Act::SetVolume { incoming: true, level });
    }
    add_toast(&mut fx, "Volume set (IPC)", 500);
    assert(fx_view(fx@) =~= playback_effects(DeckCommand::Volume { playing, incoming }));
    fx
}

fn run_playback(c: &DeckCommand) -> (fx: Vec<Effect>)
    ensures
        fx_view(fx@) == playback_effects(*c),
{
    match c {
        DeckCommand::Skip => act_and_toast(Act::Skip, "Skipped (remote)", 1000),
        DeckCommand::Pause => act_and_toast(Act::Pause, "Pause (remote)", 1000),
        DeckCommand::Teleport => act_and_toast(Act::Teleport, "Teleport (remote)", 1000),
        DeckCommand::MixNow => act_and_toast(Act::MixNow, "Mix now (remote)", 1000),
        DeckCommand::ClearQueue => act_and_toast(
            Act::ClearQueue,
            "Queue cleared (remote)",
            1000,
        ),
        DeckCommand::Nudge(dir) => only_act(Act::Nudge(*dir)),
        DeckCommand::ResumeAuto => only_act(Act::ResumeAuto),
        DeckCommand::Metronome => only_act(Act::ToggleMetronome),
        DeckCommand::SplitCue => only_act(Act::ToggleSplitCue),
        DeckCommand::Shuffle => act_and_toast(Act::SmartShuffle, "Queue shuffled (IPC)", 1000),
        DeckCommand::SmartShuffle => act_and_toast(
            Act::SmartShuffle,
            "Smart shuffled (IPC)",
            1000,
        ),
        DeckCommand::Jump(bars) => tell(
            Act::Jump(*bars),
            concat3("Jump ", signed_decimal_str(*bars as i64).as_str(), " bars (IPC)"),
            1000,
        ),
        DeckCommand::ShiftGrid(us) => tell(
            Act::ShiftGrid(*us),
            concat2("Grid shifted ", phase_str(*us).as_str()),
            1000,
        ),
        DeckCommand::Extend(bars) => tell(
            Act::Extend(*bars),
            concat3("Extended ", signed_decimal_str(*bars as i64).as_str(), " bars"),
            1000,
        ),
        DeckCommand::SetMixIn(t) => tell(
            Act::SetMixIn(*t),
            concat3("Mix-in: ", plain1_str(*t).as_str(), "s"),
            1000,
        ),
        DeckCommand::SetCrossfader(pos) => tell(
            Act::SetCrossfader(*pos),
            concat2("Crossfader: ", signed2_str(*pos).as_str()),
            1000,
        ),
        DeckCommand::SetTransition(name) => {
            let mut fx: Vec<Effect> = no_effects();
            add_text(&mut fx, TextAct::SetTransition, name.as_str());
            assert(fx_view(fx@) =~= playback_effects(*c));
            fx
        },
        DeckCommand::InstallRubberband => {
            let mut fx: Vec<Effect> = only_toast(
                "Installing rubberband — this may take a minute…",
                8000,
            );
            add_act(&mut fx, Act::InstallRubberband);
            assert(fx_view(fx@) =~= playback_effects(*c));
            fx
        },
        DeckCommand::MasterGain(g) => tell(
            Act::SetMasterGain(*g),
            concat2("Master gain: ", plain2_str(*g).as_str()),
            1000,
        ),
        DeckCommand::Volume { playing, incoming } => volume(*playing, *incoming),
        DeckCommand::ExportHistory => only_act(Act::ExportHistory),
        DeckCommand::Diagnose => act_and_toast(Act::WriteDiagnosis, "Diagnostic written", 1000),
        DeckCommand::Restart => only_act(Act::Restart),
        DeckCommand::Status => only_act(Act::WriteStatus),
        DeckCommand::GetScreen => only_act(Act::WriteScreen),
        _ => no_effects(),
    }
}

fn cue(is_a: bool, slot: usize, action: CueAction) -> (fx: Vec<Effect>)
    ensures
        fx_view(fx@) == one_deck_effects(DeckCommand::Cue { is_a, slot, action }),
{
    let number: String = concat2("Cue ", wide_decimal_str(slot as u128 + 1).as_str());
    match action {
        CueAction::Store => tell(
            Act::CueSet { is_a, slot },
            deck_text(concat2(number.as_str(), " set (").as_str(), is_a, ")"),
            800,
        ),
        CueAction::Jump => tell(
            Act::CueJump { is_a, slot },
            deck_text(concat2(number.as_str(), " jump (").as_str(), is_a, ")"),
            500,
        ),
        CueAction::Clear => tell(
            Act::CueClear { is_a, slot },
            deck_text(concat2(number.as_str(), " clear (").as_str(), is_a, ")"),
            500,
        ),
    }
}

fn set_eq(is_a: bool, low: Option<i64>, mid: Option<i64>, high: Option<i64>) -> (fx: Vec<Effect>)
    ensures
        fx_view(fx@) == one_deck_effects(DeckCommand::SetEq { is_a, low, mid, high }),
{
    let s: String = concat3(": low=", debug_number_str(low).as_str(), " mid=");
    let s: String = concat3(s.as_str(), debug_number_str(mid).as_str(), " high=");
    let s: String = concat2(s.as_str(), debug_number_str(high).as_str());
    tell(
        Act::SetEq { is_a, low: gain_of(low), mid: gain_of(mid), high: gain_of(high) },
        deck_text("EQ ", is_a, s.as_str()),
        1000,
    )
}

fn run_one_deck(c: &DeckCommand) -> (fx: Vec<Effect>)
    ensures
        fx_view(fx@) == one_deck_effects(*c),
{
    match c {
        DeckCommand::NudgeDeck { is_a, direction } => only_act(
            Act::NudgeDeck { is_a: *is_a, direction: *direction },
        ),
        DeckCommand::PlayDeck { is_a } => tell(
            Act::PlayPauseDeck { is_a: *is_a },
            deck_text("Play/Pause ", *is_a, ""),
            500,
        ),
        DeckCommand::JumpDeck { is_a, bars } => {
            let head: String = concat3(
                "Jump ",
                signed_whole_number_str(*bars as i64).as_str(),
                " bars ",
            );
            tell(
                Act::JumpDeckBars { is_a: *is_a, bars: *bars },
                deck_text(head.as_str(), *is_a, ""),
                500,
            )
        },
        DeckCommand::CueJump { is_a, slot } => only_act(
            Act::CueJump { is_a: *is_a, slot: *slot as usize },
        ),
        DeckCommand::CueSet { is_a, slot } => {
            let head: String = concat3("Cue ", decimal_str(*slot as u64 + 1).as_str(), " set ");
            tell(
                Act::CueSet { is_a: *is_a, slot: *slot as usize },
                deck_text(head.as_str(), *is_a, ""),
                500,
            )
        },
        DeckCommand::SetRate { deck, rate } => match *deck {
            Some(is_a) => tell(
                Act::SetDeckRate { is_a, rate: *rate },
                deck_text("Tempo ", is_a, concat2(": ", plain3_str(*rate).as_str()).as_str()),
                600,
            ),
            None => tell(
                Act::SetIncomingRate(*rate),
                concat2("Rate: ", plain3_str(*rate).as_str()),
                1000,
            ),
        },
        DeckCommand::SetEq { is_a, low, mid, high } => set_eq(*is_a, *low, *mid, *high),
        DeckCommand::SetDeckFilter { is_a, pos } => tell(
            Act::SetFilter { is_a: *is_a, pos: *pos },
            deck_text("Filter ", *is_a, concat2(": ", signed2_str(*pos).as_str()).as_str()),
            1000,
        ),
        DeckCommand::SetChannelFader { is_a, level } => tell(
            Act::SetFader { is_a: *is_a, level: *level },
            deck_text("Fader ", *is_a, concat2(": ", plain2_str(*level).as_str()).as_str()),
            1000,
        ),
        DeckCommand::LoopBeats { is_a, beats } => {
            let tail: String = concat3(" ", shortest_str(*beats).as_str(), " beats");
            tell(
                Act::LoopBeats { is_a: *is_a, micros: *beats },
                deck_text("Loop ", *is_a, tail.as_str()),
                1000,
            )
        },
        DeckCommand::LoopRelease { is_a } => tell(
            Act::LoopRelease { is_a: *is_a },
            deck_text("Loop ", *is_a, " released"),
            1000,
        ),
        DeckCommand::DelayFeedback { is_a, value } => tell(
            Act::DelayFeedback { is_a: *is_a, value: *value },
            deck_text("Delay feedback ", *is_a, concat2(
                ": ",
                plain2_str(*value).as_str(),
            ).as_str()),
            1000,
        ),
        DeckCommand::DelaySamples { is_a, samples } => tell(
            Act::DelaySamples { is_a: *is_a, samples: *samples },
            deck_text("Delay samples ", *is_a, concat2(
                ": ",
                decimal_str(*samples).as_str(),
            ).as_str()),
            1000,
        ),
        DeckCommand::DelaySync { is_a, fraction } => {
            let tail: String = concat3(": ", plain2_str(*fraction).as_str(), " beats");
            tell(
                Act::DelaySync { is_a: *is_a, micros: *fraction },
                deck_text("Delay sync ", *is_a, tail.as_str()),
                1000,
            )
        },
        DeckCommand::LoopIn { is_a } => tell(
            Act::LoopIn { is_a: *is_a },
            deck_text("Loop IN ", *is_a, ""),
            1000,
        ),
        DeckCommand::LoopOut { is_a } => tell(
            Act::LoopOut { is_a: *is_a },
            deck_text("Loop OUT ", *is_a, ""),
            1000,
        ),
        DeckCommand::StopDeck { is_a } => tell(
            Act::StopDeck { is_a: *is_a },
            deck_text("Stop ", *is_a, ""),
            1000,
        ),
        DeckCommand::SeekDeck { is_a, time } => {
            let tail: String = concat3(" → ", plain1_str(*time).as_str(), "s");
            tell(
                Act::SeekDeck { is_a: *is_a, time: *time },
                deck_text("Seek ", *is_a, tail.as_str()),
                1000,
            )
        },
        DeckCommand::Cue { is_a, slot, action } => cue(*is_a, *slot, *action),
        _ => no_effects(),
    }
}

fn is_for_playback(c: &DeckCommand) -> (b: bool)
    ensures
        b == for_playback(*c),
{
    match c {
        DeckCommand::NudgeDeck { .. }
        | DeckCommand::PlayDeck { .. }
        | DeckCommand::JumpDeck { .. }
        | DeckCommand::CueJump { .. }
        | DeckCommand::CueSet { .. }
        | DeckCommand::SetRate { .. }
        | DeckCommand::SetEq { .. }
        | DeckCommand::SetDeckFilter { .. }
        | DeckCommand::SetChannelFader { .. }
        | DeckCommand::LoopBeats { .. }
        | DeckCommand::LoopRelease { .. }
        | DeckCommand::DelayFeedback { .. }
        | DeckCommand::DelaySamples { .. }
        | DeckCommand::DelaySync { .. }
        | DeckCommand::LoopIn { .. }
        | DeckCommand::LoopOut { .. }
        | DeckCommand::StopDeck { .. }
        | DeckCommand::SeekDeck { .. }
        | DeckCommand::Cue { .. } => false,
        _ => true,
    }
}

/// Runs a remote command for the engine.
pub fn run_deck_command(c: &DeckCommand) -> (fx: Vec<Effect>)
    ensures
        fx_view(fx@) == deck_effects(*c),
{
    if is_for_playback(c) {
        run_playback(c)
    } else {
        run_one_deck(c)
    }
}

/// Every remote command for the engine does something.
pub proof fn deck_commands_act(c: DeckCommand)
    ensures
        deck_effects(c).len() > 0,
{
}

/// What is said once automatic mixing is on again.
pub fn resume_auto_reply(was_paused: bool) -> (fx: Vec<Effect>)
    ensures
        fx_view(fx@) == seq![
            EffectV::Toast(
                if was_paused {
                    "Auto-mix re-enabled"@
                } else {
                    "Auto-mix already on"@
                },
                1000,
            ),
        ],
{
    if was_paused {
        only_toast("Auto-mix re-enabled", 1000)
    } else {
        only_toast("Auto-mix already on", 1000)
    }
}

/// What is said of a transition that was asked for.
pub fn transition_toast(name: &str, known: bool) -> (fx: Vec<Effect>)
    ensures
        fx_view(fx@) == seq![
            EffectV::Toast(
                if known {
                    "Transition → "@ + name@
                } else {
                    "Unknown transition: "@ + name@
                },
                1000,
            ),
        ],
{
    only_toast(crate::dj_app::transition_reply(name, known).as_str(), 1000)
}

/// What is said once the history was exported.
pub fn export_reply(count: usize) -> (fx: Vec<Effect>)
    ensures
        fx_view(fx@) == seq![
            EffectV::Toast("Exported "@ + decimal(count as nat) + " tracks (IPC)"@, 1000),
        ],
{
    let text: String = concat3("Exported ", decimal_str(count as u64).as_str(), " tracks (IPC)");
    only_toast(text.as_str(), 1000)
}

/// What is said once a screen was queued: how many of its tracks were new.
pub open spec fn queue_all_message(total: nat, added: nat) -> Seq<char> {
    if total == added {
        "Queued "@ + decimal(added) + " (remote)"@
    } else {
        "Queued "@ + decimal(added) + ", skipped "@ + decimal((total - added) as nat)
            + " dup (remote)"@
    }
}

pub fn queue_all_reply(total: usize, added: usize) -> (fx: Vec<Effect>)
    requires
        added <= total,
    ensures
        fx_view(fx@) == seq![
            EffectV::Toast(queue_all_message(total as nat, added as nat), 1500),
        ],
{
    let s: String = concat2("Queued ", decimal_str(added as u64).as_str());
    if total == added {
        only_toast(concat2(s.as_str(), " (remote)").as_str(), 1500)
    } else {
        let s: String = concat3(
            s.as_str(),
            ", skipped ",
            decimal_str((total - added) as u64).as_str(),
        );
        only_toast(concat2(s.as_str(), " dup (remote)").as_str(), 1500)
    }
}

/// What is said once a track was queued, or was there already. The tail marks
/// where the wish came from.
pub open spec fn queued_message(name: Seq<char>, added: bool, tail: Seq<char>) -> Seq<char> {
    if added {
        "Queued: "@ + name + tail
    } else {
        "Already queued: "@ + name + tail
    }
}

pub fn queued_toast(name: &str, added: bool, remote: bool) -> (fx: Vec<Effect>)
    ensures
        fx_view(fx@) == seq![
            if remote {
                EffectV::Toast(queued_message(name@, added, " (IPC)"@), 1000)
            } else {
                EffectV::Toast(queued_message(name@, added, ""@), 1500)
            },
        ],
{
    let head: &str = if added {
        "Queued: "
    } else {
        "Already queued: "
    };
    if remote {
        only_toast(concat3(head, name, " (IPC)").as_str(), 1000)
    } else {
        only_toast(concat3(head, name, "").as_str(), 1500)
    }
}

/// What is said of the favourite mark of the selected track.
pub fn favorite_reply(added: bool) -> (fx: Vec<Effect>)
    ensures
        fx_view(fx@) == seq![
            EffectV::Toast(
                if added {
                    "★ Favorited"@
                } else {
                    "Unfavorited"@
                },
                1000,
            ),
        ],
{
    if added {
        only_toast("★ Favorited", 1000)
    } else {
        only_toast("Unfavorited", 1000)
    }
}

} // verus!
