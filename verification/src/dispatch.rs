//! From a key to a command: when a key fires, and what each command does.
use crate::command::{builtin, first_with, registry, CommandRun, CommandWhen, Registry};
use crate::config::AnalyzerEngine;
use crate::effects::{
    act_and_toast, add_act, fx_view, no_effects, only_act, only_toast, Act, Effect, EffectV,
};
use crate::inputs::ViewMode;
use crate::key::KeyEvent;
use crate::keymap::{chord_of, Chord, Keymap};
use crate::text::{concat2, concat3};
use crate::track::{bpm_tenths, bpm_tenths_str};
use vstd::prelude::*;
use vstd::string::*;

verus! {

/// What may be reading the keys before the commands do.
#[derive(Debug, Clone, Copy, PartialEq, Eq, Structural)]
pub struct Capture {
    pub fav_picker: bool,
    pub asking: bool,
    pub filtering: bool,
    pub prompt: bool,
    pub midi_map: bool,
    pub confirm: bool,
    /// A setting is being typed.
    pub editing: bool,
    pub view: ViewMode,
}

/// No modal, prompt or filter is capturing keystrokes, whatever the screen.
pub open spec fn no_modal_capture(c: Capture) -> bool {
    !c.fav_picker && !c.asking && !c.filtering && !c.prompt && !c.midi_map && !c.confirm
        && !c.editing
}

/// The screen reads no keys of its own.
pub open spec fn reads_no_keys(view: ViewMode) -> bool {
    view is Browse || view is Queue || view is History || view is Dashboard || view is ClaudeDj
}

/// A key of a command with that guard fires.
pub open spec fn allowed(when: CommandWhen, c: Capture) -> bool {
    match when {
        CommandWhen::Always => true,
        CommandWhen::NoModalCapture => no_modal_capture(c),
        CommandWhen::DashboardNormal => no_modal_capture(c) && c.view is Dashboard,
        CommandWhen::FreeScreen => no_modal_capture(c) && reads_no_keys(c.view),
    }
}

/// No guarded command fires while keystrokes are captured.
pub proof fn captured_keys_fire_nothing(when: CommandWhen, c: Capture)
    requires
        c.prompt || c.confirm || c.midi_map || c.filtering || c.asking || c.fav_picker || c.editing,
        !(when is Always),
    ensures
        !allowed(when, c),
{
}

fn captures_nothing(c: &Capture) -> (b: bool)
    ensures
        b == no_modal_capture(*c),
{
    !c.fav_picker && !c.asking && !c.filtering && !c.prompt && !c.midi_map && !c.confirm
        && !c.editing
}

pub fn is_allowed(when: CommandWhen, c: &Capture) -> (b: bool)
    ensures
        b == allowed(when, *c),
{
    match when {
        CommandWhen::Always => true,
        CommandWhen::NoModalCapture => captures_nothing(c),
        CommandWhen::DashboardNormal => captures_nothing(c) && c.view == ViewMode::Dashboard,
        CommandWhen::FreeScreen => {
            let free: bool = match c.view {
                ViewMode::Browse
                | ViewMode::Queue
                | ViewMode::History
                | ViewMode::Dashboard
                | ViewMode::ClaudeDj => true,
                _ => false,
            };
            captures_nothing(c) && free
        },
    }
}

/// The command that a key fires.
pub open spec fn dispatched(keys: Map<Chord, Seq<char>>, key: KeyEvent, c: Capture) -> Option<
    CommandRun,
> {
    if keys.dom().contains(chord_of(key)) {
        match first_with(builtin(), keys[chord_of(key)]) {
            Some(cmd) => if allowed(cmd.when, c) {
                Some(cmd.run)
            } else {
                None
            },
            None => None,
        }
    } else {
        None
    }
}

/// The command that a key fires, if it is bound, known, and its guard holds.
pub fn try_dispatch(keymap: &Keymap, key: &KeyEvent, c: &Capture) -> (r: Option<CommandRun>)
    requires
        keymap.wf(),
    ensures
        r == dispatched(keymap@, *key, *c),
{
    match keymap.resolve(key) {
        Some(id) => {
            let all: Registry = registry();
            match all.get(id) {
                Some(cmd) => {
                    let when: CommandWhen = cmd.when;
                    let run: CommandRun = cmd.run;
                    assert(cmd@.when == when && cmd@.run == run);
                    if is_allowed(when, c) {
                        Some(run)
                    } else {
                        None
                    }
                },
                None => None,
            }
        },
        None => None,
    }
}

/// What the command with that id does, whatever its guard.
pub open spec fn run_of(id: Seq<char>) -> Option<CommandRun> {
    match first_with(builtin(), id) {
        Some(c) => Some(c.run),
        None => None,
    }
}

/// Finds a command by its id, whatever its guard.
pub fn run(id: &str) -> (r: Option<CommandRun>)
    ensures
        r == run_of(id@),
{
    let all: Registry = registry();
    match all.get(id) {
        Some(cmd) => {
            let run: CommandRun = cmd.run;
            assert(cmd@.run == run);
            Some(run)
        },
        None => None,
    }
}

pub open spec fn other_engine(e: AnalyzerEngine) -> AnalyzerEngine {
    match e {
        AnalyzerEngine::Builtin => AnalyzerEngine::Stratum,
        AnalyzerEngine::Stratum => AnalyzerEngine::Builtin,
    }
}

pub fn other_engine_of(e: AnalyzerEngine) -> (r: AnalyzerEngine)
    ensures
        r == other_engine(e),
{
    match e {
        AnalyzerEngine::Builtin => AnalyzerEngine::Stratum,
        AnalyzerEngine::Stratum => AnalyzerEngine::Builtin,
    }
}

/// What a command asks of the outside, with the analyzer engine in use before it.
pub open spec fn command_effects(run: CommandRun, engine: AnalyzerEngine) -> Seq<EffectV> {
    match run {
        CommandRun::BailCrossfade => seq![EffectV::Do(Act::BailCrossfade)],
        CommandRun::MixNow => seq![EffectV::Do(Act::MixNow), EffectV::Toast("Mix now"@, 1000)],
        CommandRun::ToggleSplitCue => seq![EffectV::Do(Act::ToggleSplitCue)],
        CommandRun::ToggleMetronome => seq![EffectV::Do(Act::ToggleMetronome)],
        CommandRun::Pause => seq![EffectV::Do(Act::Pause), EffectV::Toast("Play/Pause"@, 1000)],
        CommandRun::Skip => seq![EffectV::Do(Act::Skip), EffectV::Toast("Skipped"@, 1000)],
        CommandRun::Teleport => seq![
            EffectV::Do(Act::Teleport),
            EffectV::Toast("Teleport to mix point"@, 1000),
        ],
        CommandRun::RewindLast => seq![EffectV::Do(Act::RequestRewind)],
        CommandRun::CycleAnalyzer => seq![
            EffectV::Do(Act::SaveConfig),
            EffectV::Do(Act::Reanalyze(other_engine(engine))),
        ],
        _ => Seq::empty(),
    }
}

pub fn command_effects_of(run: CommandRun, engine: AnalyzerEngine) -> (fx: Vec<Effect>)
    ensures
        fx_view(fx@) == command_effects(run, engine),
{
    match run {
        CommandRun::BailCrossfade => only_act(Act::BailCrossfade),
        CommandRun::MixNow => act_and_toast(Act::MixNow, "Mix now", 1000),
        CommandRun::ToggleSplitCue => only_act(Act::ToggleSplitCue),
        CommandRun::ToggleMetronome => only_act(Act::ToggleMetronome),
        CommandRun::Pause => act_and_toast(Act::Pause, "Play/Pause", 1000),
        CommandRun::Skip => act_and_toast(Act::Skip, "Skipped", 1000),
        CommandRun::Teleport => act_and_toast(Act::Teleport, "Teleport to mix point", 1000),
        CommandRun::RewindLast => only_act(Act::RequestRewind),
        CommandRun::CycleAnalyzer => {
            let mut fx: Vec<Effect> = only_act(Act::SaveConfig);
            add_act(&mut fx, Act::Reanalyze(other_engine_of(engine)));
            assert(fx_view(fx@) =~= command_effects(run, engine));
            fx
        },
        _ => no_effects(),
    }
}

/// The view a command shows.
pub open spec fn command_view(run: CommandRun) -> Option<ViewMode> {
    match run {
        CommandRun::ViewDashboard => Some(ViewMode::Dashboard),
        CommandRun::ViewBrowse => Some(ViewMode::Browse),
        CommandRun::ViewHistory => Some(ViewMode::History),
        CommandRun::ViewSettings => Some(ViewMode::Settings),
        CommandRun::ViewQueue => Some(ViewMode::Queue),
        _ => None,
    }
}

pub fn command_view_of(run: CommandRun) -> (v: Option<ViewMode>)
    ensures
        v == command_view(run),
{
    match run {
        CommandRun::ViewDashboard => Some(ViewMode::Dashboard),
        CommandRun::ViewBrowse => Some(ViewMode::Browse),
        CommandRun::ViewHistory => Some(ViewMode::History),
        CommandRun::ViewSettings => Some(ViewMode::Settings),
        CommandRun::ViewQueue => Some(ViewMode::Queue),
        _ => None,
    }
}

/// What the engine answers to an emergency exit from a crossfade.
pub open spec fn bail_message(bailed: bool) -> EffectV {
    if bailed {
        EffectV::Toast("⚠ Bailed to EchoOut"@, 2000)
    } else {
        EffectV::Toast("Nothing to bail (not crossfading)"@, 1000)
    }
}

pub fn bail_reply(bailed: bool) -> (fx: Vec<Effect>)
    ensures
        fx_view(fx@) == seq![bail_message(bailed)],
{
    if bailed {
        only_toast("⚠ Bailed to EchoOut", 2000)
    } else {
        only_toast("Nothing to bail (not crossfading)", 1000)
    }
}

/// What is said once the split cue is on or off.
pub fn split_cue_reply(on: bool) -> (fx: Vec<Effect>)
    ensures
        fx_view(fx@) == seq![
            EffectV::Toast(
                if on {
                    "Split cue: ON (L=deck A, R=deck B)"@
                } else {
                    "Split cue: OFF"@
                },
                2000,
            ),
        ],
{
    if on {
        only_toast("Split cue: ON (L=deck A, R=deck B)", 2000)
    } else {
        only_toast("Split cue: OFF", 2000)
    }
}

/// What is said once the metronome is on or off.
pub fn metronome_reply(on: bool) -> (fx: Vec<Effect>)
    ensures
        fx_view(fx@) == seq![
            EffectV::Toast(
                if on {
                    "Metronome: ON"@
                } else {
                    "Metronome: OFF"@
                },
                1000,
            ),
        ],
{
    if on {
        only_toast("Metronome: ON", 1000)
    } else {
        only_toast("Metronome: OFF", 1000)
    }
}

/// What the engine answers to a rewind.
pub enum RewindOutcome {
    InPlace,
    /// The track with that name has to be loaded again.
    NeedLoad(String),
    Blocked,
    Nothing,
}

pub open spec fn rewind_effects(o: RewindOutcome) -> Seq<EffectV> {
    match o {
        RewindOutcome::InPlace => seq![EffectV::Toast("Rewinding last mix"@, 2000)],
        RewindOutcome::NeedLoad(name) => seq![
            EffectV::Do(Act::LoadNamed { as_incoming: true }),
            EffectV::Toast("Rewinding: "@ + name@, 2000),
        ],
        RewindOutcome::Blocked => seq![
            EffectV::Toast("Wait for the current mix to finish before rewinding"@, 2500),
        ],
        RewindOutcome::Nothing => seq![EffectV::Toast("No mix to rewind"@, 1500)],
    }
}

pub fn rewind_reply(o: &RewindOutcome) -> (fx: Vec<Effect>)
    ensures
        fx_view(fx@) == rewind_effects(*o),
{
    match o {
        RewindOutcome::InPlace => only_toast("Rewinding last mix", 2000),
        RewindOutcome::NeedLoad(name) => act_and_toast(
            Act::LoadNamed { as_incoming: true },
            concat2("Rewinding: ", name.as_str()).as_str(),
            2000,
        ),
        RewindOutcome::Blocked => only_toast(
            "Wait for the current mix to finish before rewinding",
            2500,
        ),
        RewindOutcome::Nothing => only_toast("No mix to rewind", 1500),
    }
}

/// What is said once the playing deck was analysed again: which engine, and the
/// tempo found, in thousandths of a beat per minute.
pub open spec fn reanalyze_message(engine: AnalyzerEngine, compiled: bool, bpm: Option<u32>) -> EffectV {
    let label = match engine {
        AnalyzerEngine::Builtin => "built-in"@,
        AnalyzerEngine::Stratum => "stratum"@,
    };
    let note = if engine is Stratum && !compiled {
        " (not compiled — using built-in)"@
    } else {
        ""@
    };
    match bpm {
        Some(b) => EffectV::Toast(
            "Engine: "@ + label + note + " — re-gridded @ "@ + bpm_tenths(b) + " BPM"@,
            3000,
        ),
        None => EffectV::Toast("Engine: "@ + label + note + " (no track loaded)"@, 2000),
    }
}

pub fn reanalyze_reply(engine: AnalyzerEngine, compiled: bool, bpm: Option<u32>) -> (fx: Vec<
    Effect,
>)
    ensures
        fx_view(fx@) == seq![reanalyze_message(engine, compiled, bpm)],
{
    let label: &str = match engine {
        AnalyzerEngine::Builtin => "built-in",
        AnalyzerEngine::Stratum => "stratum",
    };
    let note: &str = if engine == AnalyzerEngine::Stratum && !compiled {
        " (not compiled — using built-in)"
    } else {
        ""
    };
    let head: String = concat3("Engine: ", label, note);
    match bpm {
        Some(b) => {
            let a: String = concat3(
                head.as_str(),
                " — re-gridded @ ",
                bpm_tenths_str(b).as_str(),
            );
            only_toast(concat2(a.as_str(), " BPM").as_str(), 3000)
        },
        None => only_toast(concat2(head.as_str(), " (no track loaded)").as_str(), 2000),
    }
}

} // verus!
