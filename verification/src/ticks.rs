//! What happens on its own as time goes by: calls of the DJ, saves, dumps, and
//! what the engine reports.
use crate::app::App;
use crate::config::ClaudeDjMode;
use crate::controls::DashFocus;
use crate::deck::NowPlaying;
use crate::effects::{
    add_act, add_effects, add_text, fx_view, no_effects, only_act, only_toast, Act, Effect, EffectV,
    TextAct,
};
use crate::inputs::ViewMode;
use crate::meters::{phase_str, phase_text};
use crate::mixer::{deck_label, deck_letter};
use crate::modals::{midi_map_view, MidiMapV, PendingMidiMap};
use crate::numbers::{signed2, signed2_str};
use crate::paths::{path_tick_done, test_mix_step, test_mix_tick, PathOut, TestMixEnv, TestMixState};
use crate::ratings::{sync_mixes, synced, HistoryMix, MixEntry};
use crate::text::{
    concat3, decimal, decimal_str, minus, owned, round_div, rounded_div, wide_decimal_str,
};
use vstd::prelude::*;
use vstd::string::*;

verus! {

/// So much time has passed since then; times are in milliseconds.
pub open spec fn due(now: u64, last: u64, period: int) -> bool {
    minus(now as int, last as int) >= period
}

fn is_due(now: u64, last: u64, period: u64) -> (b: bool)
    ensures
        b == due(now, last, period as int),
{
    let passed: u64 = if now < last {
        0
    } else {
        now - last
    };
    passed >= period
}

/// When the DJ was called, and what for.
#[derive(Debug, Clone, Copy, PartialEq, Eq, Structural)]
pub struct DjWatch {
    /// A crossfade ran at the last tick.
    pub was_crossfading: bool,
    /// The checks at a third and at two thirds of this crossfade were made.
    pub checked_early: bool,
    pub checked_late: bool,
    pub low_queue_at: u64,
    pub crossfade_at: u64,
}

/// Why the DJ is called.
#[derive(Debug, Clone, Copy, PartialEq, Eq, Structural)]
pub enum DjCall {
    CrossfadeStart,
    LowQueue,
    EarlyCheck,
    LateCheck,
    Stalled,
}

/// Which check of the phase is due: one from 30% to 70% of the way, one from
/// there to 95%.
pub open spec fn check_due(w: DjWatch, progress: u32) -> Option<DjCall> {
    if 300_000 <= progress < 700_000 && !w.checked_early {
        Some(DjCall::EarlyCheck)
    } else if 700_000 <= progress < 950_000 && !w.checked_late {
        Some(DjCall::LateCheck)
    } else {
        None
    }
}

/// Why the DJ is called now, if it is; `ready` means that it is on, may call
/// and is not at work.
pub open spec fn dj_call(w: DjWatch, info: NowPlaying, mode: ClaudeDjMode, ready: bool, now: u64) -> Option<
    DjCall,
> {
    let fading = info.crossfading;
    if !ready {
        None
    } else if fading && !w.was_crossfading {
        Some(DjCall::CrossfadeStart)
    } else if !fading && info.queue@.len() < 3 && info.playing_track is Some && due(
        now,
        w.low_queue_at,
        30_000,
    ) {
        Some(DjCall::LowQueue)
    } else if fading && (mode is Manual || mode is Assist) && check_due(
        w,
        info.crossfade_progress,
    ) is Some {
        check_due(w, info.crossfade_progress)
    } else if fading && mode is Manual && info.crossfade_progress < 900_000 && due(
        now,
        w.crossfade_at,
        10_000,
    ) {
        Some(DjCall::Stalled)
    } else {
        None
    }
}

/// What is remembered of a tick.
pub open spec fn watched(w: DjWatch, fading: bool, call: Option<DjCall>, now: u64) -> DjWatch {
    let after = match call {
        Some(DjCall::CrossfadeStart) => DjWatch {
            crossfade_at: now,
            checked_early: false,
            checked_late: false,
            ..w
        },
        Some(DjCall::LowQueue) => DjWatch { low_queue_at: now, ..w },
        Some(DjCall::EarlyCheck) => DjWatch { checked_early: true, crossfade_at: now, ..w },
        Some(DjCall::LateCheck) => DjWatch { checked_late: true, crossfade_at: now, ..w },
        Some(DjCall::Stalled) => DjWatch { crossfade_at: now, ..w },
        None => w,
    };
    DjWatch { was_crossfading: fading, ..after }
}

/// Each check is made once in a crossfade, a low queue is never reported during
/// one, and no two calls for a stalled crossfade come within ten seconds.
pub proof fn calls_are_spaced(
    w: DjWatch,
    info: NowPlaying,
    mode: ClaudeDjMode,
    ready: bool,
    now: u64,
    later: NowPlaying,
    then_at: u64,
)
    requires
        info.crossfading,
        later.crossfading,
        now <= then_at,
    ensures
        ({
            let call = dj_call(w, info, mode, ready, now);
            let next = dj_call(watched(w, true, call, now), later, mode, ready, then_at);
            &&& call != Some(DjCall::LowQueue)
            &&& next != Some(DjCall::CrossfadeStart)
            &&& call == Some(DjCall::EarlyCheck) ==> next != Some(DjCall::EarlyCheck)
            &&& call == Some(DjCall::LateCheck) ==> next != Some(DjCall::LateCheck)
            &&& call is Some && then_at - now < 10_000 ==> next != Some(DjCall::Stalled)
        }),
{
}

/// Nothing is called while the DJ is off or at work.
pub proof fn busy_dj_is_left_alone(w: DjWatch, info: NowPlaying, mode: ClaudeDjMode, now: u64)
    ensures
        dj_call(w, info, mode, false, now) is None,
{
}

/// The side of the crossfader that a crossfade goes to.
pub open spec fn sweep_target(playing_is_a: bool) -> Seq<char> {
    if playing_is_a {
        "+1"@
    } else {
        "-1"@
    }
}

fn sweep_target_str(playing_is_a: bool) -> (s: &'static str)
    ensures
        s@ == sweep_target(playing_is_a),
{
    if playing_is_a {
        "+1"
    } else {
        "-1"
    }
}

/// What the DJ is told when a crossfade starts by hand.
pub open spec fn manual_start(playing_is_a: bool) -> Seq<char> {
    "Crossfade started — MANUAL MODE. Deck "@ + deck_letter(playing_is_a)
        + " is playing live, deck "@ + deck_letter(!playing_is_a)
        + " is cued. Make ONE call: sweep_crossfader(target="@ + sweep_target(playing_is_a)
        + ", bars=8). The engine paces the sweep over 8 bars; do NOT call set_crossfader repeatedly. When the sweep finishes the engine swaps decks — the mix is done. You may also call read_alignment first to spot 1s/phrase mismatches."@
}

fn manual_start_str(playing_is_a: bool) -> (s: String)
    ensures
        s@ == manual_start(playing_is_a),
{
    let s: String = concat3(
        "Crossfade started — MANUAL MODE. Deck ",
        deck_label(playing_is_a),
        " is playing live, deck ",
    );
    let s: String = concat3(
        s.as_str(),
        deck_label(!playing_is_a),
        " is cued. Make ONE call: sweep_crossfader(target=",
    );
    concat3(
        s.as_str(),
        sweep_target_str(playing_is_a),
        ", bars=8). The engine paces the sweep over 8 bars; do NOT call set_crossfader repeatedly. When the sweep finishes the engine swaps decks — the mix is done. You may also call read_alignment first to spot 1s/phrase mismatches.",
    )
}

/// What the DJ is told in the middle of a crossfade.
pub open spec fn check_reason(info: NowPlaying) -> Seq<char> {
    "Mid-mix phase check ("@ + decimal(info.crossfade_progress as nat / 10_000) + "%): phase="@
        + phase_text(info.phase_us as int)
        + ". Call read_alignment. If phase |drift| > 5ms or beat_in_bar mismatched, call nudge or jump_beats NOW — the sweep finishes in a few bars."@
}

/// What the DJ is told of a crossfade that does not move.
pub open spec fn stalled_reason(info: NowPlaying) -> Seq<char> {
    let target = sweep_target(info.playing_is_a);
    "URGENT: crossfade stalled. Deck "@ + deck_letter(info.playing_is_a)
        + " is playing. Crossfader is at "@ + signed2(info.crossfader_pos as int)
        + ", progress is "@ + decimal(round_div(info.crossfade_progress as nat, 10_000))
        + "%. Call sweep_crossfader(target="@ + target
        + ", bars=4) — ONE call, the engine paces it. Completion happens automatically when the sweep reaches "@
        + target + "."@
}

fn stalled_reason_str(info: &NowPlaying) -> (s: String)
    ensures
        s@ == stalled_reason(*info),
{
    let target: &str = sweep_target_str(info.playing_is_a);
    let s: String = concat3(
        "URGENT: crossfade stalled. Deck ",
        deck_label(info.playing_is_a),
        " is playing. Crossfader is at ",
    );
    let s: String = concat3(s.as_str(), signed2_str(info.crossfader_pos).as_str(), ", progress is ");
    let p: u128 = rounded_div(info.crossfade_progress as u128, 10_000);
    let s: String = concat3(
        s.as_str(),
        wide_decimal_str(p).as_str(),
        "%. Call sweep_crossfader(target=",
    );
    let s: String = concat3(
        s.as_str(),
        target,
        ", bars=4) — ONE call, the engine paces it. Completion happens automatically when the sweep reaches ",
    );
    concat3(s.as_str(), target, ".")
}

/// What the DJ is told.
pub open spec fn call_reason(call: DjCall, info: NowPlaying, mode: ClaudeDjMode) -> Seq<char> {
    match call {
        DjCall::CrossfadeStart => if mode is Manual {
            manual_start(info.playing_is_a)
        } else {
            "Crossfade just started. Check phase alignment with read_phase — nudge if needed."@
        },
        DjCall::LowQueue => "Queue is low — find and queue a track that flows well with what's playing."@,
        DjCall::Stalled => stalled_reason(info),
        _ => check_reason(info),
    }
}

fn call_reason_str(call: DjCall, info: &NowPlaying, mode: ClaudeDjMode) -> (s: String)
    ensures
        s@ == call_reason(call, *info, mode),
{
    match call {
        DjCall::CrossfadeStart => {
            if mode == ClaudeDjMode::Manual {
                manual_start_str(info.playing_is_a)
            } else {
                owned(
                    "Crossfade just started. Check phase alignment with read_phase — nudge if needed.",
                )
            }
        },
        DjCall::LowQueue => owned(
            "Queue is low — find and queue a track that flows well with what's playing.",
        ),
        DjCall::Stalled => stalled_reason_str(info),
        _ => {
            let percent: u32 = info.crossfade_progress / 10_000;
            let s: String = concat3(
                "Mid-mix phase check (",
                decimal_str(percent as u64).as_str(),
                "%): phase=",
            );
            concat3(
                s.as_str(),
                phase_str(info.phase_us).as_str(),
                ". Call read_alignment. If phase |drift| > 5ms or beat_in_bar mismatched, call nudge or jump_beats NOW — the sweep finishes in a few bars.",
            )
        },
    }
}

fn decide_call(w: &DjWatch, info: &NowPlaying, mode: ClaudeDjMode, ready: bool, now: u64) -> (c:
    Option<DjCall>)
    ensures
        c == dj_call(*w, *info, mode, ready, now),
{
    if !ready {
        return None;
    }
    let fading: bool = info.crossfading;
    if fading && !w.was_crossfading {
        return Some(DjCall::CrossfadeStart);
    }
    if !fading {
        return if info.queue.len() < 3 && info.playing_track.is_some() && is_due(
            now,
            w.low_queue_at,
            30_000,
        ) {
            Some(DjCall::LowQueue)
        } else {
            None
        };
    }
    let p: u32 = info.crossfade_progress;
    if mode == ClaudeDjMode::Manual || mode == ClaudeDjMode::Assist {
        if 300_000 <= p && p < 700_000 && !w.checked_early {
            return Some(DjCall::EarlyCheck);
        }
        if 700_000 <= p && p < 950_000 && !w.checked_late {
            return Some(DjCall::LateCheck);
        }
    }
    if mode == ClaudeDjMode::Manual && p < 900_000 && is_due(now, w.crossfade_at, 10_000) {
        return Some(DjCall::Stalled);
    }
    None
}

fn remember_call(w: &mut DjWatch, fading: bool, call: Option<DjCall>, now: u64)
    ensures
        *final(w) == watched(*old(w), fading, call, now),
{
    if let Some(c) = call {
        match c {
            DjCall::CrossfadeStart => {
                w.crossfade_at = now;
                w.checked_early = false;
                w.checked_late = false;
            },
            DjCall::LowQueue => {
                w.low_queue_at = now;
            },
            DjCall::EarlyCheck => {
                w.checked_early = true;
                w.crossfade_at = now;
            },
            DjCall::LateCheck => {
                w.checked_late = true;
                w.crossfade_at = now;
            },
            DjCall::Stalled => {
                w.crossfade_at = now;
            },
        }
    }
    w.was_crossfading = fading;
}

/// The call of the DJ that a tick leads to.
pub open spec fn dj_effects(w: DjWatch, info: NowPlaying, mode: ClaudeDjMode, ready: bool, now: u64) -> Seq<
    EffectV,
> {
    match dj_call(w, info, mode, ready, now) {
        Some(c) => seq![EffectV::With(TextAct::TriggerDj, call_reason(c, info, mode))],
        None => Seq::empty(),
    }
}

/// Calls the DJ where there is a reason.
pub fn dj_tick(w: &mut DjWatch, info: &NowPlaying, mode: ClaudeDjMode, ready: bool, now: u64) -> (fx:
    Vec<Effect>)
    ensures
        fx_view(fx@) == dj_effects(*old(w), *info, mode, ready, now),
        *final(w) == watched(
            *old(w),
            info.crossfading,
            dj_call(*old(w), *info, mode, ready, now),
            now,
        ),
{
    let call: Option<DjCall> = decide_call(w, info, mode, ready, now);
    remember_call(w, info.crossfading, call, now);
    match call {
        Some(c) => {
            let mut fx: Vec<Effect> = no_effects();
            add_text(&mut fx, TextAct::TriggerDj, call_reason_str(c, info, mode).as_str());
            assert(fx_view(fx@) =~= seq![
                EffectV::With(TextAct::TriggerDj, call_reason(c, *info, mode)),
            ]);
            fx
        },
        None => no_effects(),
    }
}

/// When things were last written.
#[derive(Debug, Clone, Copy, PartialEq, Eq, Structural)]
pub struct Timers {
    pub quick_at: u64,
    pub session_at: u64,
    pub screen_at: u64,
}

pub open spec fn when(b: bool, act: Act) -> Seq<EffectV> {
    if b {
        seq![EffectV::Do(act)]
    } else {
        Seq::empty()
    }
}

/// What is written on a tick before the DJ is thought of: the status where it
/// is asked for, a short one four times a second, the session every five seconds
/// unless the last one is still being asked about.
pub open spec fn writes(t: Timers, now: u64, status: bool, asks_resume: bool) -> (
    Timers,
    Seq<EffectV>,
) {
    let quick = due(now, t.quick_at, 250);
    let session = !asks_resume && due(now, t.session_at, 5000);
    (
        Timers {
            quick_at: if quick {
                now
            } else {
                t.quick_at
            },
            session_at: if session {
                now
            } else {
                t.session_at
            },
            ..t
        },
        when(status, Act::WriteStatus) + when(quick, Act::WriteQuickStatus) + when(
            session,
            Act::SaveSession,
        ),
    )
}

/// A session that is being asked about is not written over.
pub proof fn asked_session_is_kept(t: Timers, now: u64, status: bool)
    ensures
        !writes(t, now, status, true).1.contains(EffectV::Do(Act::SaveSession)),
{
}

fn tick_writes(t: &mut Timers, now: u64, status: bool, asks_resume: bool) -> (fx: Vec<Effect>)
    ensures
        (*final(t), fx_view(fx@)) == writes(*old(t), now, status, asks_resume),
{
    let mut fx: Vec<Effect> = no_effects();
    if status {
        add_act(&mut fx, Act::WriteStatus);
    }
    if is_due(now, t.quick_at, 250) {
        add_act(&mut fx, Act::WriteQuickStatus);
        t.quick_at = now;
    }
    if !asks_resume && is_due(now, t.session_at, 5000) {
        add_act(&mut fx, Act::SaveSession);
        t.session_at = now;
    }
    assert(fx_view(fx@) =~= writes(*old(t), now, status, asks_resume).1);
    fx
}

/// What is kept from tick to tick beside the screens.
pub struct TickState {
    pub watch: DjWatch,
    pub timers: Timers,
    pub mixes: Vec<Option<HistoryMix>>,
    /// Mixes that wait for their place in the history.
    pub waiting: Vec<MixEntry>,
}

/// A mapping in the making with the first event that came.
pub open spec fn caught(m: Option<MidiMapV>, latest: Option<Seq<char>>) -> (
    Option<MidiMapV>,
    Seq<EffectV>,
) {
    match (m, latest) {
        (Some(p), Some(event)) => if p.captured is None {
            (
                Some(MidiMapV { captured: Some(event), ..p }),
                seq![
                    EffectV::Toast(
                        "Captured: "@ + event + " → "@ + p.action_label
                            + "\nPress Y to save, Esc to cancel"@,
                        10_000,
                    ),
                ],
            )
        } else {
            (m, Seq::empty())
        },
        _ => (m, Seq::empty()),
    }
}

/// The first event that comes is kept, and no later one replaces it.
pub proof fn first_event_is_kept(m: MidiMapV, first: Seq<char>, second: Option<Seq<char>>)
    requires
        m.captured is None,
    ensures
        caught(Some(m), Some(first)).0->0.captured == Some(first),
        caught(caught(Some(m), Some(first)).0, second).0 == caught(Some(m), Some(first)).0,
{
}

pub fn capture_midi(m: &mut Option<PendingMidiMap>, latest: &Option<String>) -> (fx: Vec<Effect>)
    ensures
        (midi_map_view(*final(m)), fx_view(fx@)) == caught(
            midi_map_view(*old(m)),
            crate::boxes::opt_str(*latest),
        ),
        *old(m) is None ==> *final(m) is None,
{
    let taken: Option<PendingMidiMap> = m.take();
    match taken {
        Some(p) => {
            if p.captured.is_none() {
                if let Some(event) = latest {
                    let s: String = concat3("Captured: ", event.as_str(), " → ");
                    let s: String = concat3(
                        s.as_str(),
                        p.action_label.as_str(),
                        "\nPress Y to save, Esc to cancel",
                    );
                    *m = Some(
                        PendingMidiMap {
                            action: p.action,
                            action_label: p.action_label,
                            captured: Some(owned(event.as_str())),
                        },
                    );
                    return only_toast(s.as_str(), 10_000);
                }
            }
            *m = Some(p);
            no_effects()
        },
        None => no_effects(),
    }
}

/// What the engine reports on a tick.
pub enum EngineEvent {
    NeedFirstTrack,
    NeedNextTrack,
    PlaybackEnded,
    /// A mix was finished.
    CrossfadeComplete(MixEntry),
    /// The mix drifted apart by so many microseconds, and was given up or not.
    TrainWreckDetected { rms_us: u64, bailed: bool },
    AutoMixPaused,
}

/// What follows from what the engine reports.
pub open spec fn event_effects(e: EngineEvent) -> Seq<EffectV> {
    match e {
        EngineEvent::NeedFirstTrack => seq![EffectV::Do(Act::LoadNamed { as_incoming: false })],
        EngineEvent::NeedNextTrack => seq![EffectV::Do(Act::LoadNamed { as_incoming: true })],
        EngineEvent::PlaybackEnded => seq![EffectV::Toast("Playback ended"@, 2000)],
        EngineEvent::CrossfadeComplete(_) => Seq::empty(),
        EngineEvent::TrainWreckDetected { rms_us, bailed } => seq![
            EffectV::Toast(
                (if bailed {
                    "⚠ Train wreck — bailed to EchoOut (RMS "@
                } else {
                    "⚠ Train wreck detected (RMS "@
                }) + decimal(round_div(rms_us as nat, 1000)) + "ms)"@,
                4000,
            ),
        ],
        EngineEvent::AutoMixPaused => seq![
            EffectV::Toast("Auto-mix paused — resumes after this track or :auto"@, 2500),
        ],
    }
}

impl TickState {
    /// Takes in what the engine reports; a finished mix waits for its place in the
    /// history.
    pub fn engine_event(&mut self, e: EngineEvent) -> (fx: Vec<Effect>)
        ensures
            fx_view(fx@) == event_effects(e),
            final(self).watch == old(self).watch,
            final(self).timers == old(self).timers,
            final(self).mixes == old(self).mixes,
            final(self).waiting@ == (match e {
                EngineEvent::CrossfadeComplete(m) => old(self).waiting@.push(m),
                _ => old(self).waiting@,
            }),
    {
        match e {
            EngineEvent::NeedFirstTrack => only_act(Act::LoadNamed { as_incoming: false }),
            EngineEvent::NeedNextTrack => only_act(Act::LoadNamed { as_incoming: true }),
            EngineEvent::PlaybackEnded => only_toast("Playback ended", 2000),
            EngineEvent::CrossfadeComplete(m) => {
                self.waiting.push(m);
                no_effects()
            },
            EngineEvent::TrainWreckDetected { rms_us, bailed } => {
                let head: &str = if bailed {
                    "⚠ Train wreck — bailed to EchoOut (RMS "
                } else {
                    "⚠ Train wreck detected (RMS "
                };
                let n: String = wide_decimal_str(rounded_div(rms_us as u128, 1000));
                only_toast(concat3(head, n.as_str(), "ms)").as_str(), 4000)
            },
            EngineEvent::AutoMixPaused => only_toast(
                "Auto-mix paused — resumes after this track or :auto",
                2500,
            ),
        }
    }
}

/// What is known of the outside at the end of a tick.
#[derive(Debug, Clone, Copy)]
pub struct TickEnv {
    /// The time, in milliseconds.
    pub now: u64,
    /// The status is asked for.
    pub status: bool,
    /// The DJ is on, may call and is not at work.
    pub dj_ready: bool,
}

/// The test mix after a tick, and what it does.
pub open spec fn mix_ticked(s: Option<TestMixState>, env: TestMixEnv) -> (
    Option<TestMixState>,
    bool,
    Seq<EffectV>,
) {
    match s {
        Some(x) => test_mix_step(x, env),
        None => (None, false, Seq::empty()),
    }
}

impl App {
    /// The first half of a tick: the browse path goes on, and a controller that is
    /// waited for is caught.
    pub fn tick_begin(&mut self, latest: &Option<String>) -> (o: PathOut)
        requires
            old(self).wf(),
        ensures
            final(self).wf(),
            exists|mid: App, first: Seq<EffectV>| #[trigger]
                path_tick_done(*old(self), mid, o.step@, first) && *final(self) == (App {
                    midi_map: final(self).midi_map,
                    ..mid
                }) && midi_map_view(final(self).midi_map) == caught(
                    midi_map_view(mid.midi_map),
                    crate::boxes::opt_str(*latest),
                ).0 && fx_view(o.effects@) == first + caught(
                    midi_map_view(mid.midi_map),
                    crate::boxes::opt_str(*latest),
                ).1,
    {
        let o: PathOut = self.browse_path_tick();
        let ghost mid = *self;
        let ghost first = fx_view(o.effects@);
        let more: Vec<Effect> = capture_midi(&mut self.midi_map, latest);
        let PathOut { found, step, effects } = o;
        let mut fx: Vec<Effect> = effects;
        add_effects(&mut fx, more);
        assert(path_tick_done(*old(self), mid, step@, first));
        PathOut { found, step, effects: fx }
    }

    /// The second half of a tick, once what plays is known: ratings catch up with the
    /// history, things are written, the DJ is called, and the test mix goes on.
    pub fn tick_end(&mut self, t: &mut TickState, info: &NowPlaying, env: &TickEnv) -> (fx: Vec<
        Effect,
    >)
        requires
            old(self).wf(),
        ensures
            final(self).wf(),
            ({
                let w = writes(old(t).timers, env.now, env.status, old(self).asks_resume);
                let listed = old(self).nav@.screen().labels@.len() > 2
                    && old(self).nav@.screen().is_tracks();
                let both = crate::paths::decks_differ(info.deck_a.track, info.deck_b.track);
                let mix = mix_ticked(
                    old(self).test_mix,
                    TestMixEnv { listed, both_ready: both },
                );
                let screen = due(env.now, old(t).timers.screen_at, 500);
                let mode = old(self).config.claude_dj.mode;
                &&& (final(t).mixes@, final(t).waiting@) == synced(
                    old(t).mixes@,
                    old(t).waiting@,
                    info.history@,
                )
                &&& final(t).watch == watched(
                    old(t).watch,
                    info.crossfading,
                    dj_call(old(t).watch, *info, mode, env.dj_ready, env.now),
                    env.now,
                )
                &&& final(t).timers == (Timers {
                    screen_at: if screen {
                        env.now
                    } else {
                        old(t).timers.screen_at
                    },
                    ..w.0
                })
                &&& *final(self) == (App {
                    test_mix: mix.0,
                    view: if mix.1 {
                        ViewMode::Dashboard
                    } else {
                        old(self).view
                    },
                    ..*old(self)
                })
                &&& fx_view(fx@) == w.1 + dj_effects(
                    old(t).watch,
                    *info,
                    mode,
                    env.dj_ready,
                    env.now,
                ) + mix.2 + when(screen, Act::WriteScreen)
            }),
    {
        sync_mixes(&mut t.mixes, &mut t.waiting, &info.history);
        let mut fx: Vec<Effect> = tick_writes(
            &mut t.timers,
            env.now,
            env.status,
            self.asks_resume,
        );
        let mode: ClaudeDjMode = self.config.claude_dj.mode;
        let calls: Vec<Effect> = dj_tick(&mut t.watch, info, mode, env.dj_ready, env.now);
        add_effects(&mut fx, calls);
        if let Some(s) = self.test_mix {
            let e: TestMixEnv = self.test_mix_env(info);
            let (next, dashboard, more): (Option<TestMixState>, bool, Vec<Effect>) = test_mix_tick(
                s,
                e,
            );
            self.test_mix = next;
            if dashboard {
                self.view = ViewMode::Dashboard;
            }
            add_effects(&mut fx, more);
        } else {
            assert(fx_view(fx@) =~= fx_view(fx@) + Seq::<EffectV>::empty());
        }
        let ghost before = fx_view(fx@);
        if is_due(env.now, t.timers.screen_at, 500) {
            add_act(&mut fx, Act::WriteScreen);
            t.timers.screen_at = env.now;
            assert(fx_view(fx@) =~= before + when(true, Act::WriteScreen));
        } else {
            assert(fx_view(fx@) =~= before + when(false, Act::WriteScreen));
        }
        fx
    }
}

/// The name of a view in the status.
pub open spec fn view_label(v: ViewMode) -> Seq<char> {
    match v {
        ViewMode::Browse => "browse"@,
        ViewMode::Dashboard => "dashboard"@,
        ViewMode::Queue => "queue"@,
        ViewMode::History => "history"@,
        ViewMode::Settings => "settings"@,
        ViewMode::Help => "help"@,
        ViewMode::Search => "search"@,
        _ => "other"@,
    }
}

pub fn view_name(v: ViewMode) -> (s: &'static str)
    ensures
        s@ == view_label(v),
{
    match v {
        ViewMode::Browse => "browse",
        ViewMode::Dashboard => "dashboard",
        ViewMode::Queue => "queue",
        ViewMode::History => "history",
        ViewMode::Settings => "settings",
        ViewMode::Help => "help",
        ViewMode::Search => "search",
        _ => "other",
    }
}

/// The name of the focus in the status.
pub open spec fn focus_label(f: DashFocus) -> Seq<char> {
    match f {
        DashFocus::Controller => "Controller"@,
        DashFocus::Queue => "Queue"@,
        DashFocus::History => "History"@,
        DashFocus::Browse => "Browse"@,
        DashFocus::Log => "Log"@,
    }
}

pub fn focus_name(f: DashFocus) -> (s: &'static str)
    ensures
        s@ == focus_label(f),
{
    match f {
        DashFocus::Controller => "Controller",
        DashFocus::Queue => "Queue",
        DashFocus::History => "History",
        DashFocus::Browse => "Browse",
        DashFocus::Log => "Log",
    }
}

} // verus!
