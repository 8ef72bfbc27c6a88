//! The tools that the DJ works the mixer with.
use crate::deck::NowPlaying;
use crate::dj_context::{phase_report, phase_report_str};
use crate::effects::{add_text, fx_view, no_effects, only_act, Act, Effect, EffectV, TextAct};
use crate::keymap::{lower_all, lowered};
use crate::meters::abs;
use crate::mixer::{deck_label, deck_letter};
use crate::numbers::{
    debug_number, debug_number_str, plain1, plain1_str, plain2, plain2_str, shortest, shortest_str,
    signed2, signed2_str, signed_whole_number, signed_whole_number_str,
};
use crate::text::{
    concat2, concat3, decimal, decimal_str, min_of, minus, owned, round_div, rounded_div,
    signed_decimal, signed_decimal_str, str_eq,
};
use vstd::prelude::*;
use vstd::string::*;

verus! {

/// A call of a tool: its name and its arguments, each under every form it can be
/// read in. Numbers are in millionths.
pub struct ToolCall {
    pub id: String,
    pub name: String,
    pub texts: Vec<(String, String)>,
    pub ints: Vec<(String, i64)>,
    pub numbers: Vec<(String, i64)>,
}

/// The text under a key.
pub open spec fn text_under(args: Seq<(String, String)>, key: Seq<char>) -> Option<Seq<char>>
    decreases args.len(),
{
    if args.len() == 0 {
        None
    } else if args[0].0@ == key {
        Some(args[0].1@)
    } else {
        text_under(args.skip(1), key)
    }
}

/// The number under a key.
pub open spec fn number_under(args: Seq<(String, i64)>, key: Seq<char>) -> Option<i64>
    decreases args.len(),
{
    if args.len() == 0 {
        None
    } else if args[0].0@ == key {
        Some(args[0].1)
    } else {
        number_under(args.skip(1), key)
    }
}

fn find_number(args: &Vec<(String, i64)>, key: &str) -> (r: Option<i64>)
    ensures
        r == number_under(args@, key@),
{
    let mut i: usize = 0;
    assert(args@.skip(0) =~= args@);
    while i < args.len()
        invariant
            i <= args.len(),
            number_under(args@, key@) == number_under(args@.skip(i as int), key@),
        decreases args.len() - i,
    {
        assert(args@.skip(i as int)[0] == args@[i as int]);
        assert(args@.skip(i as int).skip(1) =~= args@.skip(i + 1));
        if str_eq(args[i].0.as_str(), key) {
            return Some(args[i].1);
        }
        i += 1;
    }
    None
}

impl ToolCall {
    pub open spec fn spec_text(&self, key: Seq<char>) -> Option<Seq<char>> {
        text_under(self.texts@, key)
    }

    pub open spec fn spec_int(&self, key: Seq<char>) -> Option<i64> {
        number_under(self.ints@, key)
    }

    pub open spec fn spec_number(&self, key: Seq<char>) -> Option<i64> {
        number_under(self.numbers@, key)
    }

    /// The text under a key, or another one.
    pub open spec fn text_or(&self, key: Seq<char>, default: Seq<char>) -> Seq<char> {
        match self.spec_text(key) {
            Some(s) => s,
            None => default,
        }
    }

    pub open spec fn int_or(&self, key: Seq<char>, default: i64) -> i64 {
        match self.spec_int(key) {
            Some(n) => n,
            None => default,
        }
    }

    pub open spec fn number_or(&self, key: Seq<char>, default: i64) -> i64 {
        match self.spec_number(key) {
            Some(n) => n,
            None => default,
        }
    }

    /// The deck named is A, case aside; without a name it is the given one.
    pub open spec fn names_a(&self, default: bool) -> bool {
        match self.spec_text("deck"@) {
            Some(s) => lower_all(s) == "a"@,
            None => default,
        }
    }

    pub fn text(&self, key: &str) -> (r: Option<String>)
        ensures
            crate::boxes::opt_str(r) == self.spec_text(key@),
    {
        let args: &Vec<(String, String)> = &self.texts;
        let mut i: usize = 0;
        assert(args@.skip(0) =~= args@);
        while i < args.len()
            invariant
                i <= args.len(),
                args@ == self.texts@,
                text_under(args@, key@) == text_under(args@.skip(i as int), key@),
            decreases args.len() - i,
        {
            assert(args@.skip(i as int)[0] == args@[i as int]);
            assert(args@.skip(i as int).skip(1) =~= args@.skip(i + 1));
            if str_eq(args[i].0.as_str(), key) {
                return Some(owned(args[i].1.as_str()));
            }
            i += 1;
        }
        None
    }

    pub fn whole(&self, key: &str) -> (r: Option<i64>)
        ensures
            r == self.spec_int(key@),
    {
        find_number(&self.ints, key)
    }

    pub fn number(&self, key: &str) -> (r: Option<i64>)
        ensures
            r == self.spec_number(key@),
    {
        find_number(&self.numbers, key)
    }

    pub(crate) fn text_else(&self, key: &str, default: &str) -> (s: String)
        ensures
            s@ == self.text_or(key@, default@),
    {
        match self.text(key) {
            Some(s) => s,
            None => owned(default),
        }
    }

    pub(crate) fn int_else(&self, key: &str, default: i64) -> (n: i64)
        ensures
            n == self.int_or(key@, default),
    {
        match self.whole(key) {
            Some(n) => n,
            None => default,
        }
    }

    fn number_else(&self, key: &str, default: i64) -> (n: i64)
        ensures
            n == self.number_or(key@, default),
    {
        match self.number(key) {
            Some(n) => n,
            None => default,
        }
    }

    pub(crate) fn deck_is_a(&self, default: bool) -> (b: bool)
        ensures
            b == self.names_a(default),
    {
        match self.text("deck") {
            Some(s) => str_eq(lowered(s.as_str()).as_str(), "a"),
            None => default,
        }
    }
}

/// What the DJ is answered: a text, or one that waits for what the engine
/// says.
pub enum Answer {
    Text(String),
    /// Whether the transition with that name exists.
    Transition(String),
    /// How the track at a row fits; it was queued.
    Queued(usize),
    /// Where a named place of a deck is.
    SeekNamed(bool, String),
    Alignment,
    /// Whether a deck has a track to preview, or to play.
    Preview(bool),
    Play(bool),
}

#[verifier::ext_equal]
pub enum AnswerV {
    Text(Seq<char>),
    Transition(Seq<char>),
    Queued(usize),
    SeekNamed(bool, Seq<char>),
    Alignment,
    Preview(bool),
    Play(bool),
}

impl View for Answer {
    type V = AnswerV;

    open spec fn view(&self) -> AnswerV {
        match *self {
            Answer::Text(s) => AnswerV::Text(s@),
            Answer::Transition(s) => AnswerV::Transition(s@),
            Answer::Queued(i) => AnswerV::Queued(i),
            Answer::SeekNamed(a, s) => AnswerV::SeekNamed(a, s@),
            Answer::Alignment => AnswerV::Alignment,
            Answer::Preview(a) => AnswerV::Preview(a),
            Answer::Play(a) => AnswerV::Play(a),
        }
    }
}

/// The rate that turns a tempo, in thousandths, into another, in millionths; both
/// of a beat per minute. A track of no tempo has no such rate: the answer is as
/// far as numbers go.
pub open spec fn tempo_rate(bpm: i64, native: u32) -> int {
    let q = if native == 0 {
        if bpm == 0 {
            0
        } else {
            i64::MAX as int
        }
    } else {
        min_of((abs(bpm as int) * 1000) as int / native as int, i64::MAX as int)
    };
    if bpm < 0 {
        -q
    } else {
        q
    }
}

fn tempo_rate_of(bpm: i64, native: u32) -> (r: i64)
    ensures
        r == tempo_rate(bpm, native),
{
    let m: u128 = if bpm < 0 {
        (-(bpm as i128)) as u128
    } else {
        bpm as u128
    };
    let q: i64 = if native == 0 {
        if bpm == 0 {
            0
        } else {
            i64::MAX
        }
    } else {
        let d: u128 = m * 1000 / native as u128;
        if d > 0x7fff_ffff_ffff_ffff {
            i64::MAX
        } else {
            d as i64
        }
    };
    if bpm < 0 {
        -q
    } else {
        q
    }
}

pub open spec fn native_bpm(t: Option<crate::track::Track>) -> u32 {
    match t {
        Some(x) => match x.bpm {
            Some(b) => b,
            None => 128_000,
        },
        None => 128_000,
    }
}

fn native_bpm_of(t: &Option<crate::track::Track>) -> (b: u32)
    ensures
        b == native_bpm(*t),
{
    match t {
        Some(x) => match x.bpm {
            Some(b) => b,
            None => 128_000,
        },
        None => 128_000,
    }
}

/// A gain in hundredths of a decibel from one in millionths.
pub open spec fn gain(n: Option<i64>) -> Option<i32> {
    match n {
        None => None,
        Some(v) => {
            let q = min_of(round_div(abs(v as int), 10_000) as int, i32::MAX as int);
            Some(
                if v < 0 {
                    (-q) as i32
                } else {
                    q as i32
                },
            )
        },
    }
}

pub(crate) fn gain_of(n: Option<i64>) -> (g: Option<i32>)
    ensures
        g == gain(n),
{
    match n {
        None => None,
        Some(v) => {
            let m: u128 = if v < 0 {
                (-(v as i128)) as u128
            } else {
                v as u128
            };
            let d: u128 = rounded_div(m, 10_000);
            let q: i32 = if d > 0x7fff_ffff {
                i32::MAX
            } else {
                d as i32
            };
            Some(
                if v < 0 {
                    -q
                } else {
                    q
                },
            )
        },
    }
}

/// The slot of a hot cue, counted from one by the DJ.
pub open spec fn cue_slot(n: i64) -> usize {
    min_of(minus((n as usize) as int, 1) as int, 3) as usize
}

fn cue_slot_of(n: i64) -> (s: usize)
    ensures
        s == cue_slot(n),
        s <= 3,
{
    let m: usize = n as usize;
    if m <= 1 {
        0
    } else if m - 1 > 3 {
        3
    } else {
        m - 1
    }
}

/// A number of bars for a sweep of the crossfader.
pub open spec fn sweep_bars(n: i64) -> u32 {
    if n < 1 {
        1
    } else if n > 32 {
        32
    } else {
        n as u32
    }
}

/// What the tools do that turn the mixer as a whole: their effects and their
/// answer, where the name is one of theirs.
pub open spec fn mix_tool(tool: ToolCall, info: NowPlaying) -> Option<(Seq<EffectV>, AnswerV)> {
    let name = tool.name@;
    if name == "mix_now"@ {
        Some((seq![EffectV::Do(Act::MixNow)], AnswerV::Text("Crossfade triggered"@)))
    } else if name == "skip_track"@ {
        Some((seq![EffectV::Do(Act::Skip)], AnswerV::Text("Skipped"@)))
    } else if name == "read_phase"@ {
        Some((Seq::empty(), AnswerV::Text(phase_report(info))))
    } else if name == "adjust_tempo"@ {
        let deck = tool.text_or("deck"@, "playing"@);
        let bpm = tool.number_or("bpm"@, 128_000_000);
        Some(
            (
                if deck == "playing"@ {
                    seq![
                        EffectV::Do(
                            Act::SetPlayingRate(
                                tempo_rate(bpm, native_bpm(info.playing_track)) as i64,
                            ),
                        ),
                    ]
                } else {
                    seq![
                        EffectV::Do(
                            Act::SetIncomingRate(
                                tempo_rate(bpm, native_bpm(info.incoming_track)) as i64,
                            ),
                        ),
                    ]
                },
                AnswerV::Text("Set "@ + deck + " tempo to "@ + plain1(bpm as int) + " BPM"@),
            ),
        )
    } else if name == "nudge"@ {
        let forward = tool.spec_text("direction"@) == Some("forward"@);
        Some(
            (
                seq![
                    EffectV::Do(
                        Act::Nudge(
                            if forward {
                                1
                            } else {
                                (-1) as i32
                            },
                        ),
                    ),
                ],
                AnswerV::Text(
                    "Nudged "@ + (if forward {
                        "forward"@
                    } else {
                        "backward"@
                    }),
                ),
            ),
        )
    } else if name == "extend_playback"@ {
        let bars = tool.int_or("bars"@, 8) as i32;
        Some(
            (
                seq![EffectV::Do(Act::Extend(bars))],
                AnswerV::Text("Extended by "@ + signed_decimal(bars as int) + " bars"@),
            ),
        )
    } else if name == "set_eq"@ {
        let is_a = tool.names_a(true);
        let low = tool.spec_number("low"@);
        let mid = tool.spec_number("mid"@);
        let high = tool.spec_number("high"@);
        Some(
            (
                seq![
                    EffectV::Do(
                        Act::SetEq { is_a, low: gain(low), mid: gain(mid), high: gain(high) },
                    ),
                ],
                AnswerV::Text(
                    "EQ "@ + deck_letter(is_a) + " → low="@ + debug_number(low) + " mid="@
                        + debug_number(mid) + " high="@ + debug_number(high),
                ),
            ),
        )
    } else if name == "set_filter"@ {
        let is_a = tool.names_a(true);
        let pos = tool.number_or("pos"@, 0);
        Some(
            (
                seq![EffectV::Do(Act::SetFilter { is_a, pos })],
                AnswerV::Text("Filter "@ + deck_letter(is_a) + " → "@ + signed2(pos as int)),
            ),
        )
    } else if name == "set_transition"@ {
        let t = tool.text_or("type"@, "BeatMatched"@);
        Some((seq![EffectV::With(TextAct::SetTransition, t)], AnswerV::Transition(t)))
    } else if name == "loop_beats"@ {
        let is_a = tool.names_a(true);
        let beats = tool.number_or("beats"@, 4_000_000);
        Some(
            (
                seq![EffectV::Do(Act::LoopBeats { is_a, micros: beats })],
                AnswerV::Text(
                    "Loop "@ + deck_letter(is_a) + " for "@ + shortest(beats as int) + " beats"@,
                ),
            ),
        )
    } else {
        None
    }
}

/// What the tools do that work one deck, or the crossfader by hand.
pub open spec fn deck_tool(tool: ToolCall, monitored: bool) -> Option<(Seq<EffectV>, AnswerV)> {
    let name = tool.name@;
    if name == "set_crossfader"@ {
        let pos = tool.number_or("pos"@, 0);
        Some(
            (
                seq![EffectV::Do(Act::SetCrossfader(pos))],
                AnswerV::Text("Crossfader → "@ + signed2(pos as int)),
            ),
        )
    } else if name == "sweep_crossfader"@ {
        let target = tool.number_or("target"@, 0);
        let over_bars = sweep_bars(tool.int_or("bars"@, 8));
        Some(
            (
                seq![EffectV::Do(Act::SweepCrossfader { target, over_bars })],
                AnswerV::Text(
                    "Sweeping crossfader → "@ + signed2(target as int) + " over "@ + decimal(
                        over_bars as nat,
                    ) + " bars (engine paces — no further calls needed)"@,
                ),
            ),
        )
    } else if name == "set_channel_fader"@ {
        let is_a = tool.names_a(true);
        let level = tool.number_or("level"@, 1_000_000);
        Some(
            (
                seq![EffectV::Do(Act::SetFader { is_a, level })],
                AnswerV::Text(
                    "Deck "@ + deck_letter(is_a) + " fader → "@ + plain2(level as int),
                ),
            ),
        )
    } else if name == "jump_beats"@ {
        let is_a = tool.names_a(true);
        let by = tool.int_or("beats"@, 0) as i32;
        Some(
            (
                seq![EffectV::Do(Act::JumpDeckBeats { is_a, by })],
                AnswerV::Text(
                    "Deck "@ + deck_letter(is_a) + " jump "@ + signed_whole_number(by as int)
                        + " beats"@,
                ),
            ),
        )
    } else if name == "seek_deck"@ {
        let is_a = tool.names_a(true);
        match tool.spec_number("target"@) {
            Some(time) => Some(
                (
                    seq![EffectV::Do(Act::SeekDeck { is_a, time })],
                    AnswerV::Text(
                        "Deck "@ + deck_letter(is_a) + " seek → "@ + plain2(time as int) + "s"@,
                    ),
                ),
            ),
            None => match tool.spec_text("target"@) {
                Some(label) => Some(
                    (
                        seq![
                            EffectV::With(
                                if is_a {
                                    TextAct::SeekA
                                } else {
                                    TextAct::SeekB
                                },
                                label,
                            ),
                        ],
                        AnswerV::SeekNamed(is_a, label),
                    ),
                ),
                None => Some(
                    (
                        Seq::empty(),
                        AnswerV::Text(
                            "seek_deck: target must be a number (seconds) or a label"@,
                        ),
                    ),
                ),
            },
        }
    } else if name == "read_alignment"@ {
        Some((Seq::empty(), AnswerV::Alignment))
    } else if name == "preview_deck"@ {
        let is_a = tool.names_a(false);
        if monitored {
            Some((seq![EffectV::Do(Act::PreviewDeck { is_a })], AnswerV::Preview(is_a)))
        } else {
            Some((Seq::empty(), AnswerV::Text(no_monitor())))
        }
    } else if name == "stop_preview"@ {
        let is_a = tool.names_a(false);
        Some(
            (
                seq![EffectV::Do(Act::StopPreview { is_a })],
                AnswerV::Text("Preview stopped: deck "@ + deck_letter(is_a)),
            ),
        )
    } else if name == "play_deck"@ {
        let is_a = tool.names_a(false);
        Some((seq![EffectV::Do(Act::PlayDeck { is_a })], AnswerV::Play(is_a)))
    } else if name == "loop_release"@ {
        let is_a = tool.names_a(true);
        Some(
            (
                seq![EffectV::Do(Act::LoopRelease { is_a })],
                AnswerV::Text("Loop "@ + deck_letter(is_a) + " released"@),
            ),
        )
    } else if name == "cue"@ {
        Some(cue_tool(tool))
    } else {
        None
    }
}

pub open spec fn no_monitor() -> Seq<char> {
    "preview_deck needs a monitor_device configured — set one via settings or {\"monitor_device\":\"name\"} IPC"@
}

/// What the tool for hot cues does.
pub open spec fn cue_tool(tool: ToolCall) -> (Seq<EffectV>, AnswerV) {
    let is_a = tool.names_a(true);
    let slot = cue_slot(tool.int_or("slot"@, 1));
    let action = tool.text_or("action"@, "jump"@);
    let number = "Cue "@ + decimal((slot + 1) as nat);
    let deck = " ("@ + deck_letter(is_a) + ")"@;
    if action == "set"@ {
        (
            seq![EffectV::Do(Act::CueSet { is_a, slot })],
            AnswerV::Text(number + " set"@ + deck),
        )
    } else if action == "clear"@ {
        (
            seq![EffectV::Do(Act::CueClear { is_a, slot })],
            AnswerV::Text(number + " cleared"@ + deck),
        )
    } else {
        (
            seq![EffectV::Do(Act::CueJump { is_a, slot })],
            AnswerV::Text(number + " jump"@ + deck),
        )
    }
}

/// A hot cue that a tool names is one of the four, whatever it says.
pub proof fn cue_slots_exist(n: i64)
    ensures
        cue_slot(n) <= 3,
        1 <= n <= 4 ==> cue_slot(n) == n - 1,
{
}

/// A sweep takes between one and 32 bars.
pub proof fn sweeps_are_bounded(n: i64)
    ensures
        1 <= sweep_bars(n) <= 32,
        1 <= n <= 32 ==> sweep_bars(n) == n,
{
}

fn tempo_tool(tool: &ToolCall, info: &NowPlaying) -> (r: (Vec<Effect>, Answer))
    requires
        tool.name@ == "adjust_tempo"@,
    ensures
        mix_tool(*tool, *info) == Some((fx_view(r.0@), r.1@)),
{
    let deck: String = tool.text_else("deck", "playing");
    let bpm: i64 = tool.number_else("bpm", 128_000_000);
    let head: String = concat3("Set ", deck.as_str(), " tempo to ");
    let text: String = concat3(head.as_str(), plain1_str(bpm).as_str(), " BPM");
    let act: Act = if str_eq(deck.as_str(), "playing") {
        Act::SetPlayingRate(tempo_rate_of(bpm, native_bpm_of(&info.playing_track)))
    } else {
        Act::SetIncomingRate(tempo_rate_of(bpm, native_bpm_of(&info.incoming_track)))
    };
    proof {
        lemma_tool_names();
    }
    (only_act(act), Answer::Text(text))
}

fn eq_tool(tool: &ToolCall, info: &NowPlaying) -> (r: (Vec<Effect>, Answer))
    requires
        tool.name@ == "set_eq"@,
    ensures
        mix_tool(*tool, *info) == Some((fx_view(r.0@), r.1@)),
{
    let is_a: bool = tool.deck_is_a(true);
    let low: Option<i64> = tool.number("low");
    let mid: Option<i64> = tool.number("mid");
    let high: Option<i64> = tool.number("high");
    let s: String = concat3("EQ ", deck_label(is_a), " → low=");
    let s: String = concat3(s.as_str(), debug_number_str(low).as_str(), " mid=");
    let s: String = concat3(s.as_str(), debug_number_str(mid).as_str(), " high=");
    let s: String = concat2(s.as_str(), debug_number_str(high).as_str());
    proof {
        lemma_tool_names();
    }
    (
        only_act(
            Act::SetEq { is_a, low: gain_of(low), mid: gain_of(mid), high: gain_of(high) },
        ),
        Answer::Text(s),
    )
}

/// The names of the tools differ.
proof fn lemma_tool_names()
    ensures
        "adjust_tempo"@ != "mix_now"@,
        "adjust_tempo"@ != "skip_track"@,
        "adjust_tempo"@ != "read_phase"@,
        "set_eq"@ != "mix_now"@,
        "set_eq"@ != "skip_track"@,
        "set_eq"@ != "read_phase"@,
        "set_eq"@ != "adjust_tempo"@,
        "set_eq"@ != "nudge"@,
        "set_eq"@ != "extend_playback"@,
{
    reveal_strlit("adjust_tempo");
    reveal_strlit("mix_now");
    reveal_strlit("skip_track");
    reveal_strlit("read_phase");
    reveal_strlit("set_eq");
    reveal_strlit("nudge");
    reveal_strlit("extend_playback");
    assert("adjust_tempo"@.len() == 12);
    assert("mix_now"@.len() == 7);
    assert("skip_track"@.len() == 10);
    assert("read_phase"@.len() == 10);
    assert("set_eq"@.len() == 6);
    assert("nudge"@.len() == 5);
    assert("extend_playback"@.len() == 15);
}

/// Runs a tool that turns the mixer as a whole.
pub fn run_mix_tool(tool: &ToolCall, info: &NowPlaying) -> (r: Option<(Vec<Effect>, Answer)>)
    ensures
        match r {
            Some(x) => mix_tool(*tool, *info) == Some((fx_view(x.0@), x.1@)),
            None => mix_tool(*tool, *info) is None,
        },
{
    let name: &str = tool.name.as_str();
    if str_eq(name, "mix_now") {
        Some((only_act(Act::MixNow), Answer::Text(owned("Crossfade triggered"))))
    } else if str_eq(name, "skip_track") {
        Some((only_act(Act::Skip), Answer::Text(owned("Skipped"))))
    } else if str_eq(name, "read_phase") {
        Some((no_effects(), Answer::Text(phase_report_str(info))))
    } else if str_eq(name, "adjust_tempo") {
        Some(tempo_tool(tool, info))
    } else if str_eq(name, "nudge") {
        let forward: bool = match tool.text("direction") {
            Some(s) => str_eq(s.as_str(), "forward"),
            None => false,
        };
        if forward {
            Some((only_act(Act::Nudge(1)), Answer::Text(concat2("Nudged ", "forward"))))
        } else {
            Some((only_act(Act::Nudge(-1)), Answer::Text(concat2("Nudged ", "backward"))))
        }
    } else if str_eq(name, "extend_playback") {
        let bars: i32 = tool.int_else("bars", 8) as i32;
        let text: String = concat3(
            "Extended by ",
            signed_decimal_str(bars as i64).as_str(),
            " bars",
        );
        Some((only_act(Act::Extend(bars)), Answer::Text(text)))
    } else if str_eq(name, "set_eq") {
        Some(eq_tool(tool, info))
    } else if str_eq(name, "set_filter") {
        let is_a: bool = tool.deck_is_a(true);
        let pos: i64 = tool.number_else("pos", 0);
        let head: String = concat3("Filter ", deck_label(is_a), " → ");
        let text: String = concat2(head.as_str(), signed2_str(pos).as_str());
        Some((only_act(Act::SetFilter { is_a, pos }), Answer::Text(text)))
    } else if str_eq(name, "set_transition") {
        let t: String = tool.text_else("type", "BeatMatched");
        let fx: Vec<Effect> = only_text(TextAct::SetTransition, t.as_str());
        Some((fx, Answer::Transition(t)))
    } else if str_eq(name, "loop_beats") {
        let is_a: bool = tool.deck_is_a(true);
        let beats: i64 = tool.number_else("beats", 4_000_000);
        let head: String = concat3("Loop ", deck_label(is_a), " for ");
        let text: String = concat3(head.as_str(), shortest_str(beats).as_str(), " beats");
        Some((only_act(Act::LoopBeats { is_a, micros: beats }), Answer::Text(text)))
    } else {
        None
    }
}

fn only_text(act: TextAct, text: &str) -> (fx: Vec<Effect>)
    ensures
        fx_view(fx@) == seq![EffectV::With(act, text@)],
{
    let mut fx: Vec<Effect> = no_effects();
    add_text(&mut fx, act, text);
    assert(fx_view(fx@) =~= seq![EffectV::With(act, text@)]);
    fx
}

fn run_cue_tool(tool: &ToolCall) -> (r: (Vec<Effect>, Answer))
    ensures
        (fx_view(r.0@), r.1@) == cue_tool(*tool),
{
    let is_a: bool = tool.deck_is_a(true);
    let slot: usize = cue_slot_of(tool.int_else("slot", 1));
    let action: String = tool.text_else("action", "jump");
    let number: String = concat2("Cue ", decimal_str((slot + 1) as u64).as_str());
    let deck: String = concat3(" (", deck_label(is_a), ")");
    if str_eq(action.as_str(), "set") {
        (
            only_act(Act::CueSet { is_a, slot }),
            Answer::Text(concat3(number.as_str(), " set", deck.as_str())),
        )
    } else if str_eq(action.as_str(), "clear") {
        (
            only_act(Act::CueClear { is_a, slot }),
            Answer::Text(concat3(number.as_str(), " cleared", deck.as_str())),
        )
    } else {
        (
            only_act(Act::CueJump { is_a, slot }),
            Answer::Text(concat3(number.as_str(), " jump", deck.as_str())),
        )
    }
}

fn run_seek_tool(tool: &ToolCall, is_a: bool) -> (r: (Vec<Effect>, Answer))
    requires
        is_a == tool.names_a(true),
        tool.name@ == "seek_deck"@,
        tool.name@ != "set_crossfader"@,
        tool.name@ != "sweep_crossfader"@,
        tool.name@ != "set_channel_fader"@,
        tool.name@ != "jump_beats"@,
    ensures
        deck_tool(*tool, true) == Some((fx_view(r.0@), r.1@)),
        deck_tool(*tool, false) == Some((fx_view(r.0@), r.1@)),
{
    match tool.number("target") {
        Some(time) => {
            let head: String = concat3("Deck ", deck_label(is_a), " seek → ");
            let text: String = concat3(head.as_str(), plain2_str(time).as_str(), "s");
            (only_act(Act::SeekDeck { is_a, time }), Answer::Text(text))
        },
        None => match tool.text("target") {
            Some(label) => {
                let act: TextAct = if is_a {
                    TextAct::SeekA
                } else {
                    TextAct::SeekB
                };
                let fx: Vec<Effect> = only_text(act, label.as_str());
                (fx, Answer::SeekNamed(is_a, label))
            },
            None => (
                no_effects(),
                Answer::Text(owned("seek_deck: target must be a number (seconds) or a label")),
            ),
        },
    }
}

/// Runs a tool that works one deck, or the crossfader by hand.
pub fn run_deck_tool(tool: &ToolCall, monitored: bool) -> (r: Option<(Vec<Effect>, Answer)>)
    ensures
        match r {
            Some(x) => deck_tool(*tool, monitored) == Some((fx_view(x.0@), x.1@)),
            None => deck_tool(*tool, monitored) is None,
        },
{
    let name: &str = tool.name.as_str();
    if str_eq(name, "set_crossfader") {
        let pos: i64 = tool.number_else("pos", 0);
        let text: String = concat2("Crossfader → ", signed2_str(pos).as_str());
        Some((only_act(Act::SetCrossfader(pos)), Answer::Text(text)))
    } else if str_eq(name, "sweep_crossfader") {
        let target: i64 = tool.number_else("target", 0);
        let n: i64 = tool.int_else("bars", 8);
        let over_bars: u32 = if n < 1 {
            1
        } else if n > 32 {
            32
        } else {
            n as u32
        };
        let head: String = concat3(
            "Sweeping crossfader → ",
            signed2_str(target).as_str(),
            " over ",
        );
        let text: String = concat3(
            head.as_str(),
            decimal_str(over_bars as u64).as_str(),
            " bars (engine paces — no further calls needed)",
        );
        Some((only_act(Act::SweepCrossfader { target, over_bars }), Answer::Text(text)))
    } else if str_eq(name, "set_channel_fader") {
        let is_a: bool = tool.deck_is_a(true);
        let level: i64 = tool.number_else("level", 1_000_000);
        let head: String = concat3("Deck ", deck_label(is_a), " fader → ");
        let text: String = concat2(head.as_str(), plain2_str(level).as_str());
        Some((only_act(Act::SetFader { is_a, level }), Answer::Text(text)))
    } else if str_eq(name, "jump_beats") {
        let is_a: bool = tool.deck_is_a(true);
        let by: i32 = tool.int_else("beats", 0) as i32;
        let head: String = concat3("Deck ", deck_label(is_a), " jump ");
        let text: String = concat3(
            head.as_str(),
            signed_whole_number_str(by as i64).as_str(),
            " beats",
        );
        Some((only_act(Act::JumpDeckBeats { is_a, by }), Answer::Text(text)))
    } else if str_eq(name, "seek_deck") {
        let is_a: bool = tool.deck_is_a(true);
        Some(run_seek_tool(tool, is_a))
    } else if str_eq(name, "read_alignment") {
        Some((no_effects(), Answer::Alignment))
    } else if str_eq(name, "preview_deck") {
        let is_a: bool = tool.deck_is_a(false);
        if monitored {
            Some((only_act(Act::PreviewDeck { is_a }), Answer::Preview(is_a)))
        } else {
            Some(
                (
                    no_effects(),
                    Answer::Text(
                        owned(
                            "preview_deck needs a monitor_device configured — set one via settings or {\"monitor_device\":\"name\"} IPC",
                        ),
                    ),
                ),
            )
        }
    } else if str_eq(name, "stop_preview") {
        let is_a: bool = tool.deck_is_a(false);
        let text: String = concat2("Preview stopped: deck ", deck_label(is_a));
        Some((only_act(Act::StopPreview { is_a }), Answer::Text(text)))
    } else if str_eq(name, "play_deck") {
        let is_a: bool = tool.deck_is_a(false);
        Some((only_act(Act::PlayDeck { is_a }), Answer::Play(is_a)))
    } else if str_eq(name, "loop_release") {
        let is_a: bool = tool.deck_is_a(true);
        let text: String = concat3("Loop ", deck_label(is_a), " released");
        Some((only_act(Act::LoopRelease { is_a }), Answer::Text(text)))
    } else if str_eq(name, "cue") {
        Some(run_cue_tool(tool))
    } else {
        None
    }
}

} // verus!
