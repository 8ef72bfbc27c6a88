//! What the tools of the DJ do to the mixer.
use crate::act_kinds::{act_amount, act_deck};
use crate::app::App;
use crate::deck::NowPlaying;
use crate::dj_app::{numbered, tempo_note, toggle_effects, tool_done, ToolOutV};
use crate::dj_tools::{number_under, text_under, ToolCall};
use crate::effects::{Act, EffectV, TextAct};
use crate::keymap::lower_all;
use crate::remote_laws::gain_kept;
use crate::text::{decimal, digits_value};
use crate::track::Track;
use vstd::prelude::*;

verus! {

/// Three marks that tell the names of all tools apart.
#[verifier::opaque]
pub open spec fn marks(s: Seq<char>) -> (char, char, nat) {
    (s[0], s.last(), s.len())
}

pub proof fn lemma_tool_marks()
    ensures
        marks("mix_now"@) == ('m', 'w', 7nat),
        marks("skip_track"@) == ('s', 'k', 10nat),
        marks("read_phase"@) == ('r', 'e', 10nat),
        marks("adjust_tempo"@) == ('a', 'o', 12nat),
        marks("nudge"@) == ('n', 'e', 5nat),
        marks("extend_playback"@) == ('e', 'k', 15nat),
        marks("set_eq"@) == ('s', 'q', 6nat),
        marks("set_filter"@) == ('s', 'r', 10nat),
        marks("set_transition"@) == ('s', 'n', 14nat),
        marks("loop_beats"@) == ('l', 's', 10nat),
        marks("set_crossfader"@) == ('s', 'r', 14nat),
        marks("sweep_crossfader"@) == ('s', 'r', 16nat),
        marks("set_channel_fader"@) == ('s', 'r', 17nat),
        marks("jump_beats"@) == ('j', 's', 10nat),
        marks("seek_deck"@) == ('s', 'k', 9nat),
        marks("read_alignment"@) == ('r', 't', 14nat),
        marks("preview_deck"@) == ('p', 'k', 12nat),
        marks("stop_preview"@) == ('s', 'w', 12nat),
        marks("play_deck"@) == ('p', 'k', 9nat),
        marks("loop_release"@) == ('l', 'e', 12nat),
        marks("cue"@) == ('c', 'e', 3nat),
        marks("select_item"@) == ('s', 'm', 11nat),
        marks("go_back"@) == ('g', 'k', 7nat),
        marks("search_tracks"@) == ('s', 's', 13nat),
        marks("set_crossfade_bars"@) == ('s', 's', 18nat),
        marks("browse_screen"@) == ('b', 'n', 13nat),
        marks("queue_track"@) == ('q', 'k', 11nat),
        marks("queue_all"@) == ('q', 'l', 9nat),
        marks("load_to_deck"@) == ('l', 'k', 12nat),
{
    reveal(marks);
    reveal_strlit("mix_now");
    reveal_strlit("skip_track");
    reveal_strlit("read_phase");
    reveal_strlit("adjust_tempo");
    reveal_strlit("nudge");
    reveal_strlit("extend_playback");
    reveal_strlit("set_eq");
    reveal_strlit("set_filter");
    reveal_strlit("set_transition");
    reveal_strlit("loop_beats");
    reveal_strlit("set_crossfader");
    reveal_strlit("sweep_crossfader");
    reveal_strlit("set_channel_fader");
    reveal_strlit("jump_beats");
    reveal_strlit("seek_deck");
    reveal_strlit("read_alignment");
    reveal_strlit("preview_deck");
    reveal_strlit("stop_preview");
    reveal_strlit("play_deck");
    reveal_strlit("loop_release");
    reveal_strlit("cue");
    reveal_strlit("select_item");
    reveal_strlit("go_back");
    reveal_strlit("search_tracks");
    reveal_strlit("set_crossfade_bars");
    reveal_strlit("browse_screen");
    reveal_strlit("queue_track");
    reveal_strlit("queue_all");
    reveal_strlit("load_to_deck");
}

/// An argument is the first one under its key.
pub proof fn first_number_is_read(args: Seq<(String, i64)>, key: Seq<char>, i: int)
    requires
        0 <= i < args.len(),
        args[i].0@ == key,
        forall|j: int| 0 <= j < i ==> (#[trigger] args[j]).0@ != key,
    ensures
        number_under(args, key) == Some(args[i].1),
    decreases args.len(),
{
    if i > 0 {
        assert(args[0].0@ != key);
        assert forall|j: int| 0 <= j < i - 1 implies (#[trigger] args.skip(1)[j]).0@ != key by {
            assert(args[j + 1].0@ != key);
        }
        first_number_is_read(args.skip(1), key, i - 1);
    }
}

pub proof fn first_text_is_read(args: Seq<(String, String)>, key: Seq<char>, i: int)
    requires
        0 <= i < args.len(),
        args[i].0@ == key,
        forall|j: int| 0 <= j < i ==> (#[trigger] args[j]).0@ != key,
    ensures
        text_under(args, key) == Some(args[i].1@),
    decreases args.len(),
{
    if i > 0 {
        assert(args[0].0@ != key);
        assert forall|j: int| 0 <= j < i - 1 implies (#[trigger] args.skip(1)[j]).0@ != key by {
            assert(args[j + 1].0@ != key);
        }
        first_text_is_read(args.skip(1), key, i - 1);
    }
}

/// A rate turns a natural tempo, in thousandths, into the tempo asked for, in
/// millionths, as nearly below it as whole millionths go.
pub open spec fn runs_at(rate: i64, natural: u32, asked: i64) -> bool {
    &&& rate * natural <= asked * 1000
    &&& asked * 1000 < (rate + 1) * natural
}

proof fn lemma_runs_at(asked: i64, natural: u32)
    requires
        0 <= asked <= 9_000_000_000_000_000,
        natural > 0,
    ensures
        runs_at(crate::dj_tools::tempo_rate(asked, natural) as i64, natural, asked),
{
    let x = asked * 1000;
    let n = natural as int;
    let q = x / n;
    assert(q * n <= x < (q + 1) * n) by (nonlinear_arith)
        requires
            q == x / n,
            n > 0,
    ;
    assert(0 <= q <= x) by (nonlinear_arith)
        requires
            q == x / n,
            n > 0,
            x >= 0,
    ;
    assert(crate::dj_tools::tempo_rate(asked, natural) == q);
}

/// The tempo of a track, where it is known.
pub open spec fn has_tempo(t: Option<Track>, natural: u32) -> bool {
    t matches Some(x) && x.bpm == Some(natural)
}

/// Asked to run the playing track at a tempo, the DJ sets the rate at which that
/// track runs at it, and nothing else.
pub proof fn playing_tempo_is_as_asked(
    a: App,
    b: App,
    o: ToolOutV,
    tool: ToolCall,
    info: NowPlaying,
    signed_in: bool,
    natural: u32,
    asked: i64,
)
    requires
        tool_done(a, b, o, tool, info, signed_in),
        tool.name@ == "adjust_tempo"@,
        tool.spec_text("deck"@) is None || tool.spec_text("deck"@) == Some("playing"@),
        tool.spec_number("bpm"@) == Some(asked),
        0 <= asked <= 9_000_000_000_000_000,
        has_tempo(info.playing_track, natural),
        natural > 0,
    ensures
        b == a,
        o.effects.len() == 1,
        o.effects[0] matches EffectV::Do(Act::SetPlayingRate(rate)) && runs_at(rate, natural, asked),
{
    lemma_tool_marks();
    lemma_runs_at(asked, natural);
}

/// Asked to run the incoming track at a tempo, the DJ sets the rate at which that
/// track runs at it, and nothing else.
pub proof fn incoming_tempo_is_as_asked(
    a: App,
    b: App,
    o: ToolOutV,
    tool: ToolCall,
    info: NowPlaying,
    signed_in: bool,
    natural: u32,
    asked: i64,
)
    requires
        tool_done(a, b, o, tool, info, signed_in),
        tool.name@ == "adjust_tempo"@,
        tool.spec_text("deck"@) == Some("incoming"@),
        tool.spec_number("bpm"@) == Some(asked),
        0 <= asked <= 9_000_000_000_000_000,
        has_tempo(info.incoming_track, natural),
        natural > 0,
    ensures
        b == a,
        o.effects.len() == 1,
        o.effects[0] matches EffectV::Do(Act::SetIncomingRate(rate)) && runs_at(
            rate,
            natural,
            asked,
        ),
{
    lemma_tool_marks();
    lemma_runs_at(asked, natural);
    reveal_strlit("incoming");
    reveal_strlit("playing");
    assert("incoming"@.len() == 8 && "playing"@.len() == 7);
}

/// The rate of one track does not depend on the other one.
pub proof fn tempos_are_independent(
    a: App,
    b1: App,
    b2: App,
    o1: ToolOutV,
    o2: ToolOutV,
    tool: ToolCall,
    info: NowPlaying,
    other: NowPlaying,
    signed_in: bool,
)
    requires
        tool_done(a, b1, o1, tool, info, signed_in),
        tool_done(a, b2, o2, tool, other, signed_in),
        tool.name@ == "adjust_tempo"@,
        tool.spec_text("deck"@) == Some("incoming"@) ==> info.incoming_track
            == other.incoming_track,
        tool.spec_text("deck"@) == Some("playing"@) ==> info.playing_track == other.playing_track,
        tool.spec_text("deck"@) == Some("incoming"@) || tool.spec_text("deck"@) == Some(
            "playing"@,
        ),
    ensures
        o1 == o2,
{
    lemma_tool_marks();
    reveal_strlit("incoming");
    reveal_strlit("playing");
    assert("incoming"@.len() == 8 && "playing"@.len() == 7);
}

/// The deck that the DJ names, where it names one.
pub open spec fn named_deck(tool: ToolCall) -> Option<bool> {
    match tool.spec_text("deck"@) {
        Some(s) => if s == "A"@ || s == "a"@ {
            Some(true)
        } else if s == "B"@ || s == "b"@ {
            Some(false)
        } else {
            None
        },
        None => None,
    }
}

proof fn lemma_named(tool: ToolCall, default: bool)
    requires
        named_deck(tool) is Some,
    ensures
        named_deck(tool) == Some(tool.names_a(default)),
{
    reveal_strlit("A");
    reveal_strlit("a");
    reveal_strlit("B");
    reveal_strlit("b");
    assert(lower_all("A"@) =~= "a"@);
    assert(lower_all("a"@) =~= "a"@);
    assert(lower_all("B"@)[0] == 'b');
    assert(lower_all("b"@)[0] == 'b');
}

/// Whatever tool the DJ uses on a deck that it names works on that deck.
#[verifier::spinoff_prover]
#[verifier::rlimit(60)]
pub proof fn tools_stay_on_their_deck(
    a: App,
    b: App,
    o: ToolOutV,
    tool: ToolCall,
    info: NowPlaying,
    signed_in: bool,
    i: int,
)
    requires
        tool_done(a, b, o, tool, info, signed_in),
        named_deck(tool) is Some,
        0 <= i < o.effects.len(),
    ensures
        o.effects[i] matches EffectV::Do(act) ==> act_deck(act) is None || act_deck(act)
            == named_deck(tool),
        o.effects[i] matches EffectV::With(t, s) ==> (t == TextAct::SeekA ==> named_deck(tool)
            == Some(true)) && (t == TextAct::SeekB ==> named_deck(tool) == Some(false)),
{
    lemma_named(tool, true);
    lemma_named(tool, false);
}

/// A tool does what it is called.
pub open spec fn tool_does(name: Seq<char>, act: Act) -> bool {
    &&& name == "mix_now"@ ==> act is MixNow
    &&& name == "skip_track"@ ==> act is Skip
    &&& name == "nudge"@ ==> act is Nudge
    &&& name == "extend_playback"@ ==> act is Extend
    &&& name == "set_eq"@ ==> act is SetEq
    &&& name == "set_filter"@ ==> act is SetFilter
    &&& name == "loop_beats"@ ==> act is LoopBeats
    &&& name == "set_crossfader"@ ==> act is SetCrossfader
    &&& name == "sweep_crossfader"@ ==> act is SweepCrossfader
    &&& name == "set_channel_fader"@ ==> act is SetFader
    &&& name == "jump_beats"@ ==> act is JumpDeckBeats
    &&& name == "seek_deck"@ ==> act is SeekDeck
    &&& name == "preview_deck"@ ==> act is PreviewDeck
    &&& name == "stop_preview"@ ==> act is StopPreview
    &&& name == "play_deck"@ ==> act is PlayDeck
    &&& name == "loop_release"@ ==> act is LoopRelease
    &&& name == "cue"@ ==> act is CueSet || act is CueClear || act is CueJump
    &&& name == "queue_track"@ ==> act is Enqueue
    &&& name == "queue_all"@ ==> act is EnqueueAll
    &&& name == "load_to_deck"@ ==> act is EnqueueFront
    &&& name == "read_phase"@ ==> false
    &&& name == "read_alignment"@ ==> false
    &&& name == "browse_screen"@ ==> false
    &&& name == "select_item"@ ==> false
    &&& name == "go_back"@ ==> false
}

#[verifier::spinoff_prover]
#[verifier::rlimit(60)]
pub proof fn tools_do_as_called(
    a: App,
    b: App,
    o: ToolOutV,
    tool: ToolCall,
    info: NowPlaying,
    signed_in: bool,
    i: int,
)
    requires
        tool_done(a, b, o, tool, info, signed_in),
        0 <= i < o.effects.len(),
    ensures
        o.effects[i] matches EffectV::Do(act) ==> tool_does(tool.name@, act),
{
    lemma_tool_marks();
}

/// The number that a tool hands on, by its name.
pub open spec fn tool_number(tool: ToolCall) -> Option<i64> {
    let name = tool.name@;
    if name == "set_filter"@ || name == "set_crossfader"@ {
        tool.spec_number("pos"@)
    } else if name == "set_channel_fader"@ {
        tool.spec_number("level"@)
    } else if name == "sweep_crossfader"@ || name == "seek_deck"@ {
        tool.spec_number("target"@)
    } else if name == "loop_beats"@ {
        tool.spec_number("beats"@)
    } else {
        None
    }
}

/// A number that the DJ gives reaches the engine unchanged.
#[verifier::spinoff_prover]
#[verifier::rlimit(60)]
pub proof fn numbers_reach_the_engine(
    a: App,
    b: App,
    o: ToolOutV,
    tool: ToolCall,
    info: NowPlaying,
    signed_in: bool,
)
    requires
        tool_done(a, b, o, tool, info, signed_in),
        tool_number(tool) is Some,
    ensures
        b == a,
        o.effects.len() == 1,
        o.effects[0] matches EffectV::Do(act) && act_amount(act) == Some(
            tool_number(tool)->0 as int,
        ),
{
    lemma_tool_marks();
}

/// A number of beats or bars reaches the engine unchanged, forwards and backwards.
#[verifier::spinoff_prover]
#[verifier::rlimit(60)]
pub proof fn beats_reach_the_engine(
    a: App,
    b: App,
    o: ToolOutV,
    tool: ToolCall,
    info: NowPlaying,
    signed_in: bool,
    n: i64,
)
    requires
        tool_done(a, b, o, tool, info, signed_in),
        (tool.name@ == "jump_beats"@ && tool.spec_int("beats"@) == Some(n)) || (tool.name@
            == "extend_playback"@ && tool.spec_int("bars"@) == Some(n)),
        i32::MIN <= n <= i32::MAX,
    ensures
        b == a,
        o.effects.len() == 1,
        o.effects[0] matches EffectV::Do(act) && act_amount(act) == Some(n as int),
{
    lemma_tool_marks();
}

/// A nudge goes forward when it is to go forward, and backward otherwise.
pub proof fn nudges_go_as_told(
    a: App,
    b: App,
    o: ToolOutV,
    tool: ToolCall,
    info: NowPlaying,
    signed_in: bool,
)
    requires
        tool_done(a, b, o, tool, info, signed_in),
        tool.name@ == "nudge"@,
    ensures
        o.effects.len() == 1,
        o.effects[0] matches EffectV::Do(Act::Nudge(n)) && (n > 0 <==> tool.spec_text("direction"@)
            == Some("forward"@)) && n != 0,
{
    lemma_tool_marks();
}

/// Each gain that the DJ names goes to its own band.
pub proof fn gains_go_to_their_band(
    a: App,
    b: App,
    o: ToolOutV,
    tool: ToolCall,
    info: NowPlaying,
    signed_in: bool,
)
    requires
        tool_done(a, b, o, tool, info, signed_in),
        tool.name@ == "set_eq"@,
    ensures
        o.effects.len() == 1,
        o.effects[0] matches EffectV::Do(Act::SetEq { is_a, low, mid, high }) && gain_kept(
            tool.spec_number("low"@),
            low,
        ) && gain_kept(tool.spec_number("mid"@), mid) && gain_kept(tool.spec_number("high"@), high),
{
    lemma_tool_marks();
}

/// A hot cue is set, cleared or jumped to as asked, the one with the number asked
/// for.
pub proof fn cues_are_as_asked(
    a: App,
    b: App,
    o: ToolOutV,
    tool: ToolCall,
    info: NowPlaying,
    signed_in: bool,
    n: i64,
)
    requires
        tool_done(a, b, o, tool, info, signed_in),
        tool.name@ == "cue"@,
        tool.spec_int("slot"@) == Some(n),
        1 <= n <= 4,
    ensures
        o.effects.len() == 1,
        o.effects[0] matches EffectV::Do(act) && act_amount(act) == Some(n - 1) && (act is CueSet
            <==> tool.spec_text("action"@) == Some("set"@)) && (act is CueClear
            <==> tool.spec_text("action"@) == Some("clear"@)),
{
    lemma_tool_marks();
    reveal_strlit("set");
    reveal_strlit("clear");
    reveal_strlit("jump");
    assert("set"@.len() == 3 && "clear"@.len() == 5 && "jump"@.len() == 4);
}

/// The track that is queued, or put onto a deck, is the one at the index given;
/// the number before an item of the list is that index.
pub proof fn tracks_are_taken_by_index(
    a: App,
    b: App,
    o: ToolOutV,
    tool: ToolCall,
    info: NowPlaying,
    signed_in: bool,
    n: i64,
    i: int,
)
    requires
        tool_done(a, b, o, tool, info, signed_in),
        tool.name@ == "queue_track"@ || tool.name@ == "load_to_deck"@,
        tool.spec_int("index"@) == Some(n),
        0 <= n <= i32::MAX,
        0 <= i < o.effects.len(),
    ensures
        b == a,
        o.effects[i] matches EffectV::Do(act) ==> act == Act::Enqueue(n as usize) || act
            == Act::EnqueueFront(n as usize),
        a.nav@.screen().spec_track_at(n as int) is Some,
{
    lemma_tool_marks();
}

/// The items that the DJ reads are numbered by the index that it then gives.
pub proof fn items_are_numbered_by_index(labels: Seq<String>, n: nat, i: int)
    requires
        0 <= i < n,
        i < labels.len(),
    ensures
        ({
            let item = numbered(labels, n)[i];
            let k = item.len() - labels[i]@.len() - 2;
            &&& k > 0
            &&& digits_value(item.take(k)) == i
            &&& item.skip(k + 2) == labels[i]@
        }),
{
    reveal_strlit(": ");
    crate::readings::decimal_reads_back(i as nat);
    let item = numbered(labels, n)[i];
    let d = decimal(i as nat);
    assert(": "@.len() == 2);
    assert(item == d + ": "@ + labels[i]@);
    assert(item.take(d.len() as int) =~= d);
    assert(item.skip((d.len() + 2) as int) =~= labels[i]@);
}

/// The length of a crossfade that the DJ asks for is taken over where it lies
/// between 4 and 64 bars; nothing else of the configuration changes.
pub proof fn crossfade_length_is_bounded(
    a: App,
    b: App,
    o: ToolOutV,
    tool: ToolCall,
    info: NowPlaying,
    signed_in: bool,
    n: i64,
)
    requires
        tool_done(a, b, o, tool, info, signed_in),
        tool.name@ == "set_crossfade_bars"@,
        tool.spec_int("bars"@) == Some(n),
        0 <= n <= i32::MAX,
    ensures
        b == (App { config: b.config, ..a }),
        b.config == (crate::config::AppConfig {
            crossfade_bars: b.config.crossfade_bars,
            ..a.config
        }),
        4 <= n <= 64 ==> b.config.crossfade_bars == n && o.effects.contains(
            EffectV::Do(Act::SaveConfig),
        ),
        n < 4 || n > 64 ==> b == a && o.effects.len() == 0,
{
    lemma_tool_marks();
    reveal(crate::dj_app::with_crossfade);
    if 4 <= n <= 64 {
        assert(o.effects[0] == EffectV::Do(Act::SaveConfig));
    }
}

/// The engine is told of the DJ what then holds, and its configuration is saved.
pub proof fn dj_switch_is_told(enabled: bool, i: int)
    requires
        0 <= i < toggle_effects(true, enabled).1.len(),
    ensures
        toggle_effects(true, enabled).0 == !enabled,
        toggle_effects(true, enabled).1[i] matches EffectV::Do(Act::EnableDj(on)) ==> on
            == !enabled,
        toggle_effects(true, enabled).1.contains(EffectV::Do(Act::EnableDj(!enabled))),
        toggle_effects(true, enabled).1.contains(EffectV::Do(Act::SaveConfig)),
        toggle_effects(true, enabled).1[i] matches EffectV::With(t, _) ==> t
            == TextAct::TriggerDj && !enabled,
{
    let fx = toggle_effects(true, enabled).1;
    assert(fx[1] == EffectV::Do(Act::EnableDj(!enabled)));
    assert(fx[3] == EffectV::Do(Act::SaveConfig));
}

/// A queued track is warned of exactly where its tempo is more than 8% off the
/// one that plays, whichever is the faster.
pub proof fn far_tempos_are_warned_of(playing: u32, queued: u32)
    requires
        playing > 0,
        queued > 0,
    ensures
        tempo_note(Some(playing), Some(queued)).len() == 1,
        tempo_note(Some(playing), Some(queued))[0][0] == '⚠' <==> 100 * (queued - playing) > 8
            * playing || 100 * (playing - queued) > 8 * playing,
{
    reveal_strlit("⚠ BPM gap ");
    reveal_strlit("BPM ");
}

} // verus!
