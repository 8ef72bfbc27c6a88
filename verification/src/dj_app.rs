//! What the DJ does with the application: its tools that browse and queue, and
//! when it is called.
use crate::app::App;
use crate::catalog::BrowseScreen;
use crate::config::AppConfig;
use crate::deck::NowPlaying;
use crate::dj_tools::{
    deck_tool, mix_tool, run_deck_tool, run_mix_tool, Answer, AnswerV, ToolCall,
};
use crate::effects::{
    add_act, add_text, fx_view, no_effects, only_act, only_toast, Act, Effect, EffectV, TextAct,
};
use crate::inputs::{search_effects, trigger_search};
use crate::mixer::{deck_label, deck_letter};
use crate::nav::{titles, BrowseStep, BrowseStepV, Cursor, NavV};
use crate::numbers::{plain2, plain2_str};
use crate::paths::{chosen, chosen_step};
use crate::search_guard::{refusal, refusal_reply, refusal_text, refuse_search};
use crate::text::{
    char_count, concat2, concat3, decimal, decimal_str, join_strs, joined, min_of, owned, round_div,
    rounded_div, str_eq, strs, wide_decimal_str,
};
use crate::track::{bpm_whole, bpm_whole_str, track_name, Track};
use vstd::prelude::*;
use vstd::string::*;

verus! {

/// How many titles are remembered when a whole screen is queued.
pub const MEMORY_RECENT_CAP: usize = 8;

/// What a tool leads to.
pub struct ToolOut {
    pub effects: Vec<Effect>,
    pub step: BrowseStep,
    pub answer: Answer,
}

#[verifier::ext_equal]
pub struct ToolOutV {
    pub effects: Seq<EffectV>,
    pub step: BrowseStepV,
    pub answer: AnswerV,
}

impl View for ToolOut {
    type V = ToolOutV;

    open spec fn view(&self) -> ToolOutV {
        ToolOutV { effects: fx_view(self.effects@), step: self.step@, answer: self.answer@ }
    }
}

pub open spec fn said(effects: Seq<EffectV>, text: Seq<char>) -> ToolOutV {
    ToolOutV { effects, step: BrowseStepV::Nothing, answer: AnswerV::Text(text) }
}

fn say(effects: Vec<Effect>, text: String) -> (o: ToolOut)
    ensures
        o@ == said(fx_view(effects@), text@),
{
    ToolOut { effects, step: BrowseStep::Nothing, answer: Answer::Text(text) }
}

/// The first items of a screen, each with its number.
pub open spec fn numbered(labels: Seq<String>, n: nat) -> Seq<Seq<char>> {
    Seq::new(
        min_of(n as int, labels.len() as int) as nat,
        |i: int| decimal(i as nat) + ": "@ + labels[i]@,
    )
}

fn numbered_of(labels: &Vec<String>) -> (v: Vec<String>)
    ensures
        strs(v@) == numbered(labels@, 20),
{
    let mut v: Vec<String> = Vec::new();
    let mut i: usize = 0;
    while i < labels.len() && i < 20
        invariant
            i <= labels.len(),
            i <= 20,
            strs(v@) == numbered(labels@, i as nat),
        decreases labels.len() - i,
    {
        let ghost before = strs(v@);
        v.push(concat3(decimal_str(i as u64).as_str(), ": ", labels[i].as_str()));
        assert(strs(v@) =~= before.push(decimal(i as nat) + ": "@ + labels@[i as int]@));
        i += 1;
        assert(strs(v@) =~= numbered(labels@, i as nat));
    }
    assert(strs(v@) =~= numbered(labels@, 20));
    v
}

/// What the DJ is told of the screen it sees.
pub open spec fn screen_report(breadcrumb: Seq<char>, labels: Seq<String>) -> Seq<char> {
    "Screen: "@ + breadcrumb + "\nItems ("@ + decimal(labels.len()) + "):\n"@ + joined(
        numbered(labels, 20),
        "\n"@,
    )
}

fn screen_report_str(breadcrumb: &str, labels: &Vec<String>) -> (s: String)
    ensures
        s@ == screen_report(breadcrumb@, labels@),
{
    let items: Vec<String> = numbered_of(labels);
    let s: String = concat3("Screen: ", breadcrumb, "\nItems (");
    let s: String = concat3(s.as_str(), decimal_str(labels.len() as u64).as_str(), "):\n");
    concat2(s.as_str(), join_strs(&items, "\n").as_str())
}

/// Remembering the first titles of a screen that is queued whole.
pub open spec fn remembered(tracks: Seq<Track>, n: nat) -> Seq<EffectV> {
    Seq::new(
        min_of(n as int, tracks.len() as int) as nat,
        |i: int| EffectV::With(TextAct::RememberQueued, track_name(tracks[i])),
    )
}

fn queue_all_effects(tracks: &Vec<Track>) -> (fx: Vec<Effect>)
    ensures
        fx_view(fx@) == seq![EffectV::Do(Act::EnqueueAll)] + remembered(
            tracks@,
            MEMORY_RECENT_CAP as nat,
        ),
{
    let mut fx: Vec<Effect> = only_act(Act::EnqueueAll);
    let mut i: usize = 0;
    while i < tracks.len() && i < MEMORY_RECENT_CAP
        invariant
            i <= tracks.len(),
            i <= MEMORY_RECENT_CAP,
            fx_view(fx@) == seq![EffectV::Do(Act::EnqueueAll)] + remembered(tracks@, i as nat),
        decreases tracks.len() - i,
    {
        add_text(&mut fx, TextAct::RememberQueued, tracks[i].name().as_str());
        i += 1;
        assert(fx_view(fx@) =~= seq![EffectV::Do(Act::EnqueueAll)] + remembered(
            tracks@,
            i as nat,
        ));
    }
    assert(fx_view(fx@) =~= seq![EffectV::Do(Act::EnqueueAll)] + remembered(
        tracks@,
        MEMORY_RECENT_CAP as nat,
    ));
    fx
}

/// What the tools do that read the screen and change nothing of it.
pub open spec fn screen_tool(tool: ToolCall, n: NavV, info: NowPlaying) -> Option<ToolOutV> {
    let name = tool.name@;
    let screen = n.screen();
    if name == "browse_screen"@ {
        let bc = joined(titles(n.stack), " > "@);
        Some(
            said(
                seq![EffectV::With(TextAct::RememberBrowse, bc)],
                screen_report(bc, screen.labels@),
            ),
        )
    } else if name == "queue_track"@ {
        let i = tool.int_or("index"@, 0) as usize;
        match screen.spec_track_at(i as int) {
            Some(t) => Some(
                ToolOutV {
                    effects: seq![
                        EffectV::Do(Act::Enqueue(i)),
                        EffectV::With(TextAct::RememberQueued, track_name(t)),
                    ],
                    step: BrowseStepV::Nothing,
                    answer: AnswerV::Queued(i),
                },
            ),
            None => Some(said(Seq::empty(), "No track at that index"@)),
        }
    } else if name == "queue_all"@ {
        match screen.items {
            crate::catalog::Items::Tracks(v) => Some(
                said(
                    seq![EffectV::Do(Act::EnqueueAll)] + remembered(
                        v@,
                        MEMORY_RECENT_CAP as nat,
                    ),
                    "Queued "@ + decimal(v@.len()) + " tracks"@,
                ),
            ),
            _ => Some(said(Seq::empty(), "No tracks on current screen"@)),
        }
    } else if name == "load_to_deck"@ {
        let is_a = tool.names_a(false);
        let i = tool.int_or("index"@, 0) as usize;
        if is_a == info.playing_is_a {
            Some(
                said(
                    Seq::empty(),
                    "deck "@ + deck_letter(is_a)
                        + " is currently playing live; load onto the other deck"@,
                ),
            )
        } else {
            match screen.spec_track_at(i as int) {
                Some(t) => Some(
                    said(
                        seq![EffectV::Do(Act::EnqueueFront(i))],
                        "Cued to deck "@ + deck_letter(is_a) + ": "@ + track_name(t),
                    ),
                ),
                None => Some(said(Seq::empty(), "No track at that index"@)),
            }
        }
    } else {
        None
    }
}

fn run_screen_tool(tool: &ToolCall, nav: &crate::nav::Nav, info: &NowPlaying) -> (r: Option<ToolOut>)
    requires
        nav@.wf(),
    ensures
        match r {
            Some(o) => screen_tool(*tool, nav@, *info) == Some(o@),
            None => screen_tool(*tool, nav@, *info) is None,
        },
{
    let name: &str = tool.name.as_str();
    let screen: &BrowseScreen = nav.current_screen();
    if str_eq(name, "browse_screen") {
        let bc: String = nav.breadcrumb();
        let mut fx: Vec<Effect> = no_effects();
        add_text(&mut fx, TextAct::RememberBrowse, bc.as_str());
        assert(fx_view(fx@) =~= seq![EffectV::With(TextAct::RememberBrowse, bc@)]);
        Some(say(fx, screen_report_str(bc.as_str(), &screen.labels)))
    } else if str_eq(name, "queue_track") {
        let i: usize = tool.int_else("index", 0) as usize;
        match screen.track_at(i) {
            Some(t) => {
                let mut fx: Vec<Effect> = only_act(Act::Enqueue(i));
                add_text(&mut fx, TextAct::RememberQueued, t.name().as_str());
                assert(fx_view(fx@) =~= seq![
                    EffectV::Do(Act::Enqueue(i)),
                    EffectV::With(TextAct::RememberQueued, track_name(*t)),
                ]);
                Some(
                    ToolOut { effects: fx, step: BrowseStep::Nothing, answer: Answer::Queued(i) },
                )
            },
            None => Some(say(no_effects(), owned("No track at that index"))),
        }
    } else if str_eq(name, "queue_all") {
        match screen.tracks() {
            Some(v) => {
                let text: String = concat3(
                    "Queued ",
                    decimal_str(v.len() as u64).as_str(),
                    " tracks",
                );
                Some(say(queue_all_effects(v), text))
            },
            None => Some(say(no_effects(), owned("No tracks on current screen"))),
        }
    } else if str_eq(name, "load_to_deck") {
        let is_a: bool = tool.deck_is_a(false);
        let i: usize = tool.int_else("index", 0) as usize;
        if is_a == info.playing_is_a {
            let text: String = concat3(
                "deck ",
                deck_label(is_a),
                " is currently playing live; load onto the other deck",
            );
            return Some(say(no_effects(), text));
        }
        match screen.track_at(i) {
            Some(t) => {
                let head: String = concat3("Cued to deck ", deck_label(is_a), ": ");
                let text: String = concat2(head.as_str(), t.name().as_str());
                Some(say(only_act(Act::EnqueueFront(i)), text))
            },
            None => Some(say(no_effects(), owned("No track at that index"))),
        }
    } else {
        None
    }
}

/// The configuration with another length of the crossfade.
#[verifier::opaque]
pub open spec fn with_crossfade(c: AppConfig, bars: u32) -> AppConfig {
    AppConfig { crossfade_bars: bars, ..c }
}

pub(crate) fn set_crossfade(c: &mut AppConfig, bars: u32)
    ensures
        *final(c) == with_crossfade(*old(c), bars),
{
    proof {
        reveal(with_crossfade);
    }
    c.crossfade_bars = bars;
}

/// What a tool does: to the application, to the outside, and what is answered.
pub open spec fn tool_done(
    a: App,
    b: App,
    o: ToolOutV,
    tool: ToolCall,
    info: NowPlaying,
    signed_in: bool,
) -> bool {
    let name = tool.name@;
    if name == "select_item"@ {
        let i = tool.int_or("index"@, 0) as usize;
        &&& b == App { nav: b.nav, ..a }
        &&& b.nav@ == chosen(a.nav@, i)
        &&& o == ToolOutV {
            effects: Seq::empty(),
            step: chosen_step(a.nav@, i),
            answer: AnswerV::Text("Selected item "@ + decimal(i as nat)),
        }
    } else if name == "go_back"@ {
        &&& b == App { nav: b.nav, ..a }
        &&& b.nav@ == a.nav@.popped()
        &&& o == said(
            Seq::empty(),
            "Went back to: "@ + joined(titles(b.nav@.stack), " > "@),
        )
    } else if name == "search_tracks"@ {
        let query = tool.text_or("query"@, ""@);
        match refusal(query) {
            Some(r) => b == a && o == said(Seq::empty(), refusal_text(query, r)),
            None => {
                &&& b == App { search: b.search, ..a }
                &&& b.search@ == crate::inputs::SearchV { query, ..a.search@ }
                &&& o == said(search_effects(query, signed_in), "Searching: "@ + query)
            },
        }
    } else if name == "set_crossfade_bars"@ {
        let bars = tool.int_or("bars"@, 16) as u32;
        let ok = 4 <= bars <= 64;
        &&& b == (if ok {
            App { config: with_crossfade(a.config, bars), ..a }
        } else {
            a
        })
        &&& o == said(
            if ok {
                seq![EffectV::Do(Act::SaveConfig)]
            } else {
                Seq::empty()
            },
            "Crossfade set to "@ + decimal(bars as nat) + " bars"@,
        )
    } else {
        b == a && o == (match screen_tool(tool, a.nav@, info) {
            Some(out) => out,
            None => match mix_tool(tool, info) {
                Some((fx, answer)) => ToolOutV { effects: fx, step: BrowseStepV::Nothing, answer },
                None => match deck_tool(tool, a.config.monitor_device@.len() > 0) {
                    Some((fx, answer)) => ToolOutV {
                        effects: fx,
                        step: BrowseStepV::Nothing,
                        answer,
                    },
                    None => said(Seq::empty(), "Unknown tool: "@ + name),
                },
            },
        })
    }
}

/// The DJ never loads a track onto the deck that plays: asked to, it changes
/// nothing.
pub proof fn playing_deck_is_not_loaded(
    a: App,
    b: App,
    o: ToolOutV,
    tool: ToolCall,
    info: NowPlaying,
    signed_in: bool,
)
    requires
        tool_done(a, b, o, tool, info, signed_in),
        tool.name@ == "load_to_deck"@,
        tool.names_a(false) == info.playing_is_a,
    ensures
        b == a,
        o.effects.len() == 0,
        o.step is Nothing,
{
    reveal_strlit("load_to_deck");
    reveal_strlit("browse_screen");
    reveal_strlit("queue_track");
    reveal_strlit("queue_all");
    reveal_strlit("select_item");
    reveal_strlit("go_back");
    reveal_strlit("search_tracks");
    reveal_strlit("set_crossfade_bars");
    assert("load_to_deck"@.len() == 12);
    assert("browse_screen"@.len() == 13);
    assert("queue_track"@.len() == 11);
    assert("queue_all"@.len() == 9);
    assert("select_item"@.len() == 11);
    assert("go_back"@.len() == 7);
    assert("search_tracks"@.len() == 13);
    assert("set_crossfade_bars"@.len() == 18);
}

/// A search that looks for a genre, a tempo or a key is never made.
pub proof fn refused_searches_are_not_made(
    a: App,
    b: App,
    o: ToolOutV,
    tool: ToolCall,
    info: NowPlaying,
    signed_in: bool,
)
    requires
        tool_done(a, b, o, tool, info, signed_in),
        tool.name@ == "search_tracks"@,
        refusal(tool.text_or("query"@, ""@)) is Some,
    ensures
        b == a,
        o.effects.len() == 0,
{
    reveal_strlit("search_tracks");
    reveal_strlit("select_item");
    reveal_strlit("go_back");
    assert("search_tracks"@.len() == 13);
    assert("select_item"@.len() == 11);
    assert("go_back"@.len() == 7);
}

impl App {
    fn select_tool(&mut self, tool: &ToolCall, info: &NowPlaying, signed_in: bool) -> (o: ToolOut)
        requires
            old(self).wf(),
            tool.name@ == "select_item"@,
        ensures
            final(self).wf(),
            tool_done(*old(self), *final(self), o@, *tool, *info, signed_in),
    {
        let i: usize = tool.int_else("index", 0) as usize;
        self.nav.cursor.selected = i;
        assert(self.nav@ =~= (NavV {
            cursor: Cursor { selected: i, ..old(self).nav.cursor },
            ..old(self).nav@
        }));
        let step: BrowseStep = self.nav.handle_browse_enter();
        let o: ToolOut = ToolOut {
            effects: no_effects(),
            step,
            answer: Answer::Text(concat2("Selected item ", decimal_str(i as u64).as_str())),
        };
        o
    }

    fn search_tool(&mut self, query: String, signed_in: bool) -> (o: ToolOut)
        requires
            old(self).wf(),
        ensures
            final(self).wf(),
            match refusal(query@) {
                Some(r) => *final(self) == *old(self) && o@ == said(
                    Seq::empty(),
                    refusal_text(query@, r),
                ),
                None => {
                    &&& *final(self) == (App { search: final(self).search, ..*old(self) })
                    &&& final(self).search@ == (crate::inputs::SearchV {
                        query: query@,
                        ..old(self).search@
                    })
                    &&& o@ == said(
                        search_effects(query@, signed_in),
                        "Searching: "@ + query@,
                    )
                },
            },
    {
        match refuse_search(query.as_str()) {
            Some(r) => say(no_effects(), refusal_reply(query.as_str(), r)),
            None => {
                let fx: Vec<Effect> = trigger_search(query.as_str(), signed_in);
                let text: String = concat2("Searching: ", query.as_str());
                self.search.query = query;
                say(fx, text)
            },
        }
    }

    /// Runs a tool of the DJ.
    pub fn execute_dj_tool(&mut self, tool: &ToolCall, info: &NowPlaying, signed_in: bool) -> (o:
        ToolOut)
        requires
            old(self).wf(),
        ensures
            final(self).wf(),
            tool_done(*old(self), *final(self), o@, *tool, *info, signed_in),
    {
        let name: &str = tool.name.as_str();
        if str_eq(name, "select_item") {
            return self.select_tool(tool, info, signed_in);
        }
        if str_eq(name, "go_back") {
            self.nav.pop_screen();
            let bc: String = self.nav.breadcrumb();
            return say(no_effects(), concat2("Went back to: ", bc.as_str()));
        }
        if str_eq(name, "search_tracks") {
            let query: String = tool.text_else("query", "");
            return self.search_tool(query, signed_in);
        }
        if str_eq(name, "set_crossfade_bars") {
            let bars: u32 = tool.int_else("bars", 16) as u32;
            let text: String = concat3(
                "Crossfade set to ",
                decimal_str(bars as u64).as_str(),
                " bars",
            );
            if 4 <= bars && bars <= 64 {
                set_crossfade(&mut self.config, bars);
                return say(only_act(Act::SaveConfig), text);
            }
            return say(no_effects(), text);
        }
        if let Some(o) = run_screen_tool(tool, &self.nav, info) {
            return o;
        }
        if let Some((effects, answer)) = run_mix_tool(tool, info) {
            return ToolOut { effects, step: BrowseStep::Nothing, answer };
        }
        let monitored: bool = char_count(self.config.monitor_device.as_str()) > 0;
        if let Some((effects, answer)) = run_deck_tool(tool, monitored) {
            return ToolOut { effects, step: BrowseStep::Nothing, answer };
        }
        say(no_effects(), concat2("Unknown tool: ", tool.name.as_str()))
    }
}

/// What is answered once the engine has looked for a transition.
pub fn transition_reply(name: &str, known: bool) -> (s: String)
    ensures
        s@ == (if known {
            "Transition → "@ + name@
        } else {
            "Unknown transition: "@ + name@
        }),
{
    if known {
        concat2("Transition → ", name)
    } else {
        concat2("Unknown transition: ", name)
    }
}

/// What is answered once the engine has looked for a named place; the time is in
/// millionths of a second.
pub open spec fn seek_text(is_a: bool, label: Seq<char>, found: Option<i64>) -> Seq<char> {
    match found {
        Some(t) => "Deck "@ + deck_letter(is_a) + " seek to "@ + label + " ("@ + plain2(t as int)
            + "s)"@,
        None => "Deck "@ + deck_letter(is_a) + " seek to '"@ + label
            + "' failed — unknown label or no analysis yet"@,
    }
}

pub fn seek_reply(is_a: bool, label: &str, found: Option<i64>) -> (s: String)
    ensures
        s@ == seek_text(is_a, label@, found),
{
    match found {
        Some(t) => {
            let s: String = concat3("Deck ", deck_label(is_a), " seek to ");
            let s: String = concat3(s.as_str(), label, " (");
            concat3(s.as_str(), plain2_str(t).as_str(), "s)")
        },
        None => {
            let s: String = concat3("Deck ", deck_label(is_a), " seek to '");
            concat3(s.as_str(), label, "' failed — unknown label or no analysis yet")
        },
    }
}

/// What is answered once a deck is on the monitor, where it has a track.
pub fn preview_reply(is_a: bool, loaded: bool) -> (s: String)
    ensures
        s@ == (if loaded {
            "Preview: deck "@ + deck_letter(is_a) + " on monitor bus"@
        } else {
            "Deck "@ + deck_letter(is_a) + " has no track loaded — nothing to preview"@
        }),
{
    if loaded {
        concat3("Preview: deck ", deck_label(is_a), " on monitor bus")
    } else {
        concat3("Deck ", deck_label(is_a), " has no track loaded — nothing to preview")
    }
}

/// What is answered once a deck plays, where it has a track.
pub fn play_reply(is_a: bool, loaded: bool) -> (s: String)
    ensures
        s@ == (if loaded {
            "Deck "@ + deck_letter(is_a) + " → live on main output"@
        } else {
            "Deck "@ + deck_letter(is_a) + " has no track loaded — load_to_deck first"@
        }),
{
    if loaded {
        concat3("Deck ", deck_label(is_a), " → live on main output")
    } else {
        concat3("Deck ", deck_label(is_a), " has no track loaded — load_to_deck first")
    }
}

/// How far two tempos are apart, relative to the first.
pub open spec fn bpm_gap(playing: u32, queued: u32) -> nat {
    crate::meters::abs(queued - playing)
}

/// How a queued track fits what plays, by its tempo.
pub open spec fn tempo_note(playing: Option<u32>, queued: Option<u32>) -> Seq<Seq<char>> {
    match (playing, queued) {
        (Some(p), Some(q)) => if p > 0 && q > 0 {
            let gap = bpm_gap(p, q);
            if gap * 100 > 8 * p {
                seq![
                    "⚠ BPM gap "@ + decimal(round_div(gap * 100, p as nat)) + "% ("@ + bpm_whole(p)
                        + "→"@ + bpm_whole(q) + ") — consider EchoOut"@,
                ]
            } else {
                let t = round_div(gap * 1000, p as nat);
                seq![
                    "BPM "@ + bpm_whole(p) + "→"@ + bpm_whole(q) + " ("@ + decimal(t / 10) + "."@
                        + decimal(t % 10) + "%)"@,
                ]
            }
        } else {
            Seq::empty()
        },
        _ => Seq::empty(),
    }
}

/// How a queued track fits what plays, by its key.
pub open spec fn key_note(playing: Option<String>, queued: Option<String>, distance: u32) -> Seq<
    Seq<char>,
> {
    match (playing, queued) {
        (Some(p), Some(q)) => seq![
            if distance == 0 {
                "key "@ + p@ + "="@ + q@ + " (same)"@
            } else if distance == 1 {
                "key "@ + p@ + "→"@ + q@ + " (compatible)"@
            } else if distance <= 3 {
                "key "@ + p@ + "→"@ + q@ + " (dist "@ + decimal(distance as nat) + " — workable)"@
            } else {
                "⚠ key "@ + p@ + "→"@ + q@ + " (dist "@ + decimal(distance as nat)
                    + " — risky clash)"@
            },
        ],
        _ => Seq::empty(),
    }
}

pub open spec fn playing_key(info: NowPlaying) -> Option<String> {
    match info.playing_track {
        Some(t) => t.key,
        None => None,
    }
}

/// What is answered of a track that was queued; the distance is that of its key
/// from the one that plays.
pub open spec fn queued_text(t: Track, info: NowPlaying, distance: u32) -> Seq<char> {
    let notes = tempo_note(info.playing_bpm, t.bpm) + key_note(
        playing_key(info),
        t.key,
        distance,
    );
    "Queued: "@ + track_name(t) + (if notes.len() == 0 {
        ""@
    } else {
        " ["@ + joined(notes, ", "@) + "]"@
    })
}

fn tempo_note_str(p: u32, q: u32) -> (s: String)
    requires
        p > 0,
        q > 0,
    ensures
        tempo_note(Some(p), Some(q)) == seq![s@],
{
    let gap: u128 = if q > p {
        (q - p) as u128
    } else {
        (p - q) as u128
    };
    let arrow: String = concat3(bpm_whole_str(p).as_str(), "→", bpm_whole_str(q).as_str());
    if gap * 100 > 8 * (p as u128) {
        let pct: u128 = rounded_div(gap * 100, p as u128);
        let s: String = concat3("⚠ BPM gap ", wide_decimal_str(pct).as_str(), "% (");
        let s: String = concat3(s.as_str(), bpm_whole_str(p).as_str(), "→");
        concat3(s.as_str(), bpm_whole_str(q).as_str(), ") — consider EchoOut")
    } else {
        let t: u128 = rounded_div(gap * 1000, p as u128);
        let s: String = concat3("BPM ", bpm_whole_str(p).as_str(), "→");
        let s: String = concat3(s.as_str(), bpm_whole_str(q).as_str(), " (");
        let s: String = concat3(s.as_str(), wide_decimal_str(t / 10).as_str(), ".");
        concat3(s.as_str(), wide_decimal_str(t % 10).as_str(), "%)")
    }
}

fn key_note_str(p: &String, q: &String, distance: u32) -> (s: String)
    ensures
        key_note(Some(*p), Some(*q), distance) == seq![s@],
{
    let d: String = decimal_str(distance as u64);
    if distance == 0 {
        let s: String = concat3("key ", p.as_str(), "=");
        concat3(s.as_str(), q.as_str(), " (same)")
    } else if distance == 1 {
        let s: String = concat3("key ", p.as_str(), "→");
        concat3(s.as_str(), q.as_str(), " (compatible)")
    } else if distance <= 3 {
        let s: String = concat3("key ", p.as_str(), "→");
        let s: String = concat3(s.as_str(), q.as_str(), " (dist ");
        concat3(s.as_str(), d.as_str(), " — workable)")
    } else {
        let s: String = concat3("⚠ key ", p.as_str(), "→");
        let s: String = concat3(s.as_str(), q.as_str(), " (dist ");
        concat3(s.as_str(), d.as_str(), " — risky clash)")
    }
}

/// What is answered of a track that was queued.
pub fn queued_reply(t: &Track, info: &NowPlaying, distance: u32) -> (s: String)
    ensures
        s@ == queued_text(*t, *info, distance),
{
    let mut notes: Vec<String> = Vec::new();
    assert(strs(notes@) =~= Seq::<Seq<char>>::empty());
    if let (Some(p), Some(q)) = (info.playing_bpm, t.bpm) {
        if p > 0 && q > 0 {
            notes.push(tempo_note_str(p, q));
        }
    }
    assert(strs(notes@) =~= tempo_note(info.playing_bpm, t.bpm));
    let ghost first = strs(notes@);
    if let Some(now) = &info.playing_track {
        if let (Some(p), Some(q)) = (&now.key, &t.key) {
            notes.push(key_note_str(p, q, distance));
            assert(strs(notes@) =~= first + key_note(playing_key(*info), t.key, distance));
        }
    }
    assert(strs(notes@) =~= first + key_note(playing_key(*info), t.key, distance));
    let head: String = concat2("Queued: ", t.name().as_str());
    if notes.len() == 0 {
        concat2(head.as_str(), "")
    } else {
        let all: String = concat3(" [", join_strs(&notes, ", ").as_str(), "]");
        concat2(head.as_str(), all.as_str())
    }
}

/// Why the DJ is called when it takes over.
pub open spec fn takeover_reason() -> Seq<char> {
    "You just took over as DJ. Check the queue — if it's low, browse and find a good track to queue."@
}

/// Turning the DJ on or off: whether it is on, and what is done.
pub open spec fn toggle_effects(has_dj: bool, enabled: bool) -> (bool, Seq<EffectV>) {
    if !has_dj {
        (enabled, seq![EffectV::Toast("No AI API key (~/.mixr/claude_key)"@, 2000)])
    } else if enabled {
        (
            false,
            seq![
                EffectV::Toast("AI DJ: OFF"@, 1000),
                EffectV::Do(Act::EnableDj(false)),
                EffectV::Do(Act::SyncClaudeDj),
                EffectV::Do(Act::SaveConfig),
            ],
        )
    } else {
        (
            true,
            seq![
                EffectV::Toast("AI DJ: ON"@, 1000),
                EffectV::Do(Act::EnableDj(true)),
                EffectV::Do(Act::SyncClaudeDj),
                EffectV::Do(Act::SaveConfig),
                EffectV::With(TextAct::TriggerDj, takeover_reason()),
            ],
        )
    }
}

/// Turning the DJ on and off again leaves it as it was.
pub proof fn toggling_dj_twice_restores(has_dj: bool, enabled: bool)
    ensures
        toggle_effects(has_dj, toggle_effects(has_dj, enabled).0).0 == enabled,
{
}

/// Turns the DJ on or off.
pub fn toggle_claude_dj(enabled: &mut bool, has_dj: bool) -> (fx: Vec<Effect>)
    ensures
        (*final(enabled), fx_view(fx@)) == toggle_effects(has_dj, *old(enabled)),
{
    if !has_dj {
        return only_toast("No AI API key (~/.mixr/claude_key)", 2000);
    }
    let on: bool = !*enabled;
    *enabled = on;
    let mut fx: Vec<Effect> = only_toast(
        if on {
            "AI DJ: ON"
        } else {
            "AI DJ: OFF"
        },
        1000,
    );
    add_act(&mut fx, Act::EnableDj(on));
    add_act(&mut fx, Act::SyncClaudeDj);
    add_act(&mut fx, Act::SaveConfig);
    if on {
        add_text(
            &mut fx,
            TextAct::TriggerDj,
            "You just took over as DJ. Check the queue — if it's low, browse and find a good track to queue.",
        );
    }
    assert(fx_view(fx@) =~= toggle_effects(has_dj, *old(enabled)).1);
    fx
}

} // verus!
