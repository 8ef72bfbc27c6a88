//! Remote commands: what each of them does to the application.
use crate::app::{App, DashState, KeyEnv};
use crate::app_keys::key_done;
use crate::catalog::BrowseScreen;
use crate::clicks::{ClickAction, ClickTarget};
use crate::config::{AppConfig, AudioQuality, ClaudeDjSettings, PitchStretchEngine};
use crate::deck::NowPlaying;
use crate::dj_app::{set_crossfade, with_crossfade};
use crate::effects::{
    act_and_toast, add_act, add_effects, add_text, add_toast, fx_view, no_effects, only_act,
    only_toast, Act, Effect, EffectV, MonitorSource, TextAct,
};
use crate::inputs::{search_effects, trigger_search, SearchV, ViewMode};
use crate::key::{KeyCode, KeyEvent, KeyModifiers};
use crate::keymap::{lower_all, lowered};
use crate::mixer::{deck_label, deck_letter};
use crate::mouse::{drag_effects, handle_mouse_drag, mouse_click_done, plain_key, ClickOut};
use crate::nav::{entered, entered_at, item_step, BrowseStep, BrowseStepV, Cursor, Nav, NavV};
use crate::paths::{path_started, PathOut, TestMixState};
use crate::ratings::{rate_last, rate_last_effects, DjMemory};
use crate::remote_deck::{deck_effects, run_deck_command, DeckCommand};
use crate::rules::RuleConfig;
use crate::settings_keys::{mode_name, mode_name_of};
use crate::text::{
    char_count, concat2, concat3, decimal, decimal_str, lowercase_of, minus, owned, round_div,
    rounded_div, sat_sub, signed_decimal, signed_decimal_str, split_on, split_text, str_eq, strs,
    to_lowercase, wide_decimal_str,
};
use crate::track::{track_name, Track};
use vstd::prelude::*;
use vstd::string::*;

verus! {

/// Which library a path belongs to.
#[derive(Debug, Clone, Copy, PartialEq, Eq, Structural)]
pub enum Library {
    Local,
    Rekordbox,
    EngineDj,
    Serato,
}

/// A remote command.
pub enum IpcCommand {
    Deck(DeckCommand),
    LoadDeck { is_a: bool },
    Search(String),
    QueueAll,
    Browse(String),
    Navigate(String),
    View(ViewMode),
    WaveformMode,
    SetQuality(String),
    SetCrossfade(u32),
    TestMix,
    Profile(Option<bool>),
    PitchStretch(String),
    Click { col: u16, row: u16, shift: bool },
    Drag { col: u16, row: u16 },
    LayoutDump,
    /// The step in millionths of a beat.
    Quantize { on: bool, beats: u64 },
    RateMix(bool),
    /// The settings with the patch applied, where it could be read.
    DjSettings(Option<ClaudeDjSettings>),
    PlaylistCreate(String),
    PlaylistDelete(i64),
    PlaylistDeleteRequest(i64),
    MonitorSource(String),
    MonitorDevice(String),
    LibraryPath(Library, String),
    SimulateKey(char),
    SimulateKeyNamed(String),
    Favorite,
    Filter(String),
    QueueTrack(i64),
}

/// What is known of the outside.
#[derive(Debug, Clone, Copy)]
pub struct RemoteEnv {
    /// The profiler is on.
    pub profiling: bool,
    /// A mix was finished.
    pub mixed: bool,
    pub dj: DjMemory,
}

/// Which entries the first screen has; it knows of Serato or does not.
#[derive(Debug, Clone, Copy, PartialEq, Eq, Structural)]
pub struct RootMenu {
    pub local: bool,
    pub rekordbox: bool,
    pub engine: bool,
    pub serato: Option<bool>,
}

/// What a remote command leads to.
pub struct RemoteOut {
    pub effects: Vec<Effect>,
    pub step: BrowseStep,
    /// The first screen has to be made anew.
    pub root: Option<RootMenu>,
}

fn out(effects: Vec<Effect>) -> (o: RemoteOut)
    ensures
        o.effects == effects,
        o.step is Nothing,
        o.root is None,
{
    RemoteOut { effects, step: BrowseStep::Nothing, root: None }
}

/// The quality that a word names.
pub open spec fn quality_named(lower: Seq<char>) -> Option<AudioQuality> {
    if lower == "flac"@ || lower == "lossless"@ || lower == "256k"@ || lower == "high"@ {
        Some(AudioQuality::High)
    } else if lower == "128k"@ || lower == "standard"@ {
        Some(AudioQuality::Standard)
    } else {
        None
    }
}

pub fn quality_of(lower: &str) -> (q: Option<AudioQuality>)
    ensures
        q == quality_named(lower@),
{
    if str_eq(lower, "flac") || str_eq(lower, "lossless") || str_eq(lower, "256k") || str_eq(
        lower,
        "high",
    ) {
        Some(AudioQuality::High)
    } else if str_eq(lower, "128k") || str_eq(lower, "standard") {
        Some(AudioQuality::Standard)
    } else {
        None
    }
}

/// What a word names to listen to on the monitor.
pub open spec fn source_named(lower: Seq<char>, playing_is_a: bool) -> Option<MonitorSource> {
    if lower == "incoming"@ {
        Some(MonitorSource::Incoming)
    } else if lower == "playing"@ {
        Some(
            if playing_is_a {
                MonitorSource::DeckA
            } else {
                MonitorSource::DeckB
            },
        )
    } else if lower == "both"@ {
        Some(MonitorSource::Both)
    } else if lower == "a"@ {
        Some(MonitorSource::DeckA)
    } else if lower == "b"@ {
        Some(MonitorSource::DeckB)
    } else {
        None
    }
}

pub fn source_of(lower: &str, playing_is_a: bool) -> (s: Option<MonitorSource>)
    ensures
        s == source_named(lower@, playing_is_a),
{
    if str_eq(lower, "incoming") {
        Some(MonitorSource::Incoming)
    } else if str_eq(lower, "playing") {
        if playing_is_a {
            Some(MonitorSource::DeckA)
        } else {
            Some(MonitorSource::DeckB)
        }
    } else if str_eq(lower, "both") {
        Some(MonitorSource::Both)
    } else if str_eq(lower, "a") {
        Some(MonitorSource::DeckA)
    } else if str_eq(lower, "b") {
        Some(MonitorSource::DeckB)
    } else {
        None
    }
}

/// The engine for pitch and stretch that a word names.
pub open spec fn stretch_named(name: Seq<char>) -> PitchStretchEngine {
    let l = lower_all(name);
    if l == "rubberband"@ || l == "rb"@ {
        PitchStretchEngine::Rubberband
    } else if l == "timestretch"@ || l == "ts"@ {
        PitchStretchEngine::Timestretch
    } else {
        PitchStretchEngine::Off
    }
}

fn stretch_of(name: &str) -> (e: PitchStretchEngine)
    ensures
        e == stretch_named(name@),
{
    let l: String = lowered(name);
    if str_eq(l.as_str(), "rubberband") || str_eq(l.as_str(), "rb") {
        PitchStretchEngine::Rubberband
    } else if str_eq(l.as_str(), "timestretch") || str_eq(l.as_str(), "ts") {
        PitchStretchEngine::Timestretch
    } else {
        PitchStretchEngine::Off
    }
}

pub open spec fn stretch_label(e: PitchStretchEngine) -> Seq<char> {
    match e {
        PitchStretchEngine::Off => "Off"@,
        PitchStretchEngine::Rubberband => "Rubberband"@,
        PitchStretchEngine::Timestretch => "Timestretch"@,
    }
}

fn stretch_label_of(e: PitchStretchEngine) -> (s: &'static str)
    ensures
        s@ == stretch_label(e),
{
    match e {
        PitchStretchEngine::Off => "Off",
        PitchStretchEngine::Rubberband => "Rubberband",
        PitchStretchEngine::Timestretch => "Timestretch",
    }
}

/// The key that a word names.
pub open spec fn key_named(name: Seq<char>) -> Option<KeyCode> {
    let l = lower_all(name);
    if l == "up"@ {
        Some(KeyCode::Up)
    } else if l == "down"@ {
        Some(KeyCode::Down)
    } else if l == "left"@ {
        Some(KeyCode::Left)
    } else if l == "right"@ {
        Some(KeyCode::Right)
    } else if l == "enter"@ {
        Some(KeyCode::Enter)
    } else if l == "esc"@ || l == "escape"@ {
        Some(KeyCode::Esc)
    } else if l == "tab"@ {
        Some(KeyCode::Tab)
    } else if l == "backspace"@ {
        Some(KeyCode::Backspace)
    } else if l == "pageup"@ || l == "pgup"@ {
        Some(KeyCode::PageUp)
    } else if l == "pagedown"@ || l == "pgdn"@ || l == "pgdown"@ {
        Some(KeyCode::PageDown)
    } else if l == "home"@ {
        Some(KeyCode::Home)
    } else if l == "end"@ {
        Some(KeyCode::End)
    } else {
        None
    }
}

pub fn key_of_name(name: &str) -> (k: Option<KeyCode>)
    ensures
        k == key_named(name@),
{
    let low: String = lowered(name);
    let l: &str = low.as_str();
    if str_eq(l, "up") {
        Some(KeyCode::Up)
    } else if str_eq(l, "down") {
        Some(KeyCode::Down)
    } else if str_eq(l, "left") {
        Some(KeyCode::Left)
    } else if str_eq(l, "right") {
        Some(KeyCode::Right)
    } else if str_eq(l, "enter") {
        Some(KeyCode::Enter)
    } else if str_eq(l, "esc") || str_eq(l, "escape") {
        Some(KeyCode::Esc)
    } else if str_eq(l, "tab") {
        Some(KeyCode::Tab)
    } else if str_eq(l, "backspace") {
        Some(KeyCode::Backspace)
    } else if str_eq(l, "pageup") || str_eq(l, "pgup") {
        Some(KeyCode::PageUp)
    } else if str_eq(l, "pagedown") || str_eq(l, "pgdn") || str_eq(l, "pgdown") {
        Some(KeyCode::PageDown)
    } else if str_eq(l, "home") {
        Some(KeyCode::Home)
    } else if str_eq(l, "end") {
        Some(KeyCode::End)
    } else {
        None
    }
}

// The configuration with one thing changed.

#[verifier::opaque]
pub open spec fn with_quality(c: AppConfig, q: AudioQuality) -> AppConfig {
    AppConfig { audio_quality: q, ..c }
}

fn set_quality(c: &mut AppConfig, q: AudioQuality)
    ensures
        *final(c) == with_quality(*old(c), q),
{
    proof {
        reveal(with_quality);
    }
    c.audio_quality = q;
}

#[verifier::opaque]
pub open spec fn with_stretch(c: AppConfig, e: PitchStretchEngine) -> AppConfig {
    AppConfig { pitch_stretch_engine: e, ..c }
}

fn set_stretch(c: &mut AppConfig, e: PitchStretchEngine)
    ensures
        *final(c) == with_stretch(*old(c), e),
{
    proof {
        reveal(with_stretch);
    }
    c.pitch_stretch_engine = e;
}

#[verifier::opaque]
pub open spec fn with_quantize(c: AppConfig, on: bool, beats: u64) -> AppConfig {
    AppConfig { quantize_on: on, quantize_beats: beats, ..c }
}

fn set_quantize(c: &mut AppConfig, on: bool, beats: u64)
    ensures
        *final(c) == with_quantize(*old(c), on, beats),
{
    proof {
        reveal(with_quantize);
    }
    c.quantize_on = on;
    c.quantize_beats = beats;
}

#[verifier::opaque]
pub open spec fn with_dj(c: AppConfig, s: ClaudeDjSettings) -> AppConfig {
    AppConfig { claude_dj: s, ..c }
}

fn set_dj(c: &mut AppConfig, s: ClaudeDjSettings)
    ensures
        *final(c) == with_dj(*old(c), s),
{
    proof {
        reveal(with_dj);
    }
    c.claude_dj = s;
}

#[verifier::opaque]
pub open spec fn with_monitor(c: AppConfig, name: String) -> AppConfig {
    AppConfig { monitor_device: name, ..c }
}

fn set_monitor(c: &mut AppConfig, name: String)
    ensures
        *final(c) == with_monitor(*old(c), name),
{
    proof {
        reveal(with_monitor);
    }
    c.monitor_device = name;
}

#[verifier::opaque]
pub open spec fn with_library(c: AppConfig, which: Library, path: String) -> AppConfig {
    match which {
        Library::Local => AppConfig { local_library_dir: path, ..c },
        Library::Rekordbox => AppConfig { rekordbox_xml: path, ..c },
        Library::EngineDj => AppConfig { engine_dj_db: path, ..c },
        Library::Serato => AppConfig { serato_db: path, ..c },
    }
}

fn set_library(c: &mut AppConfig, which: Library, path: String)
    ensures
        *final(c) == with_library(*old(c), which, path),
{
    proof {
        reveal(with_library);
    }
    match which {
        Library::Local => {
            c.local_library_dir = path;
        },
        Library::Rekordbox => {
            c.rekordbox_xml = path;
        },
        Library::EngineDj => {
            c.engine_dj_db = path;
        },
        Library::Serato => {
            c.serato_db = path;
        },
    }
}

/// The first screen that a configuration asks for.
pub open spec fn root_of(c: AppConfig, which: Library) -> RootMenu {
    RootMenu {
        local: c.local_library_dir@.len() > 0,
        rekordbox: c.rekordbox_xml@.len() > 0,
        engine: c.engine_dj_db@.len() > 0,
        serato: if which is EngineDj || which is Serato {
            Some(c.serato_db@.len() > 0)
        } else {
            None
        },
    }
}

pub fn root_for(c: &AppConfig, which: Library) -> (r: RootMenu)
    ensures
        r == root_of(*c, which),
{
    let knows_serato: bool = match which {
        Library::EngineDj | Library::Serato => true,
        _ => false,
    };
    RootMenu {
        local: char_count(c.local_library_dir.as_str()) > 0,
        rekordbox: char_count(c.rekordbox_xml.as_str()) > 0,
        engine: char_count(c.engine_dj_db.as_str()) > 0,
        serato: if knows_serato {
            Some(char_count(c.serato_db.as_str()) > 0)
        } else {
            None
        },
    }
}

pub open spec fn library_label(which: Library) -> Seq<char> {
    match which {
        Library::Local => "Local library: "@,
        Library::Rekordbox => "Rekordbox XML: "@,
        Library::EngineDj => "Engine DJ DB: "@,
        Library::Serato => "Serato DB: "@,
    }
}

/// A name, or `disabled` where there is none.
pub open spec fn or_disabled(s: Seq<char>) -> Seq<char> {
    if s.len() == 0 {
        "disabled"@
    } else {
        s
    }
}

fn or_disabled_str(s: &str) -> (r: String)
    ensures
        r@ == or_disabled(s@),
{
    if char_count(s) == 0 {
        owned("disabled")
    } else {
        owned(s)
    }
}

/// The step of the quantizer, in words.
pub open spec fn quantize_label(beats: u64) -> Seq<char> {
    if beats < 187_500 {
        "1/8"@
    } else if beats < 375_000 {
        "1/4"@
    } else if beats < 750_000 {
        "1/2"@
    } else {
        decimal(round_div(beats as nat, 1_000_000))
    }
}

pub open spec fn quantize_message(on: bool, beats: u64) -> Seq<char> {
    "Quantize "@ + (if on {
        "on"@
    } else {
        "off"@
    }) + " ("@ + quantize_label(beats) + " beat"@ + (if beats >= 1_500_000 {
        "s"@
    } else {
        ""@
    }) + ")"@
}

fn quantize_text(on: bool, beats: u64) -> (s: String)
    ensures
        s@ == quantize_message(on, beats),
{
    let label: String = if beats < 187_500 {
        owned("1/8")
    } else if beats < 375_000 {
        owned("1/4")
    } else if beats < 750_000 {
        owned("1/2")
    } else {
        wide_decimal_str(rounded_div(beats as u128, 1_000_000))
    };
    let s: String = concat3(
        "Quantize ",
        if on {
            "on"
        } else {
            "off"
        },
        " (",
    );
    let s: String = concat3(s.as_str(), label.as_str(), " beat");
    concat3(
        s.as_str(),
        if beats >= 1_500_000 {
            "s"
        } else {
            ""
        },
        ")",
    )
}

/// A crossfade may take so many bars.
pub open spec fn crossfade_length(bars: u32) -> bool {
    bars == 4 || bars == 8 || bars == 16 || bars == 32 || bars == 64
}

/// Loading the selected track onto a deck; the deck that plays is left alone.
pub open spec fn load_deck_effects(n: NavV, info: NowPlaying, is_a: bool) -> Seq<EffectV> {
    let deck = deck_letter(is_a);
    match n.screen().spec_track_at(n.cursor.selected as int) {
        None => seq![EffectV::Toast("Load → Deck "@ + deck + ": no track selected"@, 1500)],
        Some(t) => if info.spec_deck(is_a).is_playing {
            seq![EffectV::Toast("Deck "@ + deck + " is playing — pause first"@, 2000)]
        } else {
            seq![
                EffectV::Toast("Load → Deck "@ + deck + ": "@ + track_name(t), 1500),
                EffectV::Do(
                    Act::LoadDeck {
                        index: n.cursor.selected,
                        as_incoming: info.deck_a.is_playing || info.deck_b.is_playing,
                    },
                ),
            ]
        },
    }
}

/// A deck that plays is never loaded over.
pub proof fn live_deck_is_kept(n: NavV, info: NowPlaying, is_a: bool)
    requires
        info.spec_deck(is_a).is_playing,
    ensures
        load_deck_effects(n, info, is_a).len() == 1,
        load_deck_effects(n, info, is_a)[0] is Toast,
{
}

fn load_deck(nav: &Nav, info: &NowPlaying, is_a: bool) -> (fx: Vec<Effect>)
    requires
        nav@.wf(),
    ensures
        fx_view(fx@) == load_deck_effects(nav@, *info, is_a),
{
    let deck: &str = deck_label(is_a);
    let at: usize = nav.cursor.selected;
    match nav.current_screen().track_at(at) {
        None => only_toast(concat3("Load → Deck ", deck, ": no track selected").as_str(), 1500),
        Some(t) => {
            if info.deck(is_a).is_playing {
                return only_toast(concat3("Deck ", deck, " is playing — pause first").as_str(), 2000);
            }
            let head: String = concat3("Load → Deck ", deck, ": ");
            let text: String = concat2(head.as_str(), t.name().as_str());
            let mut fx: Vec<Effect> = only_toast(text.as_str(), 1500);
            add_act(
                &mut fx,
                Act::LoadDeck {
                    index: at,
                    as_incoming: info.deck_a.is_playing || info.deck_b.is_playing,
                },
            );
            assert(fx_view(fx@) =~= load_deck_effects(nav@, *info, is_a));
            fx
        },
    }
}

/// The first track of a list with an id.
pub open spec fn track_with(tracks: Seq<Track>, id: i64, from: int) -> Option<int>
    decreases tracks.len() - from,
{
    if from >= tracks.len() {
        None
    } else if tracks[from].id == id {
        Some(from)
    } else {
        track_with(tracks, id, from + 1)
    }
}

/// Queueing a track of the screen by its id.
pub open spec fn queue_track_effects(screen: BrowseScreen, id: i64) -> Seq<EffectV> {
    let missing = seq![
        EffectV::Toast("Track "@ + signed_decimal(id as int) + " not found"@, 1000),
    ];
    match screen.items {
        crate::catalog::Items::Tracks(v) => match track_with(v@, id, 0) {
            Some(i) => seq![EffectV::Do(Act::Enqueue(i as usize))],
            None => missing,
        },
        _ => missing,
    }
}

fn queue_track(screen: &BrowseScreen, id: i64) -> (fx: Vec<Effect>)
    ensures
        fx_view(fx@) == queue_track_effects(*screen, id),
{
    if let Some(v) = screen.tracks() {
        let mut i: usize = 0;
        while i < v.len()
            invariant
                i <= v.len(),
                screen.items == crate::catalog::Items::Tracks(*v),
                track_with(v@, id, 0) == track_with(v@, id, i as int),
            decreases v.len() - i,
        {
            if v[i].id == id {
                return only_act(Act::Enqueue(i));
            }
            i += 1;
        }
    }
    let text: String = concat3("Track ", signed_decimal_str(id).as_str(), " not found");
    only_toast(text.as_str(), 1000)
}

/// Moving through the browser from afar.
pub open spec fn navigate_done(n: NavV, m: NavV, step: BrowseStepV, dir: Seq<char>) -> bool {
    if dir == "up"@ {
        m == NavV {
            cursor: Cursor { selected: minus(n.cursor.selected as int, 1) as usize, ..n.cursor },
            ..n
        } && step is Nothing
    } else if dir == "down"@ {
        m == (if n.cursor.selected + 1 < n.screen().labels@.len() {
            NavV { cursor: Cursor { selected: (n.cursor.selected + 1) as usize, ..n.cursor }, ..n }
        } else {
            n
        }) && step is Nothing
    } else if dir == "enter"@ {
        m == entered(n) && step == item_step(n.screen(), entered_at(n), n.cursor.column as int)
    } else if dir == "back"@ {
        m == n.popped() && step is Nothing
    } else {
        m == n && step is Nothing
    }
}

fn navigate(nav: &mut Nav, dir: &str) -> (step: BrowseStep)
    requires
        old(nav)@.wf(),
    ensures
        final(nav)@.wf(),
        navigate_done(old(nav)@, final(nav)@, step@, dir@),
{
    if str_eq(dir, "up") {
        nav.cursor.selected = sat_sub(nav.cursor.selected, 1);
    } else if str_eq(dir, "down") {
        let count: usize = nav.current_screen().item_count();
        let at: usize = nav.cursor.selected;
        if at < count && count - at > 1 {
            nav.cursor.selected = at + 1;
        }
    } else if str_eq(dir, "enter") {
        return nav.handle_browse_enter();
    } else if str_eq(dir, "back") {
        nav.pop_screen();
    }
    BrowseStep::Nothing
}

/// Where a labelled target is, and along which axis it is dragged.
#[derive(Debug, Clone, Copy)]
pub struct LayoutRow {
    pub label: &'static str,
    pub x: u16,
    pub y: u16,
    pub w: u16,
    pub h: u16,
    /// From where to where, sideways or up and down.
    pub across: Option<(u16, u16)>,
    pub along: Option<(u16, u16)>,
}

pub open spec fn layout_row(t: ClickTarget) -> LayoutRow {
    LayoutRow {
        label: t.label->0,
        x: t.x,
        y: t.y,
        w: t.w,
        h: t.h,
        across: match t.action {
            ClickAction::SetCrossfaderRange { x_min, x_max } => Some((x_min, x_max)),
            _ => None,
        },
        along: match t.action {
            ClickAction::SetVerticalRange { control, y_min, y_max } => Some((y_min, y_max)),
            _ => None,
        },
    }
}

/// The labelled targets, in order.
pub open spec fn layout(targets: Seq<ClickTarget>) -> Seq<LayoutRow>
    decreases targets.len(),
{
    if targets.len() == 0 {
        Seq::empty()
    } else {
        let before = layout(targets.drop_last());
        if targets.last().label is Some {
            before.push(layout_row(targets.last()))
        } else {
            before
        }
    }
}

/// The labelled targets of the screen, for scripts.
pub fn layout_rows(targets: &Vec<ClickTarget>) -> (v: Vec<LayoutRow>)
    ensures
        v@ == layout(targets@),
{
    let mut v: Vec<LayoutRow> = Vec::new();
    let mut i: usize = 0;
    assert(targets@.take(0) =~= Seq::<ClickTarget>::empty());
    while i < targets.len()
        invariant
            i <= targets.len(),
            v@ == layout(targets@.take(i as int)),
        decreases targets.len() - i,
    {
        let t: ClickTarget = targets[i];
        assert(targets@.take(i + 1).drop_last() =~= targets@.take(i as int));
        assert(targets@.take(i + 1).last() == t);
        if let Some(label) = t.label {
            v.push(
                LayoutRow {
                    label,
                    x: t.x,
                    y: t.y,
                    w: t.w,
                    h: t.h,
                    across: match t.action {
                        ClickAction::SetCrossfaderRange { x_min, x_max } => Some((x_min, x_max)),
                        _ => None,
                    },
                    along: match t.action {
                        ClickAction::SetVerticalRange { control: _, y_min, y_max } => Some(
                            (y_min, y_max),
                        ),
                        _ => None,
                    },
                },
            );
        }
        i += 1;
    }
    assert(targets@.take(i as int) =~= targets@);
    v
}

/// The path that the test mix takes its tracks from.
pub open spec fn test_mix_path() -> Seq<Seq<char>> {
    seq!["Discover"@, "Trending"@, "Global Top 10"@]
}

/// What a remote command does.
pub open spec fn remote_done(
    a: App,
    b: App,
    fx: Seq<EffectV>,
    step: BrowseStep,
    root: Option<RootMenu>,
    cmd: IpcCommand,
    env: RemoteEnv,
    keys: KeyEnv,
    info: NowPlaying,
    defaults: RuleConfig,
) -> bool {
    let still = step is Nothing && root is None;
    match cmd {
        IpcCommand::Deck(c) => still && b == a && fx == deck_effects(c),
        IpcCommand::LoadDeck { is_a } => still && b == a && fx == load_deck_effects(
            a.nav@,
            info,
            is_a,
        ),
        IpcCommand::Search(q) => still && b == App {
            search: b.search,
            view: ViewMode::Search,
            ..a
        } && b.search@ == SearchV { query: q@, ..a.search@ } && fx == seq![
            EffectV::Toast("Searching: "@ + q@, 1000),
        ] + search_effects(q@, keys.signed_in),
        IpcCommand::QueueAll => still && b == a && fx == (if a.nav@.screen().is_tracks() {
            seq![EffectV::Do(Act::EnqueueAll)]
        } else {
            seq![EffectV::Toast("No tracks to queue"@, 1000)]
        }),
        IpcCommand::Browse(path) => root is None && exists|ok: bool, first: Seq<EffectV>| #[trigger]
            path_started(a, b, ok, step@, first, split_on(path@, '/')) && fx == first.push(
                EffectV::Toast("Browse: "@ + path@, 1000),
            ),
        IpcCommand::Navigate(dir) => root is None && fx.len() == 0 && b == App { nav: b.nav, ..a }
            && navigate_done(a.nav@, b.nav@, step@, dir@),
        IpcCommand::View(v) => still && fx.len() == 0 && b == App {
            view: v,
            nav: if v is Dashboard || v is Help {
                a.nav
            } else {
                a.with_selected(0)
            },
            ..a
        },
        IpcCommand::WaveformMode => still && b == App {
            dash: DashState { waveform: b.dash.waveform, ..a.dash },
            ..a
        } && b.dash.waveform.position() == (a.dash.waveform.position() + 1) % 3 && fx == seq![
            EffectV::Toast("Waveform: "@ + b.dash.waveform.spec_label()@, 1000),
        ],
        IpcCommand::SetQuality(q) => still && b == (match quality_named(lowercase_of(q@)) {
            Some(x) => App { config: with_quality(a.config, x), ..a },
            None => a,
        }) && fx == seq![EffectV::Do(Act::SaveConfig)],
        IpcCommand::SetCrossfade(bars) => still && (if crossfade_length(bars) {
            b == App { config: with_crossfade(a.config, bars), ..a } && fx == seq![
                EffectV::Do(Act::SaveConfig),
                EffectV::Do(Act::SetCrossfadeBars(bars)),
                EffectV::Toast("Crossfade: "@ + decimal(bars as nat) + " bars"@, 1000),
            ]
        } else {
            b == a && fx == seq![
                EffectV::Toast(
                    "Invalid crossfade bars: "@ + decimal(bars as nat) + " (use 4/8/16/32/64)"@,
                    2000,
                ),
            ]
        }),
        IpcCommand::TestMix => root is None && exists|mid: App, ok: bool, first: Seq<EffectV>|
            #[trigger] path_started(a, mid, ok, step@, first, test_mix_path()) && b == (App {
                test_mix: Some(TestMixState::WaitForList { ticks: 0 }),
                ..mid
            }) && fx == seq![EffectV::Do(Act::ClearQueue)] + first.push(
                EffectV::Toast("test_mix: navigating…"@, 1000),
            ),
        IpcCommand::Profile(on) => {
            let next = match on {
                Some(x) => x,
                None => !env.profiling,
            };
            still && b == a && fx == seq![
                EffectV::Do(Act::ProfilerOn(next)),
                EffectV::Toast(
                    if next {
                        "Profiler: ON"@
                    } else {
                        "Profiler: OFF"@
                    },
                    1500,
                ),
            ]
        },
        IpcCommand::PitchStretch(name) => {
            let e = stretch_named(name@);
            still && b == App { config: with_stretch(a.config, e), ..a } && fx == seq![
                EffectV::Do(Act::SaveConfig),
                EffectV::Do(Act::SetPitchStretch(e)),
                EffectV::Toast("Pitch stretch: "@ + stretch_label(e), 1000),
            ]
        },
        IpcCommand::Click { col, row, shift } => root is None && mouse_click_done(
            a,
            b,
            fx,
            step,
            col,
            row,
            shift,
            keys,
            info,
            defaults,
        ),
        IpcCommand::Drag { col, row } => still && b == a && fx == drag_effects(
            a.targets@,
            col,
            row,
            a.config.tempo_range,
        ),
        IpcCommand::LayoutDump => still && b == a && fx == seq![EffectV::Do(Act::WriteLayout)],
        IpcCommand::Quantize { on, beats } => {
            let kept: u64 = if beats < 1000 {
                1000
            } else {
                beats
            };
            still && b == App { config: with_quantize(a.config, on, kept), ..a } && fx == seq![
                EffectV::Do(Act::SaveConfig),
                EffectV::Do(Act::SetQuantize { on, step: kept }),
                EffectV::Toast(quantize_message(on, beats), 1000),
            ]
        },
        IpcCommand::RateMix(good) => still && b == a && exists|now: i64|
            fx == #[trigger] rate_last_effects(env.mixed, good, env.dj, now),
        IpcCommand::DjSettings(s) => still && (match s {
            Some(x) => b == App { config: with_dj(a.config, x), ..a } && fx == seq![
                EffectV::Do(Act::SaveConfig),
                EffectV::Do(Act::SyncClaudeDj),
                EffectV::Toast("AI DJ: "@ + mode_name(x.mode) + " mode"@, 1500),
            ],
            None => b == a && fx == seq![
                EffectV::Toast("AI DJ settings: invalid patch"@, 2000),
            ],
        }),
        IpcCommand::PlaylistCreate(name) => still && b == a && fx == (if keys.signed_in {
            seq![EffectV::With(TextAct::CreatePlaylist, name@)]
        } else {
            seq![EffectV::Toast("Playlist create: not logged in"@, 2000)]
        }),
        IpcCommand::PlaylistDelete(id) => still && b == a && fx == (if keys.signed_in {
            seq![EffectV::Do(Act::DeletePlaylist(id))]
        } else {
            seq![EffectV::Toast("Playlist delete: not logged in"@, 2000)]
        }),
        IpcCommand::PlaylistDeleteRequest(id) => still && b == a && fx == seq![
            EffectV::Toast(delete_request(id), 5000),
        ],
        IpcCommand::MonitorSource(src) => still && b == a && fx == (match source_named(
            lowercase_of(src@),
            info.playing_is_a,
        ) {
            Some(s) => seq![
                EffectV::Do(Act::SetMonitorSource(s)),
                EffectV::Toast("Monitor source: "@ + src@, 1000),
            ],
            None => seq![EffectV::Toast("Unknown monitor source: "@ + src@, 1500)],
        }),
        IpcCommand::MonitorDevice(name) => still && b == App {
            config: with_monitor(a.config, name),
            ..a
        } && fx == seq![
            EffectV::Do(Act::SaveConfig),
            EffectV::Toast(
                "Monitor device: "@ + or_disabled(name@) + " (effective on restart)"@,
                2000,
            ),
        ],
        IpcCommand::LibraryPath(which, path) => {
            let c = with_library(a.config, which, path);
            step is Nothing && root == Some(root_of(c, which)) && b == App { config: c, ..a } && fx
                == seq![
                EffectV::Do(Act::SaveConfig),
                EffectV::Toast(library_label(which) + or_disabled(path@), 2000),
            ]
        },
        IpcCommand::SimulateKey(c) => still && key_done(
            a,
            b,
            fx,
            plain_key(KeyCode::Char(c)),
            keys,
            info,
            defaults,
        ),
        IpcCommand::SimulateKeyNamed(name) => still && (match key_named(name@) {
            Some(code) => key_done(a, b, fx, plain_key(code), keys, info, defaults),
            None => b == a && fx.len() == 0,
        }),
        IpcCommand::Favorite => still && b == a && fx == (if a.nav@.screen().spec_track_at(
            a.nav.cursor.selected as int,
        ) is Some {
            seq![EffectV::Do(Act::ToggleSelectedFavorite)]
        } else {
            Seq::empty()
        }),
        IpcCommand::Filter(text) => still && b == App {
            view: ViewMode::Browse,
            nav: Nav {
                filtering: false,
                filter: text,
                cursor: Cursor { selected: 0, ..a.nav.cursor },
                ..a.nav
            },
            ..a
        } && fx == seq![EffectV::Toast("Filter applied (IPC)"@, 500)],
        IpcCommand::QueueTrack(id) => still && b == a && fx == queue_track_effects(
            a.nav@.screen(),
            id,
        ),
    }
}

/// How to confirm that a playlist goes.
pub open spec fn delete_request(id: i64) -> Seq<char> {
    let n = signed_decimal(id as int);
    "Playlist "@ + n + ": pass {\"id\":"@ + n + ",\"confirm\":true} to delete"@
}

/// A playlist is deleted only by the command that confirms it.
pub proof fn playlists_need_a_confirmation(
    a: App,
    b: App,
    fx: Seq<EffectV>,
    step: BrowseStep,
    root: Option<RootMenu>,
    id: i64,
    env: RemoteEnv,
    keys: KeyEnv,
    info: NowPlaying,
    defaults: RuleConfig,
)
    requires
        remote_done(
            a,
            b,
            fx,
            step,
            root,
            IpcCommand::PlaylistDeleteRequest(id),
            env,
            keys,
            info,
            defaults,
        ),
    ensures
        b == a,
        forall|i: int| 0 <= i < fx.len() ==> #[trigger] fx[i] is Toast,
{
}

fn three(a: Effect, b: Effect, c: Effect) -> (fx: Vec<Effect>)
    ensures
        fx_view(fx@) == seq![a@, b@, c@],
{
    let mut fx: Vec<Effect> = Vec::new();
    fx.push(a);
    fx.push(b);
    fx.push(c);
    assert(fx_view(fx@) =~= seq![a@, b@, c@]);
    fx
}

fn only_with(act: TextAct, text: &str) -> (fx: Vec<Effect>)
    ensures
        fx_view(fx@) == seq![EffectV::With(act, text@)],
{
    let mut fx: Vec<Effect> = no_effects();
    add_text(&mut fx, act, text);
    assert(fx_view(fx@) =~= seq![EffectV::With(act, text@)]);
    fx
}

impl App {
    fn remote_search(&mut self, q: String, signed_in: bool) -> (fx: Vec<Effect>)
        requires
            old(self).wf(),
        ensures
            final(self).wf(),
            *final(self) == (App {
                search: final(self).search,
                view: ViewMode::Search,
                ..*old(self)
            }),
            final(self).search@ == (SearchV { query: q@, ..old(self).search@ }),
            fx_view(fx@) == seq![EffectV::Toast("Searching: "@ + q@, 1000)] + search_effects(
                q@,
                signed_in,
            ),
    {
        let mut fx: Vec<Effect> = only_toast(concat2("Searching: ", q.as_str()).as_str(), 1000);
        let more: Vec<Effect> = trigger_search(q.as_str(), signed_in);
        add_effects(&mut fx, more);
        self.search.query = q;
        self.view = ViewMode::Search;
        fx
    }

    fn remote_browse(&mut self, path: &str) -> (o: RemoteOut)
        requires
            old(self).wf(),
        ensures
            final(self).wf(),
            o.root is None,
            exists|ok: bool, first: Seq<EffectV>| #[trigger]
                path_started(
                    *old(self),
                    *final(self),
                    ok,
                    o.step@,
                    first,
                    split_on(path@, '/'),
                ) && fx_view(o.effects@) == first.push(
                    EffectV::Toast("Browse: "@ + path@, 1000),
                ),
    {
        let segments: Vec<String> = split_text(path, '/');
        let p: PathOut = self.browse_path(&segments);
        let ghost first = fx_view(p.effects@);
        let PathOut { found, step, effects } = p;
        let mut fx: Vec<Effect> = effects;
        add_toast(&mut fx, concat2("Browse: ", path).as_str(), 1000);
        assert(path_started(
            *old(self),
            *self,
            found,
            step@,
            first,
            split_on(path@, '/'),
        ));
        RemoteOut { effects: fx, step, root: None }
    }

    fn remote_test_mix(&mut self) -> (o: RemoteOut)
        requires
            old(self).wf(),
        ensures
            final(self).wf(),
            o.root is None,
            exists|mid: App, ok: bool, first: Seq<EffectV>| #[trigger]
                path_started(*old(self), mid, ok, o.step@, first, test_mix_path())
                    && *final(self) == (App {
                    test_mix: Some(TestMixState::WaitForList { ticks: 0 }),
                    ..mid
                }) && fx_view(o.effects@) == seq![EffectV::Do(Act::ClearQueue)] + first.push(
                    EffectV::Toast("test_mix: navigating…"@, 1000),
                ),
    {
        let mut segments: Vec<String> = Vec::new();
        segments.push(owned("Discover"));
        segments.push(owned("Trending"));
        segments.push(owned("Global Top 10"));
        assert(strs(segments@) =~= test_mix_path());
        let p: PathOut = self.browse_path(&segments);
        let ghost mid = *self;
        let ghost first = fx_view(p.effects@);
        let PathOut { found, step, effects } = p;
        self.test_mix = Some(TestMixState::WaitForList { ticks: 0 });
        let mut fx: Vec<Effect> = only_act(Act::ClearQueue);
        add_effects(&mut fx, effects);
        add_toast(&mut fx, "test_mix: navigating…", 1000);
        assert(path_started(*old(self), mid, found, step@, first, test_mix_path()));
        assert(fx_view(fx@) =~= seq![EffectV::Do(Act::ClearQueue)] + first.push(
            EffectV::Toast("test_mix: navigating…"@, 1000),
        ));
        RemoteOut { effects: fx, step, root: None }
    }

    fn remote_crossfade(&mut self, bars: u32) -> (fx: Vec<Effect>)
        requires
            old(self).wf(),
        ensures
            final(self).wf(),
            if crossfade_length(bars) {
                *final(self) == (App {
                    config: with_crossfade(old(self).config, bars),
                    ..*old(self)
                }) && fx_view(fx@) == seq![
                    EffectV::Do(Act::SaveConfig),
                    EffectV::Do(Act::SetCrossfadeBars(bars)),
                    EffectV::Toast("Crossfade: "@ + decimal(bars as nat) + " bars"@, 1000),
                ]
            } else {
                *final(self) == *old(self) && fx_view(fx@) == seq![
                    EffectV::Toast(
                        "Invalid crossfade bars: "@ + decimal(bars as nat)
                            + " (use 4/8/16/32/64)"@,
                        2000,
                    ),
                ]
            },
    {
        let n: String = decimal_str(bars as u64);
        if bars == 4 || bars == 8 || bars == 16 || bars == 32 || bars == 64 {
            set_crossfade(&mut self.config, bars);
            three(
                Effect::Do(Act::SaveConfig),
                Effect::Do(Act::SetCrossfadeBars(bars)),
                Effect::Toast(concat3("Crossfade: ", n.as_str(), " bars"), 1000),
            )
        } else {
            let text: String = concat3(
                "Invalid crossfade bars: ",
                n.as_str(),
                " (use 4/8/16/32/64)",
            );
            only_toast(text.as_str(), 2000)
        }
    }

    fn remote_view(&mut self, v: ViewMode)
        requires
            old(self).wf(),
        ensures
            final(self).wf(),
            *final(self) == (App {
                view: v,
                nav: if v is Dashboard || v is Help {
                    old(self).nav
                } else {
                    old(self).with_selected(0)
                },
                ..*old(self)
            }),
    {
        self.view = v;
        if v != ViewMode::Dashboard && v != ViewMode::Help {
            self.nav.cursor.selected = 0;
        }
    }

    fn remote_filter(&mut self, text: String)
        requires
            old(self).wf(),
        ensures
            final(self).wf(),
            *final(self) == (App {
                view: ViewMode::Browse,
                nav: Nav {
                    filtering: false,
                    filter: text,
                    cursor: Cursor { selected: 0, ..old(self).nav.cursor },
                    ..old(self).nav
                },
                ..*old(self)
            }),
    {
        self.view = ViewMode::Browse;
        self.nav.filtering = false;
        self.nav.filter = text;
        self.nav.cursor.selected = 0;
    }

    fn remote_library(&mut self, which: Library, path: String) -> (o: RemoteOut)
        requires
            old(self).wf(),
        ensures
            final(self).wf(),
            *final(self) == (App {
                config: with_library(old(self).config, which, path),
                ..*old(self)
            }),
            o.step is Nothing,
            o.root == Some(root_of(with_library(old(self).config, which, path), which)),
            fx_view(o.effects@) == seq![
                EffectV::Do(Act::SaveConfig),
                EffectV::Toast(library_label(which) + or_disabled(path@), 2000),
            ],
    {
        let head: &str = match which {
            Library::Local => "Local library: ",
            Library::Rekordbox => "Rekordbox XML: ",
            Library::EngineDj => "Engine DJ DB: ",
            Library::Serato => "Serato DB: ",
        };
        let text: String = concat2(head, or_disabled_str(path.as_str()).as_str());
        set_library(&mut self.config, which, path);
        let root: RootMenu = root_for(&self.config, which);
        RemoteOut {
            effects: act_and_toast(Act::SaveConfig, text.as_str(), 2000),
            step: BrowseStep::Nothing,
            root: Some(root),
        }
    }

    fn remote_waveform(&mut self) -> (fx: Vec<Effect>)
        requires
            old(self).wf(),
        ensures
            final(self).wf(),
            *final(self) == (App {
                dash: DashState { waveform: final(self).dash.waveform, ..old(self).dash },
                ..*old(self)
            }),
            final(self).dash.waveform.position() == (old(self).dash.waveform.position() + 1) % 3,
            fx_view(fx@) == seq![
                EffectV::Toast("Waveform: "@ + final(self).dash.waveform.spec_label()@, 1000),
            ],
    {
        let next: crate::controls::WaveformMode = self.dash.waveform.next();
        self.dash.waveform = next;
        only_toast(concat2("Waveform: ", next.label()).as_str(), 1000)
    }

    fn remote_config(&mut self, cmd: IpcCommand, info: &NowPlaying) -> (fx: Vec<Effect>)
        requires
            old(self).wf(),
            cmd is SetQuality || cmd is PitchStretch || cmd is Quantize || cmd is DjSettings
                || cmd is MonitorDevice,
        ensures
            final(self).wf(),
            forall|env: RemoteEnv, keys: KeyEnv, defaults: RuleConfig| #[trigger]
                remote_done(
                    *old(self),
                    *final(self),
                    fx_view(fx@),
                    BrowseStep::Nothing,
                    None,
                    cmd,
                    env,
                    keys,
                    *info,
                    defaults,
                ),
    {
        match cmd {
            IpcCommand::SetQuality(q) => {
                let lower: String = to_lowercase(q.as_str());
                if let Some(x) = quality_of(lower.as_str()) {
                    set_quality(&mut self.config, x);
                }
                only_act(Act::SaveConfig)
            },
            IpcCommand::PitchStretch(name) => {
                let e: PitchStretchEngine = stretch_of(name.as_str());
                set_stretch(&mut self.config, e);
                three(
                    Effect::Do(Act::SaveConfig),
                    Effect::Do(Act::SetPitchStretch(e)),
                    Effect::Toast(concat2("Pitch stretch: ", stretch_label_of(e)), 1000),
                )
            },
            IpcCommand::Quantize { on, beats } => {
                let kept: u64 = if beats < 1000 {
                    1000
                } else {
                    beats
                };
                set_quantize(&mut self.config, on, kept);
                three(
                    Effect::Do(Act::SaveConfig),
                    Effect::Do(Act::SetQuantize { on, step: kept }),
                    Effect::Toast(quantize_text(on, beats), 1000),
                )
            },
            IpcCommand::DjSettings(s) => match s {
                Some(x) => {
                    set_dj(&mut self.config, x);
                    three(
                        Effect::Do(Act::SaveConfig),
                        Effect::Do(Act::SyncClaudeDj),
                        Effect::Toast(
                            concat3("AI DJ: ", mode_name_of(x.mode), " mode"),
                            1500,
                        ),
                    )
                },
                None => only_toast("AI DJ settings: invalid patch", 2000),
            },
            IpcCommand::MonitorDevice(name) => {
                let label: String = or_disabled_str(name.as_str());
                let text: String = concat3(
                    "Monitor device: ",
                    label.as_str(),
                    " (effective on restart)",
                );
                set_monitor(&mut self.config, name);
                act_and_toast(Act::SaveConfig, text.as_str(), 2000)
            },
            _ => no_effects(),
        }
    }

    fn remote_read(
        &self,
        cmd: &IpcCommand,
        env: &RemoteEnv,
        signed_in: bool,
        info: &NowPlaying,
    ) -> (fx: Vec<Effect>)
        requires
            self.wf(),
            cmd is Deck || cmd is LoadDeck || cmd is QueueAll || cmd is Profile || cmd is Drag
                || cmd is LayoutDump || cmd is RateMix || cmd is PlaylistCreate
                || cmd is PlaylistDelete || cmd is PlaylistDeleteRequest || cmd is MonitorSource
                || cmd is Favorite || cmd is QueueTrack,
        ensures
            forall|keys: KeyEnv, defaults: RuleConfig|
                keys.signed_in == signed_in ==> #[trigger] remote_done(
                    *self,
                    *self,
                    fx_view(fx@),
                    BrowseStep::Nothing,
                    None,
                    *cmd,
                    *env,
                    keys,
                    *info,
                    defaults,
                ),
    {
        match cmd {
            IpcCommand::Deck(c) => run_deck_command(c),
            IpcCommand::LoadDeck { is_a } => load_deck(&self.nav, info, *is_a),
            IpcCommand::QueueAll => {
                if self.nav.current_screen().tracks().is_some() {
                    only_act(Act::EnqueueAll)
                } else {
                    only_toast("No tracks to queue", 1000)
                }
            },
            IpcCommand::Profile(on) => {
                let next: bool = match *on {
                    Some(x) => x,
                    None => !env.profiling,
                };
                act_and_toast(
                    Act::ProfilerOn(next),
                    if next {
                        "Profiler: ON"
                    } else {
                        "Profiler: OFF"
                    },
                    1500,
                )
            },
            IpcCommand::Drag { col, row } => handle_mouse_drag(
                &self.targets,
                *col,
                *row,
                self.config.tempo_range,
            ),
            IpcCommand::LayoutDump => only_act(Act::WriteLayout),
            IpcCommand::RateMix(good) => rate_last(env.mixed, *good, env.dj),
            IpcCommand::PlaylistCreate(name) => {
                if signed_in {
                    only_with(TextAct::CreatePlaylist, name.as_str())
                } else {
                    only_toast("Playlist create: not logged in", 2000)
                }
            },
            IpcCommand::PlaylistDelete(id) => {
                if signed_in {
                    only_act(Act::DeletePlaylist(*id))
                } else {
                    only_toast("Playlist delete: not logged in", 2000)
                }
            },
            IpcCommand::PlaylistDeleteRequest(id) => {
                let n: String = signed_decimal_str(*id);
                let s: String = concat3("Playlist ", n.as_str(), ": pass {\"id\":");
                let s: String = concat3(s.as_str(), n.as_str(), ",\"confirm\":true} to delete");
                only_toast(s.as_str(), 5000)
            },
            IpcCommand::MonitorSource(src) => {
                let lower: String = to_lowercase(src.as_str());
                match source_of(lower.as_str(), info.playing_is_a) {
                    Some(s) => act_and_toast(
                        Act::SetMonitorSource(s),
                        concat2("Monitor source: ", src.as_str()).as_str(),
                        1000,
                    ),
                    None => only_toast(
                        concat2("Unknown monitor source: ", src.as_str()).as_str(),
                        1500,
                    ),
                }
            },
            IpcCommand::Favorite => {
                if self.nav.current_screen().track_at(self.nav.cursor.selected).is_some() {
                    only_act(Act::ToggleSelectedFavorite)
                } else {
                    no_effects()
                }
            },
            IpcCommand::QueueTrack(id) => queue_track(self.nav.current_screen(), *id),
            _ => no_effects(),
        }
    }

    /// Handles a remote command.
    #[verifier::rlimit(40)]
    pub fn handle_ipc_command(
        &mut self,
        cmd: IpcCommand,
        env: &RemoteEnv,
        keys: &KeyEnv,
        info: &NowPlaying,
        defaults: RuleConfig,
    ) -> (o: RemoteOut)
        requires
            old(self).wf(),
        ensures
            final(self).wf(),
            remote_done(
                *old(self),
                *final(self),
                fx_view(o.effects@),
                o.step,
                o.root,
                cmd,
                *env,
                *keys,
                *info,
                defaults,
            ),
    {
        match cmd {
            IpcCommand::Search(q) => out(self.remote_search(q, keys.signed_in)),
            IpcCommand::Browse(path) => self.remote_browse(path.as_str()),
            IpcCommand::Navigate(dir) => {
                let step: BrowseStep = navigate(&mut self.nav, dir.as_str());
                RemoteOut { effects: no_effects(), step, root: None }
            },
            IpcCommand::View(v) => {
                self.remote_view(v);
                out(no_effects())
            },
            IpcCommand::WaveformMode => out(self.remote_waveform()),
            IpcCommand::SetCrossfade(bars) => out(self.remote_crossfade(bars)),
            IpcCommand::TestMix => self.remote_test_mix(),
            IpcCommand::Click { col, row, shift } => {
                let c: ClickOut = self.handle_mouse_click(col, row, shift, keys, info, defaults);
                RemoteOut { effects: c.effects, step: c.step, root: None }
            },
            IpcCommand::LibraryPath(which, path) => self.remote_library(which, path),
            IpcCommand::SimulateKey(c) => {
                let key: KeyEvent = KeyEvent {
                    code: KeyCode::Char(c),
                    modifiers: KeyModifiers::none(),
                };
                out(self.handle_key(key, keys, info, defaults))
            },
            IpcCommand::SimulateKeyNamed(name) => match key_of_name(name.as_str()) {
                Some(code) => {
                    let key: KeyEvent = KeyEvent { code, modifiers: KeyModifiers::none() };
                    out(self.handle_key(key, keys, info, defaults))
                },
                None => out(no_effects()),
            },
            IpcCommand::Filter(text) => {
                self.remote_filter(text);
                out(only_toast("Filter applied (IPC)", 500))
            },
            IpcCommand::SetQuality(_)
            | IpcCommand::PitchStretch(_)
            | IpcCommand::Quantize { .. }
            | IpcCommand::DjSettings(_)
            | IpcCommand::MonitorDevice(_) => out(self.remote_config(cmd, info)),
            _ => out(self.remote_read(&cmd, env, keys.signed_in, info)),
        }
    }
}

} // verus!
