//! The state of the application, and where each key goes.
use crate::catalog::BrowseScreen;
use crate::clicks::ClickTarget;
use crate::command::{builtin, CommandRun};
use crate::config::AppConfig;
use crate::controls::{CtrlSection, DashFocus, WaveformMode};
use crate::dispatch::{dispatched, try_dispatch, Capture};
use crate::inputs::{GenrePicker, HelpState, PlaylistPicker, SearchState, ViewMode};
use crate::key::{KeyCode, KeyEvent};
use crate::keymap::{default_keys, user_keys, Keymap};
use crate::mixer::MixerRow;
use crate::modals::{
    resume_answer, resume_key, ConfirmAction, Palette, PendingMidiMap, ResumeAnswer,
    SessionSnapshot,
};
use crate::nav::{Cursor, Nav};
use crate::overlay_keys::{LearnEnv, LearnState, MixerState};
use crate::paths::{BrowsePathState, TestMixState};
use crate::rules::RuleConfig;
use crate::rules_editor::RulesEditor;
use crate::settings::SettingsEnv;
use crate::track::Track;
use vstd::prelude::*;

verus! {

/// What the dashboard shows and where it is focused.
#[derive(Debug, Clone, Copy, PartialEq, Eq, Structural)]
pub struct DashState {
    pub focus: DashFocus,
    pub section: CtrlSection,
    /// The legend is shown.
    pub help: bool,
    /// The question which deck's track to favour is open.
    pub fav_picker: bool,
    /// How many lines back from the newest the log is scrolled.
    pub log_offset: usize,
    pub waveform: WaveformMode,
    /// The deck whose waveform is zoomed; A is true.
    pub zoom: Option<bool>,
}

/// What the user sees and works on.
pub struct App {
    pub config: AppConfig,
    pub keymap: Keymap,
    pub nav: Nav,
    pub view: ViewMode,
    pub dash: DashState,
    /// What is being asked of the DJ.
    pub ask: Option<String>,
    pub search: SearchState,
    pub help: HelpState,
    pub midi_map: Option<PendingMidiMap>,
    pub confirm: Option<ConfirmAction>,
    pub palette: Option<Palette>,
    pub prompt: Option<String>,
    /// The question whether to resume is open, about this session.
    pub asks_resume: bool,
    pub session: Option<SessionSnapshot>,
    /// Where resumed tracks go on, by their id.
    pub positions: Vec<(i64, u64)>,
    /// Tracks to hand to the queue of the engine.
    pub to_queue: Vec<Track>,
    pub playlist: Option<PlaylistPicker>,
    pub genre: Option<GenrePicker>,
    /// The text of a setting being typed.
    pub editing: Option<String>,
    pub learn: LearnState,
    pub mixer: MixerState,
    pub rules: Option<RulesEditor>,
    /// Rules to hand to the engine.
    pub saved_rules: Option<RuleConfig>,
    pub targets: Vec<ClickTarget>,
    /// A browse path being followed.
    pub path: Option<BrowsePathState>,
    pub test_mix: Option<TestMixState>,
    /// A track is being loaded.
    pub in_flight: bool,
}

/// What a key handler needs to know of the outside.
pub struct KeyEnv {
    pub signed_in: bool,
    pub settings: SettingsEnv,
    pub learn: LearnEnv,
    /// The commands that the palette shows, and how many it would show with the
    /// character before its cursor erased.
    pub shown: Vec<usize>,
    pub shown_erased: usize,
}

/// Where a key goes.
pub enum Route {
    MidiMap,
    Confirm,
    Palette,
    Prompt,
    Resume,
    Command(CommandRun),
    FavPicker,
    Ask,
    Log,
    Filter,
    Help,
    Search,
    PlaylistName,
    Playlist,
    Genre,
    Settings,
    Learn,
    Mixer,
    Rules,
    Scroll,
}

pub open spec fn capture_of(a: App) -> Capture {
    Capture {
        fav_picker: a.dash.fav_picker,
        asking: a.ask is Some,
        filtering: a.nav.filtering,
        prompt: a.prompt is Some,
        midi_map: a.midi_map is Some,
        confirm: a.confirm is Some,
        editing: a.editing is Some,
        view: a.view,
    }
}

/// The screen that reads a key once no overlay did.
pub open spec fn screen_route(view: ViewMode) -> Route {
    match view {
        ViewMode::Help => Route::Help,
        ViewMode::Search => Route::Search,
        ViewMode::PlaylistNameInput => Route::PlaylistName,
        ViewMode::PlaylistPicker => Route::Playlist,
        ViewMode::GenrePicker => Route::Genre,
        ViewMode::FavoritesPicker => Route::Genre,
        ViewMode::Settings => Route::Settings,
        ViewMode::MidiLearn => Route::Learn,
        ViewMode::Mixer => Route::Mixer,
        ViewMode::TransitionRules => Route::Rules,
        _ => Route::Scroll,
    }
}

/// Where a key goes: to the topmost thing that waits for one.
#[verifier::opaque]
pub open spec fn route(a: App, key: KeyEvent) -> Route {
    let command = dispatched(a.keymap@, key, capture_of(a));
    let dashboard = a.view is Dashboard;
    if a.midi_map is Some {
        Route::MidiMap
    } else if a.confirm is Some {
        Route::Confirm
    } else if a.palette is Some {
        Route::Palette
    } else if a.prompt is Some {
        Route::Prompt
    } else if a.asks_resume && !(resume_answer(key.code) is NotAnswered) {
        Route::Resume
    } else if command is Some {
        Route::Command(command->0)
    } else if dashboard && a.dash.fav_picker {
        Route::FavPicker
    } else if dashboard && a.ask is Some {
        Route::Ask
    } else if dashboard && a.dash.focus is Log && (key.code is Up || key.code is Down) {
        Route::Log
    } else if a.nav.filtering {
        Route::Filter
    } else {
        screen_route(a.view)
    }
}

/// A mapping in the making takes every key; where there is none, an open
/// confirmation does.
pub proof fn modals_come_first(a: App, key: KeyEvent)
    ensures
        a.midi_map is Some ==> route(a, key) is MidiMap,
        a.midi_map is None && a.confirm is Some ==> route(a, key) is Confirm,
        a.midi_map is None && a.confirm is None && a.palette is None && a.prompt is Some
            ==> route(a, key) is Prompt,
{
    reveal(route);
}

/// What is known of the application where a key goes to an overlay.
pub proof fn lemma_route(a: App, key: KeyEvent)
    ensures
        route(a, key) is MidiMap ==> a.midi_map is Some,
        route(a, key) is Confirm ==> a.midi_map is None && a.confirm is Some,
        route(a, key) is Palette ==> a.palette is Some,
        route(a, key) is Prompt ==> a.prompt is Some,
        route(a, key) is Ask ==> a.ask is Some,
        route(a, key) is Log ==> key.code is Up || key.code is Down,
{
    reveal(route);
}

/// While a setting is typed, no key fires a command that is guarded.
pub proof fn typing_a_setting_is_not_interrupted(a: App, key: KeyEvent)
    requires
        a.editing is Some,
        route(a, key) is Command,
    ensures
        crate::command::first_with(
            crate::command::builtin(),
            a.keymap@[crate::keymap::chord_of(key)],
        )->0.when is Always,
{
    reveal(route);
}

impl App {
    /// The parts are well-formed.
    pub open spec fn wf(self) -> bool {
        &&& self.keymap.wf()
        &&& self.nav@.wf()
        &&& self.learn.selected < usize::MAX
        &&& match self.palette {
            Some(p) => p@.wf() && p.selected < usize::MAX,
            None => true,
        }
        &&& match self.rules {
            Some(e) => e@.wf(),
            None => true,
        }
    }

    /// The application as it starts: on the browser, at its root, with nothing
    /// typed and nothing asked.
    pub fn new(config: AppConfig, root: BrowseScreen) -> (a: App)
        requires
            root.wf(),
        ensures
            a.wf(),
            a.config == config,
            a.keymap@ == user_keys(
                default_keys(builtin(), builtin().len()),
                config.global_keys@,
                config.global_keys@.len(),
            ),
            a.nav@.stack == seq![root],
            a.nav.cursor == Cursor::spec_start(),
            !a.nav.filtering && a.nav@.filter.len() == 0 && a.nav.page == 1,
            a.view == ViewMode::Browse,
            a.dash == (DashState {
                focus: DashFocus::Controller,
                section: CtrlSection::Crossfader,
                help: false,
                fav_picker: false,
                log_offset: 0,
                waveform: WaveformMode::Phrase,
                zoom: None,
            }),
            a.mixer == (MixerState { deck_is_a: true, row: MixerRow::EqLow }),
            a.search@.query.len() == 0 && a.search.results == 0,
            a.help@.filter.len() == 0 && a.help.scroll == 0,
            a.learn.selected == 0 && a.learn.captured is None,
            a.ask is None && a.midi_map is None && a.confirm is None && a.palette is None,
            a.prompt is None && !a.asks_resume && a.session is None && a.playlist is None,
            a.genre is None && a.editing is None && a.rules is None && a.saved_rules is None,
            a.path is None && a.test_mix is None && !a.in_flight,
            a.positions@.len() == 0 && a.to_queue@.len() == 0 && a.targets@.len() == 0,
    {
        let keymap: Keymap = Keymap::build(&config);
        App {
            config,
            keymap,
            nav: Nav::new(root),
            view: ViewMode::Browse,
            dash: DashState {
                focus: DashFocus::Controller,
                section: CtrlSection::Crossfader,
                help: false,
                fav_picker: false,
                log_offset: 0,
                waveform: WaveformMode::Phrase,
                zoom: None,
            },
            ask: None,
            search: SearchState { query: String::new(), results: 0 },
            help: HelpState { filter: String::new(), scroll: 0 },
            midi_map: None,
            confirm: None,
            palette: None,
            prompt: None,
            asks_resume: false,
            session: None,
            positions: Vec::new(),
            to_queue: Vec::new(),
            playlist: None,
            genre: None,
            editing: None,
            learn: LearnState { selected: 0, captured: None },
            mixer: MixerState { deck_is_a: true, row: MixerRow::EqLow },
            rules: None,
            saved_rules: None,
            targets: Vec::new(),
            path: None,
            test_mix: None,
            in_flight: false,
        }
    }

    /// The cursor of the list on a row.
    pub open spec fn with_selected(self, selected: usize) -> Nav {
        Nav { cursor: Cursor { selected, ..self.nav.cursor }, ..self.nav }
    }

    fn capture(&self) -> (c: Capture)
        ensures
            c == capture_of(*self),
    {
        Capture {
            fav_picker: self.dash.fav_picker,
            asking: self.ask.is_some(),
            filtering: self.nav.filtering,
            prompt: self.prompt.is_some(),
            midi_map: self.midi_map.is_some(),
            confirm: self.confirm.is_some(),
            editing: self.editing.is_some(),
            view: self.view,
        }
    }

    /// Where a key goes.
    pub fn route_key(&self, key: &KeyEvent) -> (r: Route)
        requires
            self.wf(),
        ensures
            r == route(*self, *key),
    {
        proof {
            reveal(route);
        }
        if self.midi_map.is_some() {
            return Route::MidiMap;
        }
        if self.confirm.is_some() {
            return Route::Confirm;
        }
        if self.palette.is_some() {
            return Route::Palette;
        }
        if self.prompt.is_some() {
            return Route::Prompt;
        }
        if self.asks_resume {
            match resume_key(key.code) {
                ResumeAnswer::NotAnswered => {},
                _ => {
                    return Route::Resume;
                },
            }
        }
        let c: Capture = self.capture();
        if let Some(run) = try_dispatch(&self.keymap, key, &c) {
            return Route::Command(run);
        }
        if self.view == ViewMode::Dashboard {
            if self.dash.fav_picker {
                return Route::FavPicker;
            }
            if self.ask.is_some() {
                return Route::Ask;
            }
            if self.dash.focus == DashFocus::Log && (key.code == KeyCode::Up || key.code
                == KeyCode::Down) {
                return Route::Log;
            }
        }
        if self.nav.filtering {
            return Route::Filter;
        }
        match self.view {
            ViewMode::Help => Route::Help,
            ViewMode::Search => Route::Search,
            ViewMode::PlaylistNameInput => Route::PlaylistName,
            ViewMode::PlaylistPicker => Route::Playlist,
            ViewMode::GenrePicker => Route::Genre,
            ViewMode::FavoritesPicker => Route::Genre,
            ViewMode::Settings => Route::Settings,
            ViewMode::MidiLearn => Route::Learn,
            ViewMode::Mixer => Route::Mixer,
            ViewMode::TransitionRules => Route::Rules,
            _ => Route::Scroll,
        }
    }
}

} // verus!
