//! What each key does, overlay by overlay and screen by screen.
use crate::app::{lemma_route, route, App, KeyEnv, Route};
use crate::boxes::opt_str;
use crate::clock::{new_playlist_name, playlist_name_at};
use crate::command::{builtin, commands_view, registry, CommandRun, Registry};
use crate::config::AppConfig;
use crate::deck::NowPlaying;
use crate::dispatch::{
    command_effects, command_effects_of, command_view, command_view_of, other_engine,
    other_engine_of,
};
use crate::effects::{
    act_and_toast, add_toast, fx_view, no_effects, Act, Effect, EffectV, TextAct,
};
use crate::inputs::{
    ask_key, ask_step, fav_key, fav_step, filter_step, genre_key, genre_step, genre_view, help_step,
    playlist_key, playlist_name_key, playlist_name_step, playlist_step, playlist_view, search_step,
    GenreChoiceV, GenrePicker, GenreV, PlaylistPicker, ViewMode,
};
use crate::key::{KeyCode, KeyEvent};
use crate::logs::{log_scroll_down, log_scroll_up, scrolled_down, scrolled_up};
use crate::modals::{
    apply_resume, confirm_key, confirm_step, midi_map_key, midi_map_step, midi_map_view, prompt_key,
    prompt_step, resume_answer, resume_key, resume_order, resume_positions, session_size,
    ConfirmAction, Palette, PaletteV, PendingMidiMap, ResumeAnswer, ResumePlan,
};
use crate::nav::{Cursor, Nav};
use crate::overlay_keys::{learn_step, mixer_key, mixer_step, MixerOut};
use crate::rules::{rules_view, RuleConfig};
use crate::rules_editor::{editor_step, handle_key as editor_key, KeyResult, RulesEditor};
use crate::settings::{apply_text_setting, setting_of, text_setting_of};
use crate::settings_keys::{
    action_text, apply_and_sync_setting, resync_all_engine_settings, resync_effects,
    setting_effects, settings_cmd, settings_key, SettingsCmd, SettingsCmdV,
};
use crate::text::{concat2, decimal, owned, strs};
use vstd::prelude::*;
use vstd::string::*;

verus! {

/// How many rows of a list are taken to be visible.
pub const VISIBLE_ROWS: usize = 20;

/// The scroll that keeps the selected row visible.
pub open spec fn scroll_to(selected: usize, scroll: usize) -> usize {
    if selected < scroll {
        selected
    } else if selected >= scroll + VISIBLE_ROWS {
        (selected - VISIBLE_ROWS + 1) as usize
    } else {
        scroll
    }
}

/// After a list key the selected row is among the visible ones.
pub proof fn selected_row_is_visible(selected: usize, scroll: usize)
    ensures
        scroll_to(selected, scroll) <= selected < scroll_to(selected, scroll) + VISIBLE_ROWS,
{
}

/// The configuration with the other analyzer engine.
#[verifier::opaque]
pub open spec fn switched(c: AppConfig) -> AppConfig {
    AppConfig { analyzer_engine: other_engine(c.analyzer_engine), ..c }
}

/// The application after a command.
pub open spec fn ran(a: App, run: CommandRun) -> App {
    App {
        config: if run is CycleAnalyzer {
            switched(a.config)
        } else {
            a.config
        },
        view: match command_view(run) {
            Some(v) => v,
            None => a.view,
        },
        nav: if command_view(run) is Some && !(run is ViewDashboard) {
            a.with_selected(0)
        } else {
            a.nav
        },
        dash: if run is ToggleHelp {
            crate::app::DashState { help: !a.dash.help, ..a.dash }
        } else {
            a.dash
        },
        ..a
    }
}

/// Keys on the command palette: what is left of it, and which command runs, by its
/// place in the registry.
pub open spec fn palette_step(p: PaletteV, key: KeyEvent, shown: Seq<usize>, erased: usize) -> (
    Option<PaletteV>,
    Option<usize>,
) {
    match key.code {
        KeyCode::Esc => (None, None),
        KeyCode::Enter => if p.selected < shown.len() {
            (None, Some(shown[p.selected as int]))
        } else {
            (Some(p), None)
        },
        KeyCode::Up => (Some(p.moved(false, shown.len())), None),
        KeyCode::Down => (Some(p.moved(true, shown.len())), None),
        KeyCode::Backspace => if p.cursor > 0 {
            (Some(p.erased().clamped(erased as nat)), None)
        } else {
            (Some(p), None)
        },
        KeyCode::Char(c) => if !key.modifiers.ctrl && p.cursor < usize::MAX {
            (Some(p.typed(c)), None)
        } else {
            (Some(p), None)
        },
        _ => (Some(p), None),
    }
}

pub open spec fn palette_view(p: Option<Palette>) -> Option<PaletteV> {
    match p {
        Some(x) => Some(x@),
        None => None,
    }
}

/// The application after a key on the palette, and what is done.
pub open spec fn palette_done(a: App, b: App, fx: Seq<EffectV>, key: KeyEvent, env: KeyEnv) -> bool {
    let (left, picked) = palette_step(a.palette->0@, key, env.shown@, env.shown_erased);
    &&& palette_view(b.palette) == left
    &&& match picked {
        Some(i) => if i < builtin().len() {
            let run = builtin()[i as int].run;
            b == ran(App { palette: None, ..a }, run) && fx == command_effects(
                run,
                a.config.analyzer_engine,
            )
        } else {
            b == App { palette: None, ..a } && fx.len() == 0
        },
        None => b == App { palette: b.palette, ..a } && fx.len() == 0,
    }
}

/// The application after an answer to the question whether to resume.
pub open spec fn resume_done(a: App, b: App, fx: Seq<EffectV>, code: KeyCode) -> bool {
    match resume_answer(code) {
        ResumeAnswer::Apply => match a.session {
            Some(s) => {
                &&& b == App {
                    asks_resume: false,
                    session: None,
                    positions: b.positions,
                    to_queue: b.to_queue,
                    ..a
                }
                &&& b.positions@ == a.positions@ + resume_positions(s)
                &&& b.to_queue@ == a.to_queue@ + resume_order(s)
                &&& fx == (if session_size(s) > 0 {
                    seq![
                        EffectV::Toast("Resumed: "@ + decimal(session_size(s)) + " tracks"@, 2500),
                    ]
                } else {
                    Seq::empty()
                })
            },
            None => b == App { asks_resume: false, ..a } && fx.len() == 0,
        },
        ResumeAnswer::Discard => b == App { asks_resume: false, session: None, ..a } && fx == seq![
            EffectV::Do(Act::DeleteSession),
            EffectV::Toast("Session discarded"@, 1500),
        ],
        ResumeAnswer::NotAnswered => b == a && fx.len() == 0,
    }
}

/// The application after a key on the settings screen.
pub open spec fn settings_done(a: App, b: App, fx: Seq<EffectV>, key: KeyEvent, env: KeyEnv) -> bool {
    match settings_cmd(a.config, env.settings, a.nav.cursor.selected, opt_str(a.editing), key) {
        SettingsCmdV::Nothing => b == a && fx.len() == 0,
        SettingsCmdV::Select(i) => b == App { nav: a.with_selected(i), ..a } && fx.len() == 0,
        SettingsCmdV::Leave(v) => b == App { nav: a.with_selected(0), view: v, ..a } && fx.len()
            == 0,
        SettingsCmdV::Edit(s) => b == App { editing: b.editing, ..a } && opt_str(b.editing) == Some(
            s,
        ) && fx.len() == 0,
        SettingsCmdV::StopEditing => b == App { editing: None, ..a } && fx.len() == 0,
        SettingsCmdV::SaveText(k, label, s) => {
            &&& b == App { config: b.config, editing: None, ..a }
            &&& exists|v: String| #[trigger]
                v@ == s && b.config == (match text_setting_of(k@) {
                    Some(t) => t.applied(v, a.config),
                    None => a.config,
                })
            &&& fx == seq![
                EffectV::Do(Act::SaveConfig),
                EffectV::Toast("Saved "@ + label@, 1500),
            ]
        },
        SettingsCmdV::ResetAll => {
            &&& b == App { config: b.config, ..a }
            &&& b.config.is_default()
            &&& fx == resync_effects(b.config).push(
                EffectV::Toast("Settings reset to defaults"@, 1000),
            )
        },
        SettingsCmdV::Apply(k, i) => {
            &&& b == App { config: b.config, ..a }
            &&& match setting_of(k@) {
                Some(s) => s.applied(i, env.settings, a.config, b.config) && fx == setting_effects(
                    action_text(s.effect(i, env.settings)),
                    b.config,
                    env.signed_in,
                ).1,
                None => b.config == a.config && fx == setting_effects(
                    None,
                    b.config,
                    env.signed_in,
                ).1,
            }
        },
    }
}

/// The application after a key on the rules editor; rules that were changed go to
/// the engine when it closes.
pub open spec fn rules_done(
    a: App,
    b: App,
    fx: Seq<EffectV>,
    code: KeyCode,
    defaults: RuleConfig,
) -> bool {
    match a.rules {
        None => b == a && fx.len() == 0,
        Some(e) => {
            let (e2, r) = editor_step(
                e@,
                code,
                rules_view(defaults.rules@),
                defaults.default@,
            );
            if r is CloseSaved {
                &&& b == App {
                    rules: None,
                    view: ViewMode::Settings,
                    saved_rules: b.saved_rules,
                    ..a
                }
                &&& if e2.dirty {
                    &&& b.saved_rules is Some
                    &&& rules_view(b.saved_rules->0.rules@) == e2.rules
                    &&& b.saved_rules->0.default@ == e2.default
                    &&& fx == seq![
                        EffectV::Do(Act::SyncRules),
                        EffectV::Toast("Rules saved"@, 1000),
                    ]
                } else {
                    b.saved_rules == a.saved_rules && fx.len() == 0
                }
            } else {
                b == App { rules: b.rules, ..a } && b.rules is Some && b.rules->0@ == e2
                    && fx.len() == 0
            }
        },
    }
}

/// What a key on the genre pickers makes of the configuration, of the picker and
/// of the screen.
#[verifier::opaque]
pub open spec fn genre_chosen(
    p: GenreV,
    favorites: bool,
    before: AppConfig,
    after: AppConfig,
    left: Option<GenreV>,
    view: ViewMode,
    fx: Seq<EffectV>,
    code: KeyCode,
) -> bool {
    &&& after == AppConfig {
        default_genre: after.default_genre,
        favorite_genres: after.favorite_genres,
        ..before
    }
    &&& (
        left,
        GenreChoiceV {
            default_genre: after.default_genre@,
            favorites: strs(after.favorite_genres@),
        },
        view,
        fx,
    ) == genre_step(
        p,
        favorites,
        GenreChoiceV {
            default_genre: before.default_genre@,
            favorites: strs(before.favorite_genres@),
        },
        code,
    )
}

/// The application after a key on the genre pickers.
pub open spec fn genre_done(a: App, b: App, fx: Seq<EffectV>, code: KeyCode) -> bool {
    match a.genre {
        None => b == a && fx.len() == 0,
        Some(p) => {
            &&& b == App { genre: b.genre, config: b.config, view: b.view, ..a }
            &&& genre_chosen(
                p@,
                a.view is FavoritesPicker,
                a.config,
                b.config,
                genre_view(b.genre),
                b.view,
                fx,
                code,
            )
        },
    }
}

/// The application after a key on the playlist picker; the stamp is in the name
/// proposed for a new playlist.
pub open spec fn playlist_done(
    a: App,
    b: App,
    fx: Seq<EffectV>,
    code: KeyCode,
    signed_in: bool,
    stamp: Seq<char>,
) -> bool {
    match a.playlist {
        None => b == a && fx.len() == 0,
        Some(p) => b == App { playlist: b.playlist, view: b.view, ..a } && (
            playlist_view(b.playlist),
            b.view,
            fx,
        ) == playlist_step(p@, code, signed_in, playlist_name_at(stamp)),
    }
}

/// What a key does to the application, by where it goes.
pub open spec fn key_done(
    a: App,
    b: App,
    fx: Seq<EffectV>,
    key: KeyEvent,
    env: KeyEnv,
    info: NowPlaying,
    defaults: RuleConfig,
) -> bool {
    let code = key.code;
    match route(a, key) {
        Route::MidiMap => b == App { midi_map: b.midi_map, ..a } && (
            midi_map_view(b.midi_map),
            fx,
        ) == midi_map_step(a.midi_map->0@, code),
        Route::Confirm => b == App { confirm: b.confirm, ..a } && (b.confirm, fx) == confirm_step(
            a.confirm->0,
            code,
        ),
        Route::Palette => palette_done(a, b, fx, key, env),
        Route::Prompt => b == App { prompt: b.prompt, ..a } && opt_str(b.prompt) == prompt_step(
            a.prompt->0@,
            code,
        ).0 && fx == (match prompt_step(a.prompt->0@, code).1 {
            Some(line) => seq![EffectV::With(TextAct::Submit, line)],
            None => Seq::empty(),
        }),
        Route::Resume => resume_done(a, b, fx, code),
        Route::Command(run) => b == ran(a, run) && fx == command_effects(
            run,
            a.config.analyzer_engine,
        ),
        Route::FavPicker => b == App {
            dash: crate::app::DashState { fav_picker: b.dash.fav_picker, ..a.dash },
            ..a
        } && (b.dash.fav_picker, fx) == fav_step(
            code,
            info.deck_a.track is Some,
            info.deck_b.track is Some,
        ),
        Route::Ask => b == App { ask: b.ask, ..a } && (opt_str(b.ask), fx) == ask_step(
            a.ask->0@,
            code,
        ),
        Route::Log => b == App {
            dash: crate::app::DashState {
                log_offset: (if code is Up {
                    scrolled_up(a.dash.log_offset as int)
                } else {
                    scrolled_down(a.dash.log_offset as int)
                }) as usize,
                ..a.dash
            },
            ..a
        } && fx.len() == 0,
        Route::Filter => b == App { nav: b.nav, ..a } && b.nav@ == filter_step(a.nav@, code)
            && fx.len() == 0,
        Route::Help => b == App { help: b.help, view: b.view, ..a } && (b.help@, b.view)
            == help_step(a.help@, code) && fx.len() == 0,
        Route::Search => b == App {
            search: b.search,
            nav: a.with_selected(b.nav.cursor.selected),
            view: b.view,
            ..a
        } && (b.search@, b.nav.cursor.selected, b.view, fx) == search_step(
            a.search@,
            a.nav.cursor.selected,
            code,
            env.signed_in,
        ),
        Route::PlaylistName => match a.playlist {
            None => b == a && fx.len() == 0,
            Some(p) => b == App { playlist: b.playlist, view: b.view, ..a } && (
                playlist_view(b.playlist),
                b.view,
                fx,
            ) == playlist_name_step(p@, code, env.signed_in),
        },
        Route::Playlist => exists|stamp: Seq<char>| #[trigger]
            playlist_done(a, b, fx, code, env.signed_in, stamp),
        Route::Genre => genre_done(a, b, fx, code),
        Route::Settings => settings_done(a, b, fx, key, env),
        Route::Learn => b == App { learn: b.learn, view: b.view, ..a } && (b.learn@, b.view, fx)
            == learn_step(a.learn@, env.learn, code),
        Route::Mixer => {
            let out = mixer_step(a.mixer, info, code);
            b == App {
                mixer: out.state,
                view: out.view,
                confirm: if out.confirm is Some {
                    out.confirm
                } else {
                    a.confirm
                },
                ..a
            } && fx == out.effects
        },
        Route::Rules => rules_done(a, b, fx, code, defaults),
        Route::Scroll => b == App {
            nav: Nav {
                cursor: Cursor {
                    scroll: scroll_to(a.nav.cursor.selected, a.nav.cursor.scroll),
                    ..a.nav.cursor
                },
                ..a.nav
            },
            ..a
        } && fx.len() == 0,
    }
}

fn switch_engine(config: &mut AppConfig)
    ensures
        *final(config) == switched(*old(config)),
{
    proof {
        reveal(switched);
    }
    config.analyzer_engine = other_engine_of(config.analyzer_engine);
}

fn to_top(nav: &mut Nav)
    ensures
        *final(nav) == (Nav { cursor: Cursor { selected: 0, ..old(nav).cursor }, ..*old(nav) }),
{
    nav.cursor.selected = 0;
}

fn genre_choice(p: GenrePicker, favorites: bool, config: &mut AppConfig, code: KeyCode) -> (r: (
    Option<GenrePicker>,
    ViewMode,
    Vec<Effect>,
))
    ensures
        genre_chosen(
            p@,
            favorites,
            *old(config),
            *final(config),
            genre_view(r.0),
            r.1,
            fx_view(r.2@),
            code,
        ),
{
    proof {
        reveal(genre_chosen);
    }
    genre_key(p, favorites, &mut config.default_genre, &mut config.favorite_genres, code)
}

/// Scrolls so that the selected row is visible.
fn scroll_nav(nav: &mut Nav)
    ensures
        *final(nav) == (Nav {
            cursor: Cursor {
                scroll: scroll_to(old(nav).cursor.selected, old(nav).cursor.scroll),
                ..old(nav).cursor
            },
            ..*old(nav)
        }),
{
    let selected: usize = nav.cursor.selected;
    let scroll: usize = nav.cursor.scroll;
    if selected < scroll {
        nav.cursor.scroll = selected;
    } else if selected - scroll >= VISIBLE_ROWS {
        nav.cursor.scroll = selected - VISIBLE_ROWS + 1;
    }
}

impl App {
    /// Does what a command says.
    pub fn run_command(&mut self, run: CommandRun) -> (fx: Vec<Effect>)
        ensures
            *final(self) == ran(*old(self), run),
            fx_view(fx@) == command_effects(run, old(self).config.analyzer_engine),
    {
        let fx: Vec<Effect> = command_effects_of(run, self.config.analyzer_engine);
        if run == CommandRun::CycleAnalyzer {
            switch_engine(&mut self.config);
            return fx;
        }
        if run == CommandRun::ToggleHelp {
            self.dash.help = !self.dash.help;
            return fx;
        }
        if let Some(v) = command_view_of(run) {
            self.view = v;
            if run != CommandRun::ViewDashboard {
                to_top(&mut self.nav);
            }
        }
        fx
    }

    fn palette_key(&mut self, key: KeyEvent, env: &KeyEnv) -> (fx: Vec<Effect>)
        requires
            old(self).wf(),
            old(self).palette is Some,
        ensures
            final(self).wf(),
            palette_done(*old(self), *final(self), fx_view(fx@), key, *env),
    {
        let taken: Option<Palette> = self.palette.take();
        let mut p: Palette = match taken {
            Some(x) => x,
            None => {
                return no_effects();
            },
        };
        match key.code {
            KeyCode::Esc => {
                return no_effects();
            },
            KeyCode::Enter => {
                if p.selected < env.shown.len() {
                    let at: usize = env.shown[p.selected];
                    let all: Registry = registry();
                    if at < all.commands.len() {
                        let run: CommandRun = all.commands[at].run;
                        assert(commands_view(all.commands@)[at as int] == all.commands@[at as int]@);
                        return self.run_command(run);
                    }
                    return no_effects();
                }
            },
            KeyCode::Up => {
                p.move_pick(false, env.shown.len());
            },
            KeyCode::Down => {
                p.move_pick(true, env.shown.len());
            },
            KeyCode::Backspace => {
                if p.cursor > 0 {
                    p.erase();
                    p.clamp(env.shown_erased);
                }
            },
            KeyCode::Char(c) => {
                if !key.modifiers.ctrl && p.cursor < usize::MAX {
                    p.type_char(c);
                }
            },
            _ => {},
        }
        self.palette = Some(p);
        no_effects()
    }

    fn resume_reply(&mut self, code: KeyCode) -> (fx: Vec<Effect>)
        requires
            old(self).wf(),
        ensures
            final(self).wf(),
            resume_done(*old(self), *final(self), fx_view(fx@), code),
    {
        match resume_key(code) {
            ResumeAnswer::Apply => {
                self.asks_resume = false;
                match self.session.take() {
                    Some(s) => {
                        let plan: ResumePlan = apply_resume(s);
                        let ResumePlan { tracks, positions, toast } = plan;
                        let mut tracks: Vec<crate::track::Track> = tracks;
                        let mut positions: Vec<(i64, u64)> = positions;
                        self.positions.append(&mut positions);
                        self.to_queue.append(&mut tracks);
                        toast
                    },
                    None => no_effects(),
                }
            },
            ResumeAnswer::Discard => {
                self.asks_resume = false;
                self.session = None;
                act_and_toast(Act::DeleteSession, "Session discarded", 1500)
            },
            ResumeAnswer::NotAnswered => no_effects(),
        }
    }

    fn settings_screen_key(&mut self, key: KeyEvent, env: &KeyEnv) -> (fx: Vec<Effect>)
        requires
            old(self).wf(),
        ensures
            final(self).wf(),
            settings_done(*old(self), *final(self), fx_view(fx@), key, *env),
    {
        let typed: Option<String> = match &self.editing {
            Some(s) => Some(owned(s.as_str())),
            None => None,
        };
        assert(opt_str(typed) == opt_str(self.editing));
        let cmd: SettingsCmd = settings_key(
            &self.config,
            &env.settings,
            self.nav.cursor.selected,
            typed,
            key,
        );
        match cmd {
            SettingsCmd::Nothing => no_effects(),
            SettingsCmd::Select(i) => {
                self.nav.cursor.selected = i;
                no_effects()
            },
            SettingsCmd::Leave(v) => {
                self.nav.cursor.selected = 0;
                self.view = v;
                no_effects()
            },
            SettingsCmd::Edit(s) => {
                self.editing = Some(s);
                no_effects()
            },
            SettingsCmd::StopEditing => {
                self.editing = None;
                no_effects()
            },
            SettingsCmd::SaveText(k, label, s) => {
                self.editing = None;
                let ghost value = s;
                assert(value@ == s@);
                apply_text_setting(&mut self.config, k, s);
                act_and_toast(Act::SaveConfig, concat2("Saved ", label).as_str(), 1500)
            },
            SettingsCmd::ResetAll => {
                self.config = AppConfig::default();
                let mut fx: Vec<Effect> = resync_all_engine_settings(&self.config);
                add_toast(&mut fx, "Settings reset to defaults", 1000);
                fx
            },
            SettingsCmd::Apply(k, i) => {
                let (_, fx): (bool, Vec<Effect>) = apply_and_sync_setting(
                    &mut self.config,
                    &env.settings,
                    k,
                    i,
                    env.signed_in,
                );
                fx
            },
        }
    }

    fn rules_key(&mut self, key: KeyEvent, defaults: RuleConfig) -> (fx: Vec<Effect>)
        requires
            old(self).wf(),
        ensures
            final(self).wf(),
            rules_done(*old(self), *final(self), fx_view(fx@), key.code, defaults),
    {
        match self.rules.take() {
            Some(e) => {
                let mut e: RulesEditor = e;
                match editor_key(&mut e, key, defaults) {
                    KeyResult::CloseSaved => {
                        self.view = ViewMode::Settings;
                        if e.dirty {
                            self.saved_rules = Some(e.config);
                            act_and_toast(Act::SyncRules, "Rules saved", 1000)
                        } else {
                            no_effects()
                        }
                    },
                    _ => {
                        self.rules = Some(e);
                        no_effects()
                    },
                }
            },
            None => no_effects(),
        }
    }

    fn genre_picker_key(&mut self, code: KeyCode) -> (fx: Vec<Effect>)
        requires
            old(self).wf(),
        ensures
            final(self).wf(),
            genre_done(*old(self), *final(self), fx_view(fx@), code),
    {
        match self.genre.take() {
            Some(p) => {
                let favorites: bool = self.view == ViewMode::FavoritesPicker;
                let (left, view, fx): (Option<GenrePicker>, ViewMode, Vec<Effect>) = genre_choice(
                    p,
                    favorites,
                    &mut self.config,
                    code,
                );
                self.genre = left;
                self.view = view;
                fx
            },
            None => no_effects(),
        }
    }

    fn playlist_screen_key(&mut self, code: KeyCode, signed_in: bool) -> (fx: Vec<Effect>)
        requires
            old(self).wf(),
        ensures
            final(self).wf(),
            exists|stamp: Seq<char>| #[trigger]
                playlist_done(*old(self), *final(self), fx_view(fx@), code, signed_in, stamp),
    {
        let proposed: String = new_playlist_name();
        let ghost stamp = choose|stamp: Seq<char>| proposed@ == playlist_name_at(stamp);
        match self.playlist.take() {
            Some(p) => {
                let (left, view, fx): (Option<PlaylistPicker>, ViewMode, Vec<Effect>) =
                    playlist_key(p, code, signed_in, proposed.as_str());
                self.playlist = left;
                self.view = view;
                assert(playlist_done(*old(self), *self, fx_view(fx@), code, signed_in, stamp));
                fx
            },
            None => {
                let fx: Vec<Effect> = no_effects();
                assert(playlist_done(*old(self), *self, fx_view(fx@), code, signed_in, stamp));
                fx
            },
        }
    }

    fn playlist_name_screen_key(&mut self, code: KeyCode, signed_in: bool) -> (fx: Vec<Effect>)
        requires
            old(self).wf(),
        ensures
            final(self).wf(),
            match old(self).playlist {
                None => *final(self) == *old(self) && fx_view(fx@).len() == 0,
                Some(p) => *final(self) == (App {
                    playlist: final(self).playlist,
                    view: final(self).view,
                    ..*old(self)
                }) && (playlist_view(final(self).playlist), final(self).view, fx_view(fx@))
                    == playlist_name_step(p@, code, signed_in),
            },
    {
        match self.playlist.take() {
            Some(p) => {
                let (left, view, fx): (Option<PlaylistPicker>, ViewMode, Vec<Effect>) =
                    playlist_name_key(p, code, signed_in);
                self.playlist = left;
                self.view = view;
                fx
            },
            None => no_effects(),
        }
    }

    fn modal_key(&mut self, key: KeyEvent) -> (fx: Vec<Effect>)
        requires
            old(self).wf(),
        ensures
            final(self).wf(),
            old(self).midi_map is Some ==> *final(self) == (App {
                midi_map: final(self).midi_map,
                ..*old(self)
            }) && (midi_map_view(final(self).midi_map), fx_view(fx@)) == midi_map_step(
                old(self).midi_map->0@,
                key.code,
            ),
            old(self).midi_map is None && old(self).confirm is Some ==> *final(self) == (App {
                confirm: final(self).confirm,
                ..*old(self)
            }) && (final(self).confirm, fx_view(fx@)) == confirm_step(
                old(self).confirm->0,
                key.code,
            ),
    {
        match self.midi_map.take() {
            Some(m) => {
                let (left, fx): (Option<PendingMidiMap>, Vec<Effect>) = midi_map_key(m, key.code);
                self.midi_map = left;
                fx
            },
            None => {
                match self.confirm {
                    Some(c) => {
                        let (left, fx): (Option<ConfirmAction>, Vec<Effect>) = confirm_key(
                            c,
                            key.code,
                        );
                        self.confirm = left;
                        fx
                    },
                    None => no_effects(),
                }
            },
        }
    }

    fn line_key(&mut self, code: KeyCode) -> (fx: Vec<Effect>)
        requires
            old(self).wf(),
            old(self).prompt is Some,
        ensures
            final(self).wf(),
            *final(self) == (App { prompt: final(self).prompt, ..*old(self) }),
            opt_str(final(self).prompt) == prompt_step(old(self).prompt->0@, code).0,
            fx_view(fx@) == (match prompt_step(old(self).prompt->0@, code).1 {
                Some(line) => seq![EffectV::With(TextAct::Submit, line)],
                None => Seq::empty(),
            }),
    {
        match self.prompt.take() {
            Some(buf) => {
                let (left, line): (Option<String>, Option<String>) = prompt_key(buf, code);
                self.prompt = left;
                match line {
                    Some(l) => {
                        let mut fx: Vec<Effect> = no_effects();
                        crate::effects::add_text(&mut fx, TextAct::Submit, l.as_str());
                        assert(fx_view(fx@) =~= seq![EffectV::With(TextAct::Submit, l@)]);
                        fx
                    },
                    None => no_effects(),
                }
            },
            None => no_effects(),
        }
    }

    fn ask_line_key(&mut self, code: KeyCode) -> (fx: Vec<Effect>)
        requires
            old(self).wf(),
            old(self).ask is Some,
        ensures
            final(self).wf(),
            *final(self) == (App { ask: final(self).ask, ..*old(self) }),
            (opt_str(final(self).ask), fx_view(fx@)) == ask_step(old(self).ask->0@, code),
    {
        match self.ask.take() {
            Some(buf) => {
                let (left, fx): (Option<String>, Vec<Effect>) = ask_key(buf, code);
                self.ask = left;
                fx
            },
            None => no_effects(),
        }
    }

    fn mixer_screen_key(&mut self, code: KeyCode, info: &NowPlaying) -> (fx: Vec<Effect>)
        requires
            old(self).wf(),
        ensures
            final(self).wf(),
            ({
                let out = mixer_step(old(self).mixer, *info, code);
                *final(self) == (App {
                    mixer: out.state,
                    view: out.view,
                    confirm: if out.confirm is Some {
                        out.confirm
                    } else {
                        old(self).confirm
                    },
                    ..*old(self)
                }) && fx_view(fx@) == out.effects
            }),
    {
        let out: MixerOut = mixer_key(self.mixer, info, code);
        self.mixer = out.state;
        self.view = out.view;
        if out.confirm.is_some() {
            self.confirm = out.confirm;
        }
        out.effects
    }

    fn fav_picker_key(&mut self, code: KeyCode, info: &NowPlaying) -> (fx: Vec<Effect>)
        requires
            old(self).wf(),
        ensures
            final(self).wf(),
            *final(self) == (App {
                dash: crate::app::DashState {
                    fav_picker: final(self).dash.fav_picker,
                    ..old(self).dash
                },
                ..*old(self)
            }),
            (final(self).dash.fav_picker, fx_view(fx@)) == fav_step(
                code,
                info.deck_a.track is Some,
                info.deck_b.track is Some,
            ),
    {
        let (stays, fx): (bool, Vec<Effect>) = fav_key(
            code,
            info.deck_a.track.is_some(),
            info.deck_b.track.is_some(),
        );
        self.dash.fav_picker = stays;
        fx
    }

    fn search_screen_key(&mut self, code: KeyCode, signed_in: bool) -> (fx: Vec<Effect>)
        requires
            old(self).wf(),
        ensures
            final(self).wf(),
            *final(self) == (App {
                search: final(self).search,
                nav: old(self).with_selected(final(self).nav.cursor.selected),
                view: final(self).view,
                ..*old(self)
            }),
            (
                final(self).search@,
                final(self).nav.cursor.selected,
                final(self).view,
                fx_view(fx@),
            ) == search_step(old(self).search@, old(self).nav.cursor.selected, code, signed_in),
    {
        let (view, fx): (ViewMode, Vec<Effect>) = self.search.key(
            &mut self.nav.cursor.selected,
            code,
            signed_in,
        );
        self.view = view;
        fx
    }

    fn learn_screen_key(&mut self, code: KeyCode, env: &KeyEnv) -> (fx: Vec<Effect>)
        requires
            old(self).wf(),
        ensures
            final(self).wf(),
            *final(self) == (App {
                learn: final(self).learn,
                view: final(self).view,
                ..*old(self)
            }),
            (final(self).learn@, final(self).view, fx_view(fx@)) == learn_step(
                old(self).learn@,
                env.learn,
                code,
            ),
    {
        let (view, fx): (ViewMode, Vec<Effect>) = self.learn.key(&env.learn, code);
        self.view = view;
        fx
    }

    /// Handles a key.
    #[verifier::rlimit(60)]
    pub fn handle_key(
        &mut self,
        key: KeyEvent,
        env: &KeyEnv,
        info: &NowPlaying,
        defaults: RuleConfig,
    ) -> (fx: Vec<Effect>)
        requires
            old(self).wf(),
        ensures
            final(self).wf(),
            key_done(*old(self), *final(self), fx_view(fx@), key, *env, *info, defaults),
    {
        let code: KeyCode = key.code;
        proof {
            lemma_route(*self, key);
        }
        match self.route_key(&key) {
            Route::MidiMap | Route::Confirm => self.modal_key(key),
            Route::Palette => self.palette_key(key, env),
            Route::Prompt => self.line_key(code),
            Route::Resume => self.resume_reply(code),
            Route::Command(run) => self.run_command(run),
            Route::FavPicker => self.fav_picker_key(code, info),
            Route::Ask => self.ask_line_key(code),
            Route::Log => {
                self.dash.log_offset = if code == KeyCode::Up {
                    log_scroll_up(self.dash.log_offset)
                } else {
                    log_scroll_down(self.dash.log_offset)
                };
                no_effects()
            },
            Route::Filter => {
                self.nav.filter_key(code);
                no_effects()
            },
            Route::Help => {
                self.view = self.help.key(code);
                no_effects()
            },
            Route::Search => self.search_screen_key(code, env.signed_in),
            Route::PlaylistName => self.playlist_name_screen_key(code, env.signed_in),
            Route::Playlist => self.playlist_screen_key(code, env.signed_in),
            Route::Genre => self.genre_picker_key(code),
            Route::Settings => self.settings_screen_key(key, env),
            Route::Learn => self.learn_screen_key(code, env),
            Route::Mixer => self.mixer_screen_key(code, info),
            Route::Rules => self.rules_key(key, defaults),
            Route::Scroll => {
                scroll_nav(&mut self.nav);
                no_effects()
            },
        }
    }
}

} // verus!
