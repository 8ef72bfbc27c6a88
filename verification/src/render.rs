//! Drawing a frame.
use crate::app::App;
use crate::boxes::opt_str;
use crate::catalog::Items;
use crate::claude_screen::{entry_tag, render_claude_screen, tag_of, LogEntry};
use crate::clicks::{ClickAction, ClickTarget};
use crate::controls::DashFocus;
use crate::dashboard::{dashboard, dashboard_places, render_dashboard, DashView};
use crate::deck::NowPlaying;
use crate::frame::{
    back_place, browse_lines, draw_bars, draw_input, draw_menu, genre_names, input_line,
    learn_content, menu, picked_labels, picker_lines, playing_bars, playlist_names,
    push_list_row_targets, push_setting_targets, render_fav_picker, shown, starred_names, view_back,
    view_places, Content, ContentV, DrawEnv,
};
use crate::help::{max_scroll, render_help};
use crate::hints::{outer_title, position_text};
use crate::inputs::{HelpState, ViewMode};
use crate::key::KeyCode;
use crate::layout::{
    laid_out, on_screen, picker_area, picker_place, toast_area, toast_place, FrameLayout,
};
use crate::midi_learn::LearnScreen;
use crate::mixer::render_mixer_overlay;
use crate::nav::{lemma_passing, shown_items, titles};
use crate::panels::{Area, BrowsePanel};
use crate::screens::render_track_list;
use crate::settings::{build_settings, SettingItem};
use crate::settings_list::render_settings;
use crate::style::{lines_view, spans_view, Line, Span};
use crate::text::{clone_strs, concat2, concat3, joined, min_of, owned, strs};
use vstd::prelude::*;
use vstd::string::*;
use vstd::utf8::{encode_utf8, is_char_boundary};

verus! {

/// A message that can be cut for the dashboard.
pub open spec fn can_cut(message: Seq<char>) -> bool {
    encode_utf8(message).len() as usize > 80 ==> is_char_boundary(encode_utf8(message), 79)
}

/// A line of the DJ's log on the dashboard: the tag and the message, cut after
/// 79 bytes where it has more than 80.
pub open spec fn log_line(e: LogEntry, s: Seq<char>) -> bool {
    let tag = entry_tag(e.entry_type).0;
    if encode_utf8(e.message@).len() as usize > 80 {
        exists|cut: Seq<char>|
            #[trigger] encode_utf8(cut) == encode_utf8(e.message@).subrange(0, 79) && s == tag@
                + " "@ + (cut + "…"@)
    } else {
        s == tag@ + " "@ + e.message@
    }
}

fn log_str(e: &LogEntry) -> (s: String)
    requires
        can_cut(e.message@),
    ensures
        log_line(*e, s@),
{
    let tag: &str = tag_of(e.entry_type).0;
    let message: &str = e.message.as_str();
    if message.len() > 80 {
        let (head, _rest): (&str, &str) = message.split_at(79);
        assert(encode_utf8(head@) == encode_utf8(e.message@).subrange(0, 79));
        concat3(tag, " ", concat2(head, "…").as_str())
    } else {
        concat3(tag, " ", message)
    }
}

/// How many entries of the DJ's log the dashboard shows.
pub open spec fn log_kept(n: nat) -> nat {
    min_of(n as int, 4) as nat
}

/// The newest four entries of the DJ's log, oldest first.
pub fn recent_log(log: &Vec<LogEntry>) -> (v: Vec<String>)
    requires
        forall|i: int|
            log@.len() - log_kept(log@.len()) <= i < log@.len() ==> can_cut(
                (#[trigger] log@[i]).message@,
            ),
    ensures
        v@.len() == log_kept(log@.len()),
        forall|k: int|
            0 <= k < v@.len() ==> log_line(
                log@[log@.len() - v@.len() + k],
                (#[trigger] v@[k])@,
            ),
{
    let from: usize = if log.len() > 4 {
        log.len() - 4
    } else {
        0
    };
    let mut v: Vec<String> = Vec::new();
    let mut i: usize = from;
    while i < log.len()
        invariant
            from == log@.len() - log_kept(log@.len()),
            from <= i <= log@.len(),
            v@.len() == i - from,
            forall|i: int|
                log@.len() - log_kept(log@.len()) <= i < log@.len() ==> can_cut(
                    (#[trigger] log@[i]).message@,
                ),
            forall|k: int| 0 <= k < v@.len() ==> log_line(log@[from + k], (#[trigger] v@[k])@),
        decreases log.len() - i,
    {
        v.push(log_str(&log[i]));
        i += 1;
    }
    v
}

/// What is drawn in a frame.
pub struct Drawing {
    /// The title in the border of the view; the dashboard has no border.
    pub title: Option<String>,
    pub back: Option<Area>,
    pub content: Content,
    /// The question which deck to favour.
    pub picker: Option<(Area, Vec<Line>)>,
    pub bars: Vec<Span>,
    pub toast: Option<(Area, String)>,
    pub prompt: Option<(Area, String)>,
}

/// What the dashboard is given of the application.
pub open spec fn dash_view(a: App, env: DrawEnv, v: DashView) -> bool {
    let screen = a.nav@.screen();
    let n = min_of(screen.labels@.len() as int, 8);
    &&& v.mode == a.dash.waveform
    &&& strs(v.browse.items@) == strs(screen.labels@).take(n)
    &&& v.browse.breadcrumb@ == joined(titles(a.nav@.stack), " > "@)
    &&& v.browse.selected == a.nav.cursor.dash
    &&& v.browse.tracks == screen.items is Tracks
    &&& v.show_help == a.dash.help
    &&& v.section == (if a.dash.focus is Controller {
        Some(a.dash.section)
    } else {
        None
    })
    &&& v.download_in_flight == a.in_flight
    &&& strs(v.dj_log@) == strs(env.dj_log@)
    &&& opt_str(v.dj_ask) == opt_str(a.ask)
    &&& v.focus == a.dash.focus
    &&& v.log is Some == env.log is Some
    &&& v.log is Some ==> strs(v.log->0@) == strs(env.log->0@)
    &&& v.log_offset == a.dash.log_offset
    &&& v.zoom == a.dash.zoom
    &&& v.layout == a.config.dash_layout
    &&& v.panel == a.config.dash_panel_section
}

/// A frame as it is drawn: the view, the places on it, and what lies over it.
pub open spec fn drawn(
    a: App,
    l: FrameLayout,
    info: NowPlaying,
    env: DrawEnv,
    d: Drawing,
    places: Seq<ClickTarget>,
) -> bool {
    &&& if a.view is Dashboard {
        &&& d.title is None
        &&& d.back is None
        &&& exists|v: DashView| #[trigger]
            dash_view(a, env, v) && d.content@ == ContentV::Lines(dashboard(info, v, l.main))
                && places == dashboard_places(info, v, l.main)
    } else {
        &&& d.title is Some && d.title->0@ == outer_title(
            a.view,
            joined(titles(a.nav@.stack), " > "@),
            position_text(a.nav.cursor.selected, a.nav@.screen().labels@.len()),
            a.config.favorite_genres@.len(),
        )
        &&& d.back == back_place(l.main)
        &&& d.content@ == shown(a, l, info, env)
        &&& places == view_places(a, l, info, env)
    }
    &&& match d.picker {
        Some((at, lines)) => a.view is Dashboard && a.dash.fav_picker && at == picker_place(
            l.main,
            6,
        ) && lines_view(lines@) == picker_lines(info),
        None => !(a.view is Dashboard && a.dash.fav_picker),
    }
    &&& spans_view(d.bars@) == playing_bars(info)
    &&& match d.toast {
        Some((at, text)) => env.toast is Some && text@ == " "@ + env.toast->0@ + " "@ && at
            == toast_place(
            env.toast->0@,
            l.size,
            (l.playing_height + l.hints_height) as nat,
        ),
        None => env.toast is None,
    }
    &&& match d.prompt {
        Some((at, text)) => a.prompt is Some && text@ == ":"@ + a.prompt->0@ + "█"@ && at
            == prompt_place(l.size),
        None => a.prompt is None,
    }
}

/// The command prompt takes the last row.
pub open spec fn prompt_place(size: Area) -> Area {
    Area {
        x: 0,
        y: if size.height > 0 {
            (size.height - 1) as u16
        } else {
            0
        },
        width: size.width,
        height: 1,
    }
}

/// The scroll position of the help screen, held within it.
pub open spec fn help_scroll(a: App, height: int) -> int {
    min_of(
        a.help.scroll as int,
        max_scroll(crate::help::help_screen(a.help.filter@).len() as int, height),
    )
}

/// How many bindings the MIDI screen lists: none without a controller.
pub open spec fn listed(env: DrawEnv) -> nat {
    if env.has_midi {
        env.bindings@.len()
    } else {
        0
    }
}

impl App {
    fn render_browse(&self, l: &FrameLayout) -> (c: Content)
        requires
            self.wf(),
        ensures
            c@ == (if l.line is Some {
                ContentV::Beside(
                    menu(
                        crate::frame::labels_at(
                            self.nav@.screen().labels@,
                            shown_items(self.nav@),
                        ),
                        self.nav.cursor.selected as int,
                        self.nav.cursor.scroll as int,
                        l.list.height as int,
                    ),
                    input_line("  Filter: "@, self.nav@.filter, self.nav.filtering),
                )
            } else {
                ContentV::Lines(browse_lines(*self, l.list))
            }),
    {
        let screen = self.nav.current_screen();
        let selected: usize = self.nav.cursor.selected;
        let scroll: usize = self.nav.cursor.scroll;
        if l.line.is_some() {
            let at: Vec<usize> = self.nav.filtered_indices();
            let n: usize = screen.labels.len();
            assert forall|i: int| 0 <= i < at@.len() implies #[trigger] at@[i]
                < screen.labels@.len() by {
                lemma_passing(
                    screen.labels@,
                    self.nav@.filter,
                    n as nat,
                    i,
                );
            }
            let items: Vec<String> = picked_labels(&screen.labels, &at);
            let lines: Vec<Line> = draw_menu(&items, selected, scroll, l.list.height);
            let line: Line = draw_input(
                "  Filter: ",
                self.nav.filter.as_str(),
                self.nav.filtering,
            );
            return Content::Beside(lines, line);
        }
        match &screen.items {
            Items::Tracks(v) => Content::Lines(
                render_track_list(
                    l.list.width,
                    l.list.height,
                    v,
                    selected,
                    scroll,
                    self.nav.cursor.column,
                    self.config.compact_view,
                ),
            ),
            Items::Genres(v) => {
                let items: Vec<String> = starred_names(v, &self.config.favorite_genres);
                Content::Lines(draw_menu(&items, selected, scroll, l.list.height))
            },
            _ => Content::Lines(draw_menu(&screen.labels, selected, scroll, l.list.height)),
        }
    }

    fn learn_screen(&self, env: &DrawEnv) -> (c: Content)
        ensures
            c@ == learn_content(*self, *env),
    {
        let none: Vec<(String, String)> = Vec::new();
        assert(none@ =~= Seq::empty());
        let nothing: Option<String> = None;
        let s: LearnScreen = if !env.has_midi {
            crate::midi_learn::render(&nothing, None, self.learn.selected, &env.actions, &none)
        } else if self.learn.captured.is_some() {
            crate::midi_learn::render(
                &self.learn.captured,
                env.value,
                self.learn.selected,
                &env.actions,
                &env.bindings,
            )
        } else {
            crate::midi_learn::render(
                &env.latest,
                env.value,
                self.learn.selected,
                &env.actions,
                &env.bindings,
            )
        };
        Content::Learn(s)
    }

    fn picker_content(&self, height: u16) -> (lines: Vec<Line>)
        ensures
            lines_view(lines@) == (match self.genre {
                Some(p) => menu(
                    Seq::new(
                        p.genres@.len(),
                        |i: int|
                            crate::frame::genre_item(
                                p.genres@[i].name@,
                                strs(self.config.favorite_genres@),
                                self.view is FavoritesPicker,
                            ),
                    ),
                    p.selected as int,
                    p.scroll as int,
                    height as int,
                ),
                None => Seq::empty(),
            }),
    {
        match &self.genre {
            Some(p) => {
                let items: Vec<String> = genre_names(
                    &p.genres,
                    &self.config.favorite_genres,
                    self.view == ViewMode::FavoritesPicker,
                );
                draw_menu(&items, p.selected, p.scroll, height)
            },
            None => {
                let lines: Vec<Line> = Vec::new();
                assert(lines_view(lines@) =~= Seq::empty());
                lines
            },
        }
    }

    /// What a view but the dashboard and the help screen shows.
    fn view_content(&self, l: &FrameLayout, info: &NowPlaying, env: &DrawEnv) -> (c: Content)
        requires
            self.wf(),
            !(self.view is Dashboard),
            !(self.view is Help),
        ensures
            c@ == shown(*self, *l, *info, *env),
    {
        let selected: usize = self.nav.cursor.selected;
        let scroll: usize = self.nav.cursor.scroll;
        let inside: Area = l.content;
        let empty: Vec<Line> = Vec::new();
        assert(lines_view(empty@) =~= Seq::empty());
        match self.view {
            ViewMode::Mixer => Content::Lines(
                render_mixer_overlay(info, self.mixer.deck_is_a, self.mixer.row),
            ),
            ViewMode::TransitionRules => match &self.rules {
                Some(e) => Content::Lines(crate::rules_view::render(e, &env.curves)),
                None => Content::Lines(empty),
            },
            ViewMode::MidiLearn => self.learn_screen(env),
            ViewMode::PlaylistPicker => match &self.playlist {
                Some(p) => {
                    let items: Vec<String> = playlist_names(&p.playlists);
                    Content::Lines(draw_menu(&items, p.selected, 0, inside.height))
                },
                None => Content::Lines(empty),
            },
            ViewMode::PlaylistNameInput => match &self.playlist {
                Some(p) => {
                    let line: Line = draw_input("Name: ", p.new_name.as_str(), true);
                    let lines: Vec<Line> = vec![line];
                    assert(lines_view(lines@) =~= seq![
                        input_line("Name: "@, p.new_name@, true),
                    ]);
                    Content::Lines(lines)
                },
                None => Content::Lines(empty),
            },
            ViewMode::Settings => Content::Lines(
                render_settings(
                    inside.width as usize,
                    inside.height as usize,
                    &self.config,
                    &env.settings,
                    selected,
                    &self.editing,
                ),
            ),
            ViewMode::GenrePicker | ViewMode::FavoritesPicker => Content::Lines(
                self.picker_content(inside.height),
            ),
            ViewMode::Queue => Content::Lines(
                render_track_list(
                    inside.width,
                    inside.height,
                    &info.queue,
                    selected,
                    scroll,
                    -1,
                    true,
                ),
            ),
            ViewMode::History => Content::Lines(
                render_track_list(
                    inside.width,
                    inside.height,
                    &env.history,
                    selected,
                    scroll,
                    -1,
                    true,
                ),
            ),
            ViewMode::Search => {
                let line: Line = draw_input("  Search: ", self.search.query.as_str(), true);
                if env.results.len() > 0 {
                    let lines: Vec<Line> = render_track_list(
                        l.list.width,
                        l.list.height,
                        &env.results,
                        selected,
                        scroll,
                        -1,
                        self.config.compact_view,
                    );
                    Content::Beside(lines, line)
                } else {
                    Content::Beside(empty, line)
                }
            },
            ViewMode::Browse => self.render_browse(l),
            ViewMode::ClaudeDj => Content::Lines(render_claude_screen(&env.dj, scroll)),
            _ => Content::Lines(empty),
        }
    }

    fn view_targets(&self, l: &FrameLayout, info: &NowPlaying, env: &DrawEnv) -> (v: Vec<
        ClickTarget,
    >)
        requires
            self.wf(),
            on_screen(l.main),
            on_screen(l.content),
        ensures
            v@ == view_places(*self, *l, *info, *env),
    {
        let mut v: Vec<ClickTarget> = Vec::new();
        if let Some(b) = back_area(l.main) {
            v.push(
                ClickTarget::new(b.x, b.y, b.width, 1, ClickAction::SimulateKey(KeyCode::Esc)).labeled(
                    "back_button",
                ),
            );
        }
        let ghost back = v@;
        assert(back =~= view_back(l.main));
        let scroll: usize = self.nav.cursor.scroll;
        match self.view {
            ViewMode::Settings => {
                let items: Vec<SettingItem> = build_settings(&self.config, &env.settings);
                push_setting_targets(&mut v, &items, l.content);
            },
            ViewMode::Queue => {
                push_list_row_targets(&mut v, l.content, info.queue.len(), scroll);
            },
            ViewMode::History => {
                push_list_row_targets(&mut v, l.content, env.history.len(), scroll);
            },
            ViewMode::Browse => {
                let n: usize = self.nav.current_screen().item_count();
                push_list_row_targets(&mut v, l.content, n, scroll);
            },
            _ => {
                assert(back =~= back + Seq::<ClickTarget>::empty());
            },
        }
        v
    }

    /// The first labels of the current screen, `n` of them at most.
    pub fn first_labels(&self, n: usize) -> (items: Vec<String>)
        requires
            self.wf(),
        ensures
            strs(items@) == strs(self.nav@.screen().labels@).take(
                min_of(self.nav@.screen().labels@.len() as int, n as int),
            ),
    {
        let screen = self.nav.current_screen();
        let mut items: Vec<String> = Vec::new();
        let ghost labels = strs(screen.labels@);
        let mut i: usize = 0;
        while i < screen.labels.len() && i < n
            invariant
                i <= screen.labels@.len(),
                i <= n,
                labels == strs(screen.labels@),
                strs(items@) == labels.take(i as int),
            decreases screen.labels.len() - i,
        {
            let ghost before = strs(items@);
            items.push(screen.labels[i].clone());
            i += 1;
            assert(strs(items@) =~= before.push(labels[i - 1]));
            assert(labels.take(i as int) =~= labels.take(i - 1).push(labels[i - 1]));
        }
        items
    }

    /// What the dashboard is given to show.
    fn dashboard_view(&self, env: &DrawEnv) -> (v: DashView)
        requires
            self.wf(),
        ensures
            dash_view(*self, *env, v),
    {
        let screen = self.nav.current_screen();
        let items: Vec<String> = self.first_labels(8);
        let tracks: bool = screen.tracks().is_some();
        let ask: Option<String> = match &self.ask {
            Some(s) => Some(owned(s.as_str())),
            None => None,
        };
        let log: Option<Vec<String>> = match &env.log {
            Some(v) => Some(clone_strs(v)),
            None => None,
        };
        DashView {
            mode: self.dash.waveform,
            browse: BrowsePanel {
                items,
                breadcrumb: self.nav.breadcrumb(),
                selected: self.nav.cursor.dash,
                tracks,
            },
            show_help: self.dash.help,
            section: if self.dash.focus == DashFocus::Controller {
                Some(self.dash.section)
            } else {
                None
            },
            download_in_flight: self.in_flight,
            dj_log: clone_strs(&env.dj_log),
            dj_ask: ask,
            focus: self.dash.focus,
            log,
            log_offset: self.dash.log_offset,
            zoom: self.dash.zoom,
            layout: self.config.dash_layout,
            panel: self.config.dash_panel_section,
        }
    }

    /// Draws a frame that is laid out. The places on it replace those of the
    /// frame before, and the help screen is scrolled no further than its end.
    pub fn draw(&mut self, l: &FrameLayout, info: &NowPlaying, env: &DrawEnv) -> (d: Drawing)
        requires
            old(self).wf(),
            on_screen(l.main),
            on_screen(l.content),
            l.playing_height <= 2,
            l.hints_height <= 2,
        ensures
            drawn(*old(self), *l, *info, *env, d, final(self).targets@),
            *final(self) == (App {
                targets: final(self).targets,
                help: final(self).help,
                ..*old(self)
            }),
            final(self).help == (HelpState {
                scroll: final(self).help.scroll,
                ..old(self).help
            }),
            final(self).help.scroll == (if old(self).view is Help {
                help_scroll(*old(self), l.content.height as int)
            } else {
                old(self).help.scroll as int
            }),
    {
        let ghost start = *self;
        let mut title: Option<String> = None;
        let mut back: Option<Area> = None;
        let content: Content;
        if self.view == ViewMode::Dashboard {
            let v: DashView = self.dashboard_view(env);
            let (lines, places): (Vec<Line>, Vec<ClickTarget>) = render_dashboard(l.main, info, &v);
            self.targets = places;
            content = Content::Lines(lines);
            assert(dash_view(start, *env, v));
        } else {
            title = Some(self.screen_title());
            back = back_area(l.main);
            let places: Vec<ClickTarget> = self.view_targets(l, info, env);
            if self.view == ViewMode::Help {
                let mut scroll: u16 = self.help.scroll;
                let lines: Vec<Line> = render_help(
                    l.content.height,
                    self.help.filter.as_str(),
                    &mut scroll,
                );
                assert(lines@.len() == lines_view(lines@).len());
                self.help.scroll = scroll;
                content = Content::Lines(lines);
            } else {
                content = self.view_content(l, info, env);
            }
            self.targets = places;
        }
        let picker: Option<(Area, Vec<Line>)> = if self.view == ViewMode::Dashboard
            && self.dash.fav_picker {
            Some((picker_area(l.main, 6), render_fav_picker(info)))
        } else {
            None
        };
        let bars: Vec<Span> = draw_bars(info);
        let toast: Option<(Area, String)> = match &env.toast {
            Some(text) => Some(
                (
                    toast_area(text.as_str(), l.size, l.playing_height + l.hints_height),
                    concat3(" ", text.as_str(), " "),
                ),
            ),
            None => None,
        };
        let prompt: Option<(Area, String)> = match &self.prompt {
            Some(text) => Some((prompt_area(l.size), concat3(":", text.as_str(), "█"))),
            None => None,
        };
        Drawing { title, back, content, picker, bars, toast, prompt }
    }

    /// Lays a frame out on a screen and draws it.
    pub fn render(&mut self, area: Area, native: bool, info: &NowPlaying, env: &DrawEnv) -> (r: (
        FrameLayout,
        Drawing,
    ))
        requires
            old(self).wf(),
            on_screen(area),
            native ==> area.x < u16::MAX,
        ensures
            laid_out(*old(self), area, native, *info, listed(*env), r.0),
            drawn(*old(self), r.0, *info, *env, r.1, final(self).targets@),
            *final(self) == (App {
                targets: final(self).targets,
                help: final(self).help,
                ..*old(self)
            }),
            final(self).help == (HelpState {
                scroll: final(self).help.scroll,
                ..old(self).help
            }),
            final(self).help.scroll == (if old(self).view is Help {
                help_scroll(*old(self), r.0.content.height as int)
            } else {
                old(self).help.scroll as int
            }),
            final(self).wf(),
    {
        let bindings: usize = if env.has_midi {
            env.bindings.len()
        } else {
            0
        };
        let l: FrameLayout = self.lay_out(area, native, info, bindings);
        let d: Drawing = self.draw(&l, info, env);
        (l, d)
    }
}

fn back_area(main: Area) -> (r: Option<Area>)
    requires
        on_screen(main),
    ensures
        r == back_place(main),
{
    if main.width > 14 {
        Some(Area { x: main.x + (main.width - 11), y: main.y, width: 10, height: 1 })
    } else {
        None
    }
}

fn prompt_area(size: Area) -> (a: Area)
    ensures
        a == prompt_place(size),
{
    Area {
        x: 0,
        y: if size.height > 0 {
            size.height - 1
        } else {
            0
        },
        width: size.width,
        height: 1,
    }
}

} // verus!
