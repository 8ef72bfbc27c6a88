//! What a frame of the screen shows, and what can be clicked on it.
use crate::actions::{favorite, is_favorite};
use crate::app::App;
use crate::boxes::opt_str;
use crate::catalog::{Genre, Items};
use crate::claude_screen::{dj_lines, DjState};
use crate::clicks::{hit, ClickAction, ClickTarget};
use crate::deck::NowPlaying;
use crate::help::help_screen;
use crate::inputs::ViewMode;
use crate::key::KeyCode;
use crate::layout::{on_screen, FrameLayout};
use crate::midi_learn::{
    action_line, binding_lines, bound_among, captured_lines, ActionRow, LearnScreen,
};
use crate::mixer::mixer_overlay;
use crate::nav::shown_items;
use crate::panels::Area;
use crate::rules_editor::ModeV;
use crate::rules_view::{curves_view, edit_lines, list_lines};
use crate::screens::{menu_line, now_playing, render_menu, render_now_playing, track_list, visible};
use crate::settings::{items_view, setting_items, ItemV, SettingItem, SettingsEnv};
use crate::settings_list::{focusable, opt_view, settings_window};
use crate::style::{
    add_line, add_span, add_text_line, lines_view, span, spans_view, Color, Line, Span, SpanV,
    Style,
};
use crate::text::{
    concat2, concat3, decimal, max_of, min_of, minus, owned, round_div, rounded_div, str_eq, strs,
    wide_decimal_str,
};
use crate::track::{bpm_whole, bpm_whole_str, track_name, Named, Track};
use vstd::prelude::*;
use vstd::string::*;

verus! {

/// What a frame shows besides the state of the application and of the engine.
pub struct DrawEnv {
    pub settings: SettingsEnv,
    pub dj: DjState,
    /// The newest lines of the DJ's log, for the dashboard.
    pub dj_log: Vec<String>,
    /// The messages of the application's log, where there is one.
    pub log: Option<Vec<String>>,
    /// The tracks played so far.
    pub history: Vec<Track>,
    /// The tracks found by the search.
    pub results: Vec<Track>,
    /// The curves of the transition that the rule editor previews.
    pub curves: Option<(String, String)>,
    /// A MIDI listener is running; the last event it saw, and its value.
    pub has_midi: bool,
    pub latest: Option<String>,
    pub value: Option<u32>,
    pub actions: Vec<ActionRow>,
    pub bindings: Vec<(String, String)>,
    pub toast: Option<String>,
}

/// What the view shows.
pub enum Content {
    Lines(Vec<Line>),
    /// A list, and the line of input beside it.
    Beside(Vec<Line>, Line),
    Learn(LearnScreen),
}

#[verifier::ext_equal]
pub enum ContentV {
    Lines(Seq<Seq<SpanV>>),
    Beside(Seq<Seq<SpanV>>, Seq<SpanV>),
    Learn {
        captured: Seq<Seq<SpanV>>,
        actions: Seq<Seq<SpanV>>,
        bindings: Seq<Seq<SpanV>>,
        cursor: int,
    },
}

impl View for Content {
    type V = ContentV;

    open spec fn view(&self) -> ContentV {
        match *self {
            Content::Lines(v) => ContentV::Lines(lines_view(v@)),
            Content::Beside(v, l) => ContentV::Beside(lines_view(v@), l@),
            Content::Learn(s) => ContentV::Learn {
                captured: lines_view(s.captured@),
                actions: lines_view(s.actions@),
                bindings: lines_view(s.bindings@),
                cursor: s.cursor as int,
            },
        }
    }
}

/// A menu of texts.
pub open spec fn menu(items: Seq<Seq<char>>, selected: int, scroll: int, height: int) -> Seq<
    Seq<SpanV>,
> {
    Seq::new(
        visible(items.len() as int, scroll, height),
        |k: int| menu_line(items[scroll + k], scroll + k == selected),
    )
}

pub(crate) fn draw_menu(items: &Vec<String>, selected: usize, scroll: usize, height: u16) -> (lines: Vec<Line>)
    ensures
        lines_view(lines@) == menu(
            strs(items@),
            selected as int,
            scroll as int,
            height as int,
        ),
{
    let lines: Vec<Line> = render_menu(height, items, selected, scroll);
    assert(lines_view(lines@) == menu(strs(items@), selected as int, scroll as int, height as int));
    lines
}

/// A line of input: what it asks for, what is typed, and the cursor.
pub open spec fn input_line(prompt: Seq<char>, typed: Seq<char>, cursor: bool) -> Seq<SpanV> {
    seq![
        span(prompt, Style::of(Color::Yellow)),
        span(typed, Style::plain()),
        span(
            if cursor {
                "█"@
            } else {
                ""@
            },
            Style::of(Color::White),
        ),
    ]
}

pub(crate) fn draw_input(prompt: &str, typed: &str, cursor: bool) -> (l: Line)
    ensures
        l@ == input_line(prompt@, typed@, cursor),
{
    let mut spans: Vec<Span> = Vec::new();
    add_span(&mut spans, prompt, Style::of(Color::Yellow));
    add_span(&mut spans, typed, Style::plain());
    add_span(
        &mut spans,
        if cursor {
            "█"
        } else {
            ""
        },
        Style::of(Color::White),
    );
    assert(spans_view(spans@) == input_line(prompt@, typed@, cursor));
    Line { spans }
}

/// The entries of the playlist picker.
pub open spec fn playlist_items(playlists: Seq<Named>) -> Seq<Seq<char>> {
    seq!["+ Create New Playlist..."@] + Seq::new(playlists.len(), |i: int| playlists[i].name@)
}

pub(crate) fn playlist_names(playlists: &Vec<Named>) -> (v: Vec<String>)
    ensures
        strs(v@) == playlist_items(playlists@),
{
    let mut v: Vec<String> = Vec::new();
    v.push(owned("+ Create New Playlist..."));
    let ghost all = playlist_items(playlists@);
    let mut i: usize = 0;
    while i < playlists.len()
        invariant
            i <= playlists.len(),
            all == playlist_items(playlists@),
            v@.len() == i + 1,
            forall|k: int| 0 <= k <= i ==> (#[trigger] v@[k])@ == all[k],
        decreases playlists.len() - i,
    {
        v.push(playlists[i].name.clone());
        i += 1;
    }
    assert(strs(v@) == all);
    v
}

/// An entry of the genre pickers: among the favourites with its mark.
pub open spec fn genre_item(name: Seq<char>, favorites: Seq<Seq<char>>, marks: bool) -> Seq<char> {
    if marks {
        (if favorites.contains(name) {
            "★"@
        } else {
            "·"@
        }) + " "@ + name
    } else {
        name
    }
}

fn stands_among(name: &str, names: &Vec<String>) -> (b: bool)
    ensures
        b == strs(names@).contains(name@),
{
    let mut i: usize = 0;
    while i < names.len()
        invariant
            i <= names.len(),
            forall|k: int| 0 <= k < i ==> (#[trigger] names@[k])@ != name@,
        decreases names.len() - i,
    {
        if str_eq(names[i].as_str(), name) {
            assert(strs(names@)[i as int] == name@);
            return true;
        }
        i += 1;
    }
    assert(!strs(names@).contains(name@)) by {
        if strs(names@).contains(name@) {
            let k = choose|k: int| 0 <= k < strs(names@).len() && strs(names@)[k] == name@;
            assert(names@[k]@ == name@);
        }
    }
    false
}

pub(crate) fn genre_names(genres: &Vec<Genre>, favorites: &Vec<String>, marks: bool) -> (v: Vec<String>)
    ensures
        strs(v@) == Seq::new(
            genres@.len(),
            |i: int| genre_item(genres@[i].name@, strs(favorites@), marks),
        ),
{
    let mut v: Vec<String> = Vec::new();
    let mut i: usize = 0;
    while i < genres.len()
        invariant
            i <= genres.len(),
            v@.len() == i,
            forall|k: int|
                0 <= k < i ==> (#[trigger] v@[k])@ == genre_item(
                    genres@[k].name@,
                    strs(favorites@),
                    marks,
                ),
        decreases genres.len() - i,
    {
        let name: &str = genres[i].name.as_str();
        if marks {
            let mark: &str = if stands_among(name, favorites) {
                "★"
            } else {
                "·"
            };
            v.push(concat3(mark, " ", name));
        } else {
            v.push(owned(name));
        }
        i += 1;
    }
    assert(strs(v@) == Seq::new(
        genres@.len(),
        |i: int| genre_item(genres@[i].name@, strs(favorites@), marks),
    ));
    v
}

/// An entry of a list of genres: favourites carry a star.
pub open spec fn starred(name: Seq<char>, favorites: Seq<String>) -> Seq<char> {
    if is_favorite(name, favorites) {
        name + " ★"@
    } else {
        name
    }
}

pub(crate) fn starred_names(genres: &Vec<Genre>, favorites: &Vec<String>) -> (v: Vec<String>)
    ensures
        strs(v@) == Seq::new(genres@.len(), |i: int| starred(genres@[i].name@, favorites@)),
{
    let mut v: Vec<String> = Vec::new();
    let mut i: usize = 0;
    while i < genres.len()
        invariant
            i <= genres.len(),
            v@.len() == i,
            forall|k: int|
                0 <= k < i ==> (#[trigger] v@[k])@ == starred(genres@[k].name@, favorites@),
        decreases genres.len() - i,
    {
        let name: &str = genres[i].name.as_str();
        if favorite(name, favorites) {
            v.push(concat2(name, " ★"));
        } else {
            v.push(owned(name));
        }
        i += 1;
    }
    assert(strs(v@) == Seq::new(genres@.len(), |i: int| starred(genres@[i].name@, favorites@)));
    v
}

/// The labels of the items at some places.
pub open spec fn labels_at(labels: Seq<String>, at: Seq<usize>) -> Seq<Seq<char>> {
    Seq::new(at.len(), |i: int| labels[at[i] as int]@)
}

pub(crate) fn picked_labels(labels: &Vec<String>, at: &Vec<usize>) -> (v: Vec<String>)
    requires
        forall|i: int| 0 <= i < at@.len() ==> #[trigger] at@[i] < labels@.len(),
    ensures
        strs(v@) == labels_at(labels@, at@),
{
    let mut v: Vec<String> = Vec::new();
    let mut i: usize = 0;
    while i < at.len()
        invariant
            i <= at.len(),
            v@.len() == i,
            forall|i: int| 0 <= i < at@.len() ==> #[trigger] at@[i] < labels@.len(),
            forall|k: int| 0 <= k < i ==> (#[trigger] v@[k])@ == labels@[at@[k] as int]@,
        decreases at.len() - i,
    {
        v.push(labels[at[i]].clone());
        i += 1;
    }
    assert(strs(v@) == labels_at(labels@, at@));
    v
}

/// The browser without a filter.
pub open spec fn browse_lines(a: App, area: Area) -> Seq<Seq<SpanV>> {
    let c = a.nav.cursor;
    let screen = a.nav@.screen();
    match screen.items {
        Items::Tracks(v) => track_list(
            v@,
            c.selected as int,
            c.scroll as int,
            c.column,
            a.config.compact_view,
            area.width as int,
            area.height as int,
        ),
        Items::Genres(v) => menu(
            Seq::new(v@.len(), |i: int| starred(v@[i].name@, a.config.favorite_genres@)),
            c.selected as int,
            c.scroll as int,
            area.height as int,
        ),
        _ => menu(
            strs(screen.labels@),
            c.selected as int,
            c.scroll as int,
            area.height as int,
        ),
    }
}

/// What the MIDI screen shows; nothing of an event or a binding without a
/// listener.
pub open spec fn learn_content(a: App, env: DrawEnv) -> ContentV {
    let captured = if !env.has_midi {
        None
    } else if a.learn.captured is Some {
        opt_str(a.learn.captured)
    } else {
        opt_str(env.latest)
    };
    let value = match env.value {
        Some(v) => if env.has_midi {
            v
        } else {
            0
        },
        None => 0,
    };
    let rows = env.actions@;
    ContentV::Learn {
        captured: captured_lines(captured, value, bound_among(rows, rows.len()), rows.len()),
        actions: Seq::new(rows.len(), |i: int| action_line(rows[i])),
        bindings: binding_lines(
            if env.has_midi {
                env.bindings@
            } else {
                Seq::empty()
            },
        ),
        cursor: min_of(a.learn.selected as int, max_of(rows.len() - 1, 0)),
    }
}

/// What a view but the dashboard shows.
pub open spec fn shown(a: App, l: FrameLayout, info: NowPlaying, env: DrawEnv) -> ContentV {
    let c = a.nav.cursor;
    let inside = l.content;
    match a.view {
        ViewMode::Dashboard => ContentV::Lines(Seq::empty()),
        ViewMode::Help => ContentV::Lines(help_screen(a.help.filter@)),
        ViewMode::Mixer => ContentV::Lines(mixer_overlay(info, a.mixer.deck_is_a, a.mixer.row)),
        ViewMode::TransitionRules => ContentV::Lines(
            match a.rules {
                Some(e) => match e@.mode {
                    ModeV::List => list_lines(e@),
                    ModeV::Edit(s) => edit_lines(s, curves_view(env.curves)),
                },
                None => Seq::empty(),
            },
        ),
        ViewMode::MidiLearn => learn_content(a, env),
        ViewMode::PlaylistPicker => ContentV::Lines(
            match a.playlist {
                Some(p) => menu(
                    playlist_items(p.playlists@),
                    p.selected as int,
                    0,
                    inside.height as int,
                ),
                None => Seq::empty(),
            },
        ),
        ViewMode::PlaylistNameInput => ContentV::Lines(
            match a.playlist {
                Some(p) => seq![input_line("Name: "@, p.new_name@, true)],
                None => Seq::empty(),
            },
        ),
        ViewMode::Settings => ContentV::Lines(
            settings_window(
                setting_items(a.config, env.settings),
                c.selected as nat,
                opt_view(a.editing),
                inside.width as nat,
                inside.height as nat,
            ),
        ),
        ViewMode::GenrePicker | ViewMode::FavoritesPicker => ContentV::Lines(
            match a.genre {
                Some(p) => menu(
                    Seq::new(
                        p.genres@.len(),
                        |i: int|
                            genre_item(
                                p.genres@[i].name@,
                                strs(a.config.favorite_genres@),
                                a.view is FavoritesPicker,
                            ),
                    ),
                    p.selected as int,
                    p.scroll as int,
                    inside.height as int,
                ),
                None => Seq::empty(),
            },
        ),
        ViewMode::Queue => ContentV::Lines(
            track_list(
                info.queue@,
                c.selected as int,
                c.scroll as int,
                (-1) as i32,
                true,
                inside.width as int,
                inside.height as int,
            ),
        ),
        ViewMode::History => ContentV::Lines(
            track_list(
                env.history@,
                c.selected as int,
                c.scroll as int,
                (-1) as i32,
                true,
                inside.width as int,
                inside.height as int,
            ),
        ),
        ViewMode::Search => ContentV::Beside(
            if env.results@.len() > 0 {
                track_list(
                    env.results@,
                    c.selected as int,
                    c.scroll as int,
                    (-1) as i32,
                    a.config.compact_view,
                    l.list.width as int,
                    l.list.height as int,
                )
            } else {
                Seq::empty()
            },
            input_line("  Search: "@, a.search.query@, true),
        ),
        ViewMode::Browse => if l.line is Some {
            ContentV::Beside(
                menu(
                    labels_at(a.nav@.screen().labels@, shown_items(a.nav@)),
                    c.selected as int,
                    c.scroll as int,
                    l.list.height as int,
                ),
                input_line("  Filter: "@, a.nav@.filter, a.nav.filtering),
            )
        } else {
            ContentV::Lines(browse_lines(a, l.list))
        },
        ViewMode::ClaudeDj => ContentV::Lines(dj_lines(env.dj, c.scroll as int)),
    }
}

/// The places of the rows of a list, from the row scrolled to on.
pub open spec fn row_places(area: Area, count: nat, scroll: nat) -> Seq<ClickTarget> {
    Seq::new(
        min_of(area.height as int, minus(count as int, scroll as int) as int) as nat,
        |k: int|
            ClickTarget::new(
                area.x,
                (area.y + k) as u16,
                area.width,
                1,
                ClickAction::SetSelected((scroll + k) as usize),
            ),
    )
}

pub(crate) fn push_list_row_targets(targets: &mut Vec<ClickTarget>, area: Area, count: usize, scroll: usize)
    requires
        on_screen(area),
    ensures
        final(targets)@ == old(targets)@ + row_places(area, count as nat, scroll as nat),
{
    let ghost before = targets@;
    let ghost all = row_places(area, count as nat, scroll as nat);
    let mut k: u16 = 0;
    assert(before + all.take(0) =~= before);
    while k < area.height && scroll < count && (k as usize) < count - scroll
        invariant
            on_screen(area),
            k <= all.len(),
            all == row_places(area, count as nat, scroll as nat),
            targets@ == before + all.take(k as int),
        decreases area.height - k,
    {
        targets.push(
            ClickTarget::new(
                area.x,
                area.y + k,
                area.width,
                1,
                ClickAction::SetSelected(scroll + k as usize),
            ),
        );
        k += 1;
        assert(before + all.take(k as int) =~= (before + all.take(k - 1)).push(all[k - 1]));
    }
    assert(all.take(k as int) =~= all);
}

/// Every visible row of a list can be clicked, anywhere along it.
pub proof fn every_row_is_clickable(area: Area, count: nat, scroll: nat, k: int, col: int)
    requires
        on_screen(area),
        count <= usize::MAX,
        0 <= k < area.height,
        scroll + k < count,
        area.x <= col < area.x + area.width,
    ensures
        hit(row_places(area, count, scroll), col, area.y + k) == Some(
            ClickTarget::new(
                area.x,
                (area.y + k) as u16,
                area.width,
                1,
                ClickAction::SetSelected((scroll + k) as usize),
            ),
        ),
{
    let all = row_places(area, count, scroll);
    lemma_hit_row(area, count, scroll, k, col, all.len() as int);
    assert(all.take(all.len() as int) =~= all);
}

proof fn lemma_hit_row(area: Area, count: nat, scroll: nat, k: int, col: int, n: int)
    requires
        on_screen(area),
        count <= usize::MAX,
        0 <= k < n <= row_places(area, count, scroll).len(),
        area.x <= col < area.x + area.width,
    ensures
        hit(row_places(area, count, scroll).take(n), col, area.y + k) == Some(
            row_places(area, count, scroll)[k],
        ),
    decreases n,
{
    let all = row_places(area, count, scroll);
    let some = all.take(n);
    assert(some.last() == all[n - 1]);
    if k < n - 1 {
        assert(some.drop_last() =~= all.take(n - 1));
        lemma_hit_row(area, count, scroll, k, col, n - 1);
    }
}

/// The places of the settings that are chosen from options, as far as they lie
/// in the area. Text settings have none, but count as rows.
pub open spec fn setting_places(items: Seq<ItemV>, area: Area) -> Seq<ClickTarget>
    decreases items.len(),
{
    if items.len() == 0 {
        Seq::empty()
    } else {
        let before = setting_places(items.drop_last(), area);
        let line = items.len() - 1;
        if !(items.last() is Row) || line >= area.height {
            before
        } else {
            before.push(
                ClickTarget::new(
                    area.x,
                    (area.y + line) as u16,
                    area.width,
                    1,
                    ClickAction::SetSelected(focusable(items.drop_last()).len() as usize),
                ),
            )
        }
    }
}

pub(crate) fn push_setting_targets(targets: &mut Vec<ClickTarget>, items: &Vec<SettingItem>, area: Area)
    requires
        on_screen(area),
    ensures
        final(targets)@ == old(targets)@ + setting_places(items_view(items@), area),
{
    let ghost before = targets@;
    let ghost all = items_view(items@);
    let mut row: usize = 0;
    let mut i: usize = 0;
    assert(all.take(0) =~= Seq::<ItemV>::empty());
    assert(before + setting_places(all.take(0), area) =~= before);
    while i < items.len()
        invariant
            on_screen(area),
            i <= items.len(),
            all == items_view(items@),
            row <= i,
            row == focusable(all.take(i as int)).len(),
            targets@ == before + setting_places(all.take(i as int), area),
        decreases items.len() - i,
    {
        assert(all.take(i + 1).drop_last() =~= all.take(i as int));
        assert(all.take(i + 1).last() == items@[i as int]@);
        let ghost at = targets@;
        let header: bool = match &items[i] {
            SettingItem::Section(_) => true,
            _ => false,
        };
        let choice: bool = match &items[i] {
            SettingItem::Row(_) => true,
            _ => false,
        };
        if !header {
            if choice && i < area.height as usize {
                targets.push(
                    ClickTarget::new(
                        area.x,
                        area.y + i as u16,
                        area.width,
                        1,
                        ClickAction::SetSelected(row),
                    ),
                );
            }
            row += 1;
        }
        i += 1;
        assert(targets@ =~= before + setting_places(all.take(i as int), area));
    }
    assert(all.take(i as int) =~= all);
}

/// Where the button that goes back lies: in the top border, where it is wide
/// enough.
pub open spec fn back_place(main: Area) -> Option<Area> {
    if main.width > 14 {
        Some(Area { x: (main.x + main.width - 11) as u16, y: main.y, width: 10, height: 1 })
    } else {
        None
    }
}

/// The text of the button.
pub open spec fn back_text() -> Seq<char> {
    " [← back] "@
}

/// The button is as wide as its text, and lies in the border.
pub proof fn back_button_fits(main: Area)
    requires
        on_screen(main),
        back_place(main) is Some,
    ensures
        back_place(main)->0.width == back_text().len(),
        main.x < back_place(main)->0.x,
        back_place(main)->0.x + back_place(main)->0.width < main.x + main.width,
{
    reveal_strlit(" [← back] ");
}

/// The place of the back button.
pub open spec fn view_back(main: Area) -> Seq<ClickTarget> {
    match back_place(main) {
        Some(b) => seq![
            ClickTarget::new(
                b.x,
                b.y,
                b.width,
                1,
                ClickAction::SimulateKey(KeyCode::Esc),
            ).labeled("back_button"),
        ],
        None => Seq::empty(),
    }
}

/// What can be clicked on a view but the dashboard.
pub open spec fn view_places(a: App, l: FrameLayout, info: NowPlaying, env: DrawEnv) -> Seq<
    ClickTarget,
> {
    let scroll = a.nav.cursor.scroll as nat;
    view_back(l.main) + match a.view {
        ViewMode::Settings => setting_places(setting_items(a.config, env.settings), l.content),
        ViewMode::Queue => row_places(l.content, info.queue@.len(), scroll),
        ViewMode::History => row_places(l.content, env.history@.len(), scroll),
        ViewMode::Browse => row_places(l.content, a.nav@.screen().labels@.len(), scroll),
        _ => Seq::empty(),
    }
}

/// What is said of the track that comes in.
pub open spec fn incoming_text(inc: Track, playing_bpm: Option<u32>, progress: u32) -> Seq<char> {
    let native = match inc.bpm {
        Some(b) => b,
        None => 0,
    };
    let target = match playing_bpm {
        Some(b) => b,
        None => native,
    };
    let far = native > target + 500 || target > native + 500;
    "◀ "@ + track_name(inc) + "  "@ + (if far {
        bpm_whole(native) + "→"@ + bpm_whole(target) + " BPM"@
    } else {
        bpm_whole(native) + " BPM"@
    }) + "  "@ + decimal(round_div(progress as nat, 10_000)) + "%"@
}

fn incoming_str(inc: &Track, playing_bpm: Option<u32>, progress: u32) -> (s: String)
    ensures
        s@ == incoming_text(*inc, playing_bpm, progress),
{
    let native: u32 = match inc.bpm {
        Some(b) => b,
        None => 0,
    };
    let target: u32 = match playing_bpm {
        Some(b) => b,
        None => native,
    };
    let far: bool = native as u64 > target as u64 + 500 || target as u64 > native as u64 + 500;
    let tempo: String = if far {
        let s: String = concat3(
            bpm_whole_str(native).as_str(),
            "→",
            bpm_whole_str(target).as_str(),
        );
        concat2(s.as_str(), " BPM")
    } else {
        concat2(bpm_whole_str(native).as_str(), " BPM")
    };
    let s: String = concat3("◀ ", inc.name().as_str(), "  ");
    let s: String = concat3(s.as_str(), tempo.as_str(), "  ");
    let pct: String = wide_decimal_str(rounded_div(progress as u128, 10_000));
    concat3(s.as_str(), pct.as_str(), "%")
}

/// The rows of the now-playing bar.
pub open spec fn playing_bars(info: NowPlaying) -> Seq<SpanV> {
    let name = match info.playing_track {
        Some(t) => Some(track_name(t)),
        None => None,
    };
    let left = minus(info.playing_duration_ms as int, info.playing_time_ms as int) / 1000;
    let first = now_playing(name, info.playing_bpm, left);
    match info.incoming_track {
        Some(t) => if info.crossfading {
            seq![
                first,
                span(
                    incoming_text(t, info.playing_bpm, info.crossfade_progress),
                    Style::of(Color::Yellow),
                ),
            ]
        } else {
            seq![first]
        },
        None => seq![first],
    }
}

pub fn draw_bars(info: &NowPlaying) -> (v: Vec<Span>)
    ensures
        spans_view(v@) == playing_bars(*info),
        v@.len() == crate::layout::playing_rows(*info),
{
    let name: Option<String> = match &info.playing_track {
        Some(t) => Some(t.name()),
        None => None,
    };
    let left: u64 = if info.playing_duration_ms >= info.playing_time_ms {
        (info.playing_duration_ms - info.playing_time_ms) / 1000
    } else {
        0
    };
    let mut v: Vec<Span> = Vec::new();
    v.push(render_now_playing(&name, info.playing_bpm, left));
    if info.crossfading {
        if let Some(t) = &info.incoming_track {
            v.push(
                Span::owned(
                    incoming_str(t, info.playing_bpm, info.crossfade_progress),
                    Style::of(Color::Yellow),
                ),
            );
        }
    }
    assert(spans_view(v@) =~= playing_bars(*info));
    v
}

/// The track of a deck, in the question which one to favour.
pub open spec fn deck_text(t: Option<Track>) -> Seq<char> {
    match t {
        Some(t) => track_name(t),
        None => "(empty)"@,
    }
}

pub open spec fn picker_lines(info: NowPlaying) -> Seq<Seq<SpanV>> {
    let key = Style::of(Color::Yellow).bold();
    seq![
        seq![span(" Favorite which deck? "@, Style::of(Color::Cyan).bold())],
        seq![span(""@, Style::plain())],
        seq![span("  [a] "@, key), span(deck_text(info.deck_a.track), Style::plain())],
        seq![span("  [b] "@, key), span(deck_text(info.deck_b.track), Style::plain())],
        seq![span(""@, Style::plain())],
        seq![span("  Esc to cancel"@, Style::of(Color::DarkGray))],
    ]
}

fn deck_line(key: &str, t: &Option<Track>) -> (spans: Vec<Span>)
    ensures
        spans_view(spans@) == seq![
            span(key@, Style::of(Color::Yellow).bold()),
            span(deck_text(*t), Style::plain()),
        ],
{
    let mut spans: Vec<Span> = Vec::new();
    add_span(&mut spans, key, Style::of(Color::Yellow).bold());
    let name: String = match t {
        Some(t) => t.name(),
        None => owned("(empty)"),
    };
    add_span(&mut spans, name.as_str(), Style::plain());
    assert(spans_view(spans@) =~= seq![
        span(key@, Style::of(Color::Yellow).bold()),
        span(deck_text(*t), Style::plain()),
    ]);
    spans
}

/// Draws the question which deck's track to favour.
pub fn render_fav_picker(info: &NowPlaying) -> (lines: Vec<Line>)
    ensures
        lines_view(lines@) == picker_lines(*info),
        lines@.len() == 6,
{
    let mut lines: Vec<Line> = Vec::new();
    add_text_line(&mut lines, " Favorite which deck? ", Style::of(Color::Cyan).bold());
    add_text_line(&mut lines, "", Style::plain());
    add_line(&mut lines, deck_line("  [a] ", &info.deck_a.track));
    add_line(&mut lines, deck_line("  [b] ", &info.deck_b.track));
    add_text_line(&mut lines, "", Style::plain());
    add_text_line(&mut lines, "  Esc to cancel", Style::of(Color::DarkGray));
    assert(lines_view(lines@) =~= picker_lines(*info));
    assert(lines_view(lines@).len() == 6);
    lines
}

} // verus!
