use mixr::app::App;
use mixr::catalog::{BrowseScreen, Genre, Items, MenuAction};
use mixr::claude_screen::{DjState, LogEntry, LogEntryType};
use mixr::clicks::{target_at, ClickAction};
use mixr::config::AppConfig;
use mixr::deck::{Deck, NowPlaying};
use mixr::frame::{draw_bars, render_fav_picker, Content, DrawEnv};
use mixr::inputs::{GenrePicker, PlaylistPicker, ViewMode};
use mixr::key::KeyCode;
use mixr::layout::{frame_size, inner, picker_area, playing_height, toast_area};
use mixr::panels::Area;
use mixr::render::recent_log;
use mixr::settings::{build_settings, SettingItem, SettingsEnv};
use mixr::style::{Color, Line};
use mixr::track::{Named, Track};

fn track(id: i64, artist: &str, title: &str, bpm: u32, key: &str) -> Track {
    Track {
        id,
        artist: artist.into(),
        title: title.into(),
        remixers: vec![],
        duration: "6:00".into(),
        bpm: Some(bpm),
        key: Some(key.into()),
        label_name: None,
        genre_name: None,
        release_date: None,
        artists: vec![],
        remixer_links: vec![],
        label_id: None,
        genre_id: None,
        genre_slug: None,
        release_id: None,
    }
}

fn deck() -> Deck {
    Deck {
        track: None,
        bpm: None,
        time_ms: 0,
        duration_ms: 0,
        is_playing: false,
        kick: false,
        beat: 0,
        rate: 0,
        level: 0,
        fader: 1000,
        eq_low: 0,
        eq_mid: 0,
        eq_high: 0,
        filter: 0,
        loop_active: false,
        cues: [false; 4],
        analysis: None,
    }
}

fn idle() -> NowPlaying {
    NowPlaying {
        deck_a: deck(),
        deck_b: deck(),
        playing_track: None,
        incoming_track: None,
        playing_bpm: None,
        incoming_bpm: None,
        playing_time_ms: 0,
        playing_duration_ms: 0,
        playing_is_a: true,
        state_name: "Idle".into(),
        crossfading: false,
        crossfade_progress: 0,
        transition_type_name: String::new(),
        transition_bars: 0,
        fader_sweep: 0,
        crossfader_pos: 0,
        crossfader_visual: 500_000,
        phase_us: 0,
        downbeat_aligned: false,
        mix_point_ms: None,
        jump_bars: 4,
        queue: vec![],
        history: vec![],
        session_time_min: 0,
    }
}

fn text(l: &Line) -> String {
    l.spans.iter().map(|s| s.text.as_str()).collect()
}

fn root() -> BrowseScreen {
    BrowseScreen {
        title: "Beatport".into(),
        labels: vec!["Genres".into(), "Favorites".into(), "Discover".into()],
        items: Items::Menu(vec![
            MenuAction::Load("genres".into()),
            MenuAction::PushFavorites,
            MenuAction::PushDiscover,
        ]),
    }
}

fn app() -> App {
    App::new(AppConfig::default(), root())
}

fn draw_env() -> DrawEnv {
    DrawEnv {
        settings: SettingsEnv {
            devices: vec![],
            rubberband: false,
            timestretch: false,
            stratum: false,
        },
        dj: DjState::Missing,
        dj_log: vec![],
        log: None,
        history: vec![],
        results: vec![],
        curves: None,
        has_midi: false,
        latest: None,
        value: None,
        actions: vec![],
        bindings: vec![],
        toast: None,
    }
}

fn screen() -> Area {
    Area { x: 0, y: 0, width: 80, height: 24 }
}

#[test]
fn a_frame_is_split_into_view_bar_and_hints() {
    let mut a = app();
    let (l, d) = a.render(screen(), false, &idle(), &draw_env());
    // The hints are longer than 80 columns, so they take two rows.
    assert_eq!(l.hints_height, if l.hints.chars().count() > 80 { 2 } else { 1 });
    assert_eq!(l.main.y, 0);
    assert_eq!(l.main.height + l.playing.height + l.below.height, 24);
    assert_eq!(l.playing.height, 1);
    assert_eq!(l.below.height, l.hints_height);
    assert_eq!(l.playing.y, l.main.height);
    assert_eq!(l.content.x, 1);
    assert_eq!(l.content.width, 78);
    assert_eq!(d.title.as_deref(), Some(" Beatport  [1/3] "));
    match &d.content {
        Content::Lines(v) => {
            let shown: Vec<String> = v.iter().map(text).collect();
            assert_eq!(shown, vec!["▸ Genres", "  Favorites", "  Discover"]);
        }
        _ => panic!("a menu without a filter"),
    }
    assert_eq!(text_of_bars(&idle()), vec!["  No track playing"]);
}

#[test]
fn rows_are_shared_out_where_there_is_room() {
    let rows = |a: Area| (a.y, a.height);
    let mut info = idle();
    info.crossfading = true;
    info.incoming_track = Some(track(2, "Vega", "Dusk", 126_000, "9A"));
    let tall = Area { x: 0, y: 3, width: 300, height: 40 };
    let mut a = app();
    let (l, _) = a.render(tall, false, &info, &draw_env());
    assert_eq!((rows(l.main), rows(l.playing), rows(l.below)), ((3, 37), (40, 2), (42, 1)));
    assert_eq!((rows(l.bars[0]), rows(l.bars[1])), ((40, 1), (41, 1)));
    assert_eq!(rows(l.content), (4, 35));
    assert!(l.line.is_none());
    // A filter has the last row of the view.
    a.nav.filtering = true;
    let (l, _) = a.render(tall, false, &info, &draw_env());
    assert_eq!((rows(l.list), l.line.map(rows)), ((4, 34), Some((38, 1))));
    // A search has the first.
    a.nav.filtering = false;
    a.view = ViewMode::Search;
    let (l, _) = a.render(tall, false, &info, &draw_env());
    assert_eq!((l.line.map(rows), rows(l.list)), (Some((4, 1)), (5, 34)));
    // The MIDI screen has three panes.
    a.view = ViewMode::MidiLearn;
    let (l, _) = a.render(tall, false, &info, &draw_env());
    assert_eq!(l.panes.iter().map(|p| rows(*p)).collect::<Vec<_>>(), vec![(4, 4), (8, 23), (31, 8)]);
}

#[test]
fn rows_that_do_not_fit_come_in_order() {
    let grown = |height: u16, fixed: u16, min: u16| {
        if fixed + min <= height {
            height - fixed
        } else {
            min.min(height)
        }
    };
    let mut both = idle();
    both.crossfading = true;
    both.incoming_track = Some(track(2, "Vega", "Dusk", 126_000, "9A"));
    for info in [idle(), both] {
        for view in [ViewMode::Browse, ViewMode::Search, ViewMode::MidiLearn] {
            for (width, height) in (0..40).flat_map(|h| [(20, h), (400, h)]) {
                let mut a = app();
                a.view = view;
                a.nav.filtering = true;
                let size = Area { x: 0, y: 2, width, height };
                let (l, _) = a.render(size, false, &info, &draw_env());
                let (p, h) = (l.playing_height, l.hints_height);
                assert_eq!((l.main.y, l.main.height), (2, grown(height, p + h, 3)));
                assert_eq!(l.playing.y, l.main.y + l.main.height);
                assert_eq!(l.below.y, l.playing.y + l.playing.height);
                assert_eq!(l.below.y + l.below.height, 2 + height);
                assert!(l.playing.height <= p && l.below.height <= h);
                if height >= 3 + p + h {
                    assert_eq!((l.playing.height, l.below.height), (p, h));
                }
                let bars: u16 = l.bars.iter().map(|b| b.height).sum();
                assert_eq!(bars, l.playing.height);
                assert!(l.bars.iter().all(|b| b.height <= 1));
                let c = l.content;
                match view {
                    ViewMode::Search => {
                        let line = l.line.unwrap();
                        assert_eq!((line.y, line.height), (c.y, c.height.min(1)));
                        assert_eq!(l.list.y, line.y + line.height);
                        assert_eq!(l.list.height, c.height - line.height);
                    }
                    ViewMode::Browse => {
                        let line = l.line.unwrap();
                        assert_eq!((l.list.y, l.list.height), (c.y, grown(c.height, 1, 1)));
                        assert_eq!(line.y, l.list.y + l.list.height);
                        assert_eq!(line.height, c.height - l.list.height);
                    }
                    _ => {
                        assert_eq!(l.panes[0].y, c.y);
                        assert_eq!(l.panes[1].y, c.y + l.panes[0].height);
                        assert_eq!(l.panes[1].height, grown(c.height, 12, 8));
                        assert_eq!(l.panes[2].y, l.panes[1].y + l.panes[1].height);
                        assert_eq!(l.panes[2].y + l.panes[2].height, c.y + c.height);
                        assert!(l.panes[0].height <= 4 && l.panes[2].height <= 8);
                    }
                }
            }
        }
    }
}

fn text_of_bars(info: &NowPlaying) -> Vec<String> {
    draw_bars(info).iter().map(|s| s.text.clone()).collect()
}

#[test]
fn rows_of_a_list_can_be_clicked() {
    let mut a = app();
    let (l, _) = a.render(screen(), false, &idle(), &draw_env());
    let t = target_at(&a.targets, 5, l.content.y + 2).unwrap();
    assert_eq!(t.action, ClickAction::SetSelected(2));
    assert!(target_at(&a.targets, 5, l.content.y + 3).is_none());
    let back = l.main.x + l.main.width - 11;
    let t = target_at(&a.targets, back, 0).unwrap();
    assert_eq!(t.action, ClickAction::SimulateKey(KeyCode::Esc));
    assert_eq!(t.label, Some("back_button"));
}

#[test]
fn a_narrow_frame_has_no_back_button() {
    let mut a = app();
    let (_, d) = a.render(
        Area { x: 0, y: 0, width: 14, height: 24 },
        false,
        &idle(),
        &draw_env(),
    );
    assert!(d.back.is_none());
    let (_, d) = a.render(
        Area { x: 0, y: 0, width: 15, height: 24 },
        false,
        &idle(),
        &draw_env(),
    );
    assert_eq!(d.back.unwrap().x, 4);
}

#[test]
fn a_guest_leaves_a_margin() {
    let r = frame_size(screen(), true);
    assert_eq!((r.x, r.y, r.width, r.height), (1, 0, 77, 23));
    let r = frame_size(screen(), false);
    assert_eq!((r.x, r.y, r.width, r.height), (0, 0, 80, 24));
    let i = inner(screen());
    assert_eq!((i.x, i.y, i.width, i.height), (1, 1, 78, 22));
    let none = inner(Area { x: 3, y: 3, width: 0, height: 1 });
    assert_eq!((none.x, none.y, none.width, none.height), (3, 4, 0, 0));
}

#[test]
fn a_toast_floats_above_the_bars() {
    let a = toast_area("hello", screen(), 2);
    assert_eq!((a.x, a.y, a.width, a.height), (35, 18, 9, 3));
    assert_eq!(a.y + a.height + 1 + 2, 24);
    // No room: it starts at the top, and is no wider than the screen.
    let a = toast_area("hello world", Area { x: 0, y: 0, width: 10, height: 4 }, 2);
    assert_eq!((a.x, a.y, a.width), (0, 0, 10));
    // Its width counts bytes.
    assert_eq!(toast_area("★", screen(), 2).width, 7);
}

#[test]
fn the_prompt_and_the_toast_are_drawn() {
    let mut a = app();
    a.prompt = Some("skip".into());
    let mut env = draw_env();
    env.toast = Some("Saved".into());
    let (_, d) = a.render(screen(), false, &idle(), &env);
    let (at, shown) = d.prompt.unwrap();
    assert_eq!((at.y, at.width, at.height), (23, 80, 1));
    assert_eq!(shown, ":skip█");
    assert_eq!(d.toast.unwrap().1, " Saved ");
}

#[test]
fn a_filter_stands_below_the_list() {
    let mut a = app();
    a.nav.filter = "dis".into();
    a.nav.filtering = true;
    let (l, d) = a.render(screen(), false, &idle(), &draw_env());
    assert_eq!(l.line.unwrap().height, 1);
    match &d.content {
        Content::Beside(v, line) => {
            assert_eq!(v.iter().map(text).collect::<Vec<_>>(), vec!["▸ Discover"]);
            assert_eq!(text(line), "  Filter: dis█");
        }
        _ => panic!("a filter has a line of its own"),
    }
}

#[test]
fn the_search_has_a_line_and_its_results() {
    let mut a = app();
    a.view = ViewMode::Search;
    a.search.query = "warp".into();
    let (_, d) = a.render(screen(), false, &idle(), &draw_env());
    assert_eq!(d.title.as_deref(), Some(" Beatport > Search "));
    match &d.content {
        Content::Beside(v, line) => {
            assert!(v.is_empty());
            assert_eq!(text(line), "  Search: warp█");
        }
        _ => panic!("a search has a line of its own"),
    }
    let mut env = draw_env();
    env.results = vec![track(1, "Orbit", "Halo", 124_000, "8A")];
    let (_, d) = a.render(screen(), false, &idle(), &env);
    match &d.content {
        Content::Beside(v, _) => assert!(v.iter().any(|l| text(l).contains("Halo"))),
        _ => panic!("a search has a line of its own"),
    }
}

#[test]
fn pickers_list_their_entries() {
    let mut a = app();
    a.view = ViewMode::PlaylistPicker;
    a.playlist = Some(PlaylistPicker {
        playlists: vec![Named { id: 7, name: "Friday".into() }],
        track: 1,
        selected: 1,
        new_name: String::new(),
    });
    let (_, d) = a.render(screen(), false, &idle(), &draw_env());
    match &d.content {
        Content::Lines(v) => assert_eq!(
            v.iter().map(text).collect::<Vec<_>>(),
            vec!["  + Create New Playlist...", "▸ Friday"]
        ),
        _ => panic!("a menu"),
    }
    a.view = ViewMode::FavoritesPicker;
    a.config.favorite_genres = vec!["House".into()];
    a.genre = Some(GenrePicker {
        genres: vec![
            Genre { id: 1, name: "House".into(), slug: "house".into() },
            Genre { id: 2, name: "Techno".into(), slug: "techno".into() },
        ],
        selected: 0,
        scroll: 0,
    });
    let (_, d) = a.render(screen(), false, &idle(), &draw_env());
    assert_eq!(d.title.as_deref(), Some(" Settings > Favorite Genres (1 selected) "));
    match &d.content {
        Content::Lines(v) => assert_eq!(
            v.iter().map(text).collect::<Vec<_>>(),
            vec!["▸ ★ House", "  · Techno"]
        ),
        _ => panic!("a menu"),
    }
}

#[test]
fn favourite_genres_carry_a_star() {
    let mut a = App::new(
        AppConfig::default(),
        BrowseScreen {
            title: "Genres".into(),
            labels: vec!["House".into(), "Techno".into()],
            items: Items::Genres(vec![
                Genre { id: 1, name: "House".into(), slug: "house".into() },
                Genre { id: 2, name: "Techno".into(), slug: "techno".into() },
            ]),
        },
    );
    a.config.favorite_genres = vec!["TECHNO".into()];
    let (_, d) = a.render(screen(), false, &idle(), &draw_env());
    match &d.content {
        Content::Lines(v) => assert_eq!(
            v.iter().map(text).collect::<Vec<_>>(),
            vec!["▸ House", "  Techno ★"]
        ),
        _ => panic!("a menu"),
    }
}

#[test]
fn settings_rows_are_clickable_but_headers_are_not() {
    let mut a = app();
    a.view = ViewMode::Settings;
    let (l, d) = a.render(screen(), false, &idle(), &draw_env());
    assert_eq!(d.title.as_deref(), Some(" Beatport > Settings "));
    assert!(target_at(&a.targets, 5, l.content.y).is_none());
    let first = target_at(&a.targets, 5, l.content.y + 1).unwrap();
    assert_eq!(first.action, ClickAction::SetSelected(0));
    // Text settings are rows, but cannot be clicked.
    let tall = Area { x: 0, y: 0, width: 80, height: 90 };
    let (l, _) = a.render(tall, false, &idle(), &draw_env());
    let items = build_settings(&a.config, &draw_env().settings);
    let mut row = 0;
    for (i, item) in items.iter().enumerate() {
        let hit = target_at(&a.targets, 5, l.content.y + i as u16).map(|t| t.action.clone());
        match item {
            SettingItem::Section(_) => assert!(hit.is_none()),
            SettingItem::Row(_) => {
                assert_eq!(hit, Some(ClickAction::SetSelected(row)));
                row += 1;
            }
            SettingItem::TextRow(_) => {
                assert!(hit.is_none());
                row += 1;
            }
        }
    }
}

#[test]
fn the_help_screen_is_held_within_its_end() {
    let mut a = app();
    a.view = ViewMode::Help;
    a.help.scroll = 60_000;
    let (l, d) = a.render(screen(), false, &idle(), &draw_env());
    let n = match &d.content {
        Content::Lines(v) => v.len(),
        _ => panic!("lines"),
    };
    assert_eq!(a.help.scroll as usize, n - l.content.height as usize);
}

#[test]
fn the_dashboard_has_no_border_and_its_own_places() {
    let mut a = app();
    a.view = ViewMode::Dashboard;
    a.dash.fav_picker = true;
    let mut info = idle();
    info.deck_a.track = Some(track(1, "Orbit", "Halo", 124_000, "8A"));
    let (l, d) = a.render(
        Area { x: 0, y: 0, width: 120, height: 60 },
        false,
        &info,
        &draw_env(),
    );
    assert!(d.title.is_none());
    assert!(d.back.is_none());
    assert!(!a.targets.is_empty());
    let (at, lines) = d.picker.unwrap();
    assert_eq!((at.width, at.height), (70, 8));
    assert_eq!(at.x, 25);
    assert_eq!(at.y, (l.main.height - 8) / 2);
    assert_eq!(text(&lines[2]), "  [a] Orbit - Halo");
    assert_eq!(text(&lines[3]), "  [b] (empty)");
}

#[test]
fn the_picker_is_centred() {
    let a = picker_area(Area { x: 2, y: 3, width: 30, height: 4 }, 6);
    assert_eq!((a.x, a.y, a.width, a.height), (4, 3, 26, 8));
    assert_eq!(render_fav_picker(&idle()).len(), 6);
}

#[test]
fn the_incoming_track_gets_a_row_of_its_own() {
    let mut info = idle();
    info.playing_track = Some(track(1, "Orbit", "Halo", 124_000, "8A"));
    info.playing_bpm = Some(126_000);
    info.playing_duration_ms = 300_000;
    info.playing_time_ms = 235_500;
    assert_eq!(playing_height(&info), 1);
    assert_eq!(text_of_bars(&info), vec!["▶ Orbit - Halo  126 BPM  -1:04"]);
    info.crossfading = true;
    info.crossfade_progress = 425_000;
    info.incoming_track = Some(track(2, "Nova", "Drift", 128_000, "9A"));
    assert_eq!(playing_height(&info), 2);
    assert_eq!(text_of_bars(&info)[1], "◀ Nova - Drift  128→126 BPM  42%");
    info.playing_bpm = Some(128_500);
    assert_eq!(text_of_bars(&info)[1], "◀ Nova - Drift  128 BPM  42%");
    let bars = draw_bars(&info);
    assert_eq!(bars[1].style.fg, Some(Color::Yellow));
}

#[test]
fn hints_follow_the_screen_and_the_column() {
    let mut a = app();
    let mut info = idle();
    assert_eq!(
        a.build_hints_string(&info),
        "[Enter] Select  [o] Web  [q] Queue  [d] Dashboard  [,] Settings  [/] Search  [Esc] Quit"
    );
    a.view = ViewMode::Queue;
    info.playing_track = Some(track(1, "Orbit", "Halo", 124_000, "8A"));
    assert_eq!(
        a.build_hints_string(&info),
        "[←→] Columns  [f] Fav  [o] Web  [p] Pause  [n] Skip  [X] Clear  [d] Dashboard  [q] Close  [Esc] Quit"
    );
    a.view = ViewMode::Browse;
    a.nav.push_screen(BrowseScreen {
        title: "Top".into(),
        labels: vec!["Halo".into()],
        items: Items::Tracks(vec![track(1, "Orbit", "Halo", 124_000, "8A")]),
    });
    a.nav.cursor.column = 3;
    assert_eq!(
        a.build_hints_string(&info),
        "[Enter] Genre  [o] Open  [←] Back  [→] Next Column"
    );
    assert_eq!(a.screen_title(), " Beatport > Top  [1/1] ");
}

#[test]
fn the_log_of_the_dj_is_cut_for_the_dashboard() {
    let entry = |t: LogEntryType, m: &str| LogEntry { entry_type: t, message: m.into() };
    let log = vec![
        entry(LogEntryType::Info, "gone"),
        entry(LogEntryType::Action, "a"),
        entry(LogEntryType::Track, "b"),
        entry(LogEntryType::Error, "c"),
        entry(LogEntryType::User, &"x".repeat(81)),
    ];
    let v = recent_log(&log);
    assert_eq!(v.len(), 4);
    assert_eq!(v[0], "ACT a");
    assert_eq!(v[1], "TRK b");
    assert_eq!(v[2], "ERR c");
    assert_eq!(v[3], format!("USR {}…", "x".repeat(79)));
    assert_eq!(recent_log(&vec![]).len(), 0);
}
