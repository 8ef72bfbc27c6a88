use mixr::app::{App, KeyEnv, Route};
use mixr::browse_steps::{queued_said, step_action};
use mixr::catalog::{BrowseScreen, Genre, Items, MenuAction};
use mixr::clicks::{ClickAction, ClickTarget, RangeControl};
use mixr::config::AppConfig;
use mixr::controls::{CtrlSection, DashFocus};
use mixr::deck::{Deck, NowPlaying};
use mixr::effects::Effect;
use mixr::inputs::{GenrePicker, PlaylistPicker, ViewMode};
use mixr::key::{KeyCode, KeyEvent, KeyModifiers};
use mixr::midi_learn::Action;
use mixr::mixer::MixerRow;
use mixr::modals::{
    bind_toast, ConfirmAction, Palette, PendingMidiMap, SavedTrack, SessionSnapshot,
};
use mixr::mouse::{handle_mouse_drag, MouseEvent, MouseKind};
use mixr::nav::{BrowseStep, Nav};
use mixr::overlay_keys::LearnEnv;
use mixr::rules::RuleConfig;
use mixr::rules_editor::RulesEditor;
use mixr::settings::SettingsEnv;
use mixr::settings_list::{settings_row_count, settings_row_entry_at};
use mixr::track::{Named, Track};

fn track(id: i64, artist: &str, title: &str, bpm: u32, key: &str) -> Track {
    Track {
        id,
        artist: artist.into(),
        title: title.into(),
        remixers: vec![],
        duration: "6:00".into(),
        bpm: Some(bpm),
        key: Some(key.into()),
        label_name: None,
        genre_name: None,
        release_date: None,
        artists: vec![],
        remixer_links: vec![],
        label_id: None,
        genre_id: None,
        genre_slug: None,
        release_id: None,
    }
}

fn deck() -> Deck {
    Deck {
        track: None,
        bpm: None,
        time_ms: 0,
        duration_ms: 0,
        is_playing: false,
        kick: false,
        beat: 0,
        rate: 0,
        level: 0,
        fader: 1000,
        eq_low: 0,
        eq_mid: 0,
        eq_high: 0,
        filter: 0,
        loop_active: false,
        cues: [false; 4],
        analysis: None,
    }
}

fn idle() -> NowPlaying {
    NowPlaying {
        deck_a: deck(),
        deck_b: deck(),
        playing_track: None,
        incoming_track: None,
        playing_bpm: None,
        incoming_bpm: None,
        playing_time_ms: 0,
        playing_duration_ms: 0,
        playing_is_a: true,
        state_name: "Idle".into(),
        crossfading: false,
        crossfade_progress: 0,
        transition_type_name: String::new(),
        transition_bars: 0,
        fader_sweep: 0,
        crossfader_pos: 0,
        crossfader_visual: 500_000,
        phase_us: 0,
        downbeat_aligned: false,
        mix_point_ms: None,
        jump_bars: 4,
        queue: vec![],
        history: vec![],
        session_time_min: 0,
    }
}

fn menu(title: &str, labels: &[&str]) -> BrowseScreen {
    BrowseScreen {
        title: title.into(),
        labels: labels.iter().map(|l| l.to_string()).collect(),
        items: Items::Menu(labels.iter().map(|l| MenuAction::Load(l.to_string())).collect()),
    }
}

fn list(title: &str, tracks: Vec<Track>) -> BrowseScreen {
    BrowseScreen {
        title: title.into(),
        labels: tracks.iter().map(|t| t.name()).collect(),
        items: Items::Tracks(tracks),
    }
}

fn app() -> App {
    App::new(AppConfig::default(), menu("Beatport", &["Genres", "Charts", "Discover"]))
}

fn env() -> KeyEnv {
    KeyEnv {
        signed_in: true,
        settings: settings_env(),
        learn: LearnEnv { has_midi: false, latest: None, actions: 3, picked: None },
        shown: vec![],
        shown_erased: 0,
    }
}

fn settings_env() -> SettingsEnv {
    SettingsEnv { devices: vec![], rubberband: false, timestretch: false, stratum: false }
}

fn defaults() -> RuleConfig {
    RuleConfig { rules: vec![], default: "BeatMatched".into() }
}

fn press(a: &mut App, code: KeyCode) -> Vec<String> {
    press_with(a, code, KeyModifiers::none(), &env())
}

fn press_with(a: &mut App, code: KeyCode, m: KeyModifiers, env: &KeyEnv) -> Vec<String> {
    let fx = a.handle_key(KeyEvent::new(code, m), env, &idle(), defaults());
    show(&fx)
}

fn show(fx: &[Effect]) -> Vec<String> {
    fx.iter()
        .map(|e| match e {
            Effect::Toast(s, ms) => format!("{s} ({ms})"),
            Effect::Do(a) => format!("{a:?}"),
            Effect::With(t, s) => format!("{t:?} {s}"),
        })
        .collect()
}

#[test]
fn a_bound_key_runs_its_command() {
    let mut a = app();
    assert_eq!(press(&mut a, KeyCode::Char('p')), vec!["Pause", "Play/Pause (1000)"]);
    assert_eq!(press(&mut a, KeyCode::Char('m')), vec!["MixNow", "Mix now (1000)"]);
    // The panic key and the legend are for the dashboard alone.
    assert!(press(&mut a, KeyCode::Char('B')).is_empty());
    press(&mut a, KeyCode::Char('d'));
    assert_eq!(a.view, ViewMode::Dashboard);
    assert_eq!(press(&mut a, KeyCode::Char('B')), vec!["BailCrossfade"]);
    assert!(!a.dash.help);
    press(&mut a, KeyCode::Char('?'));
    assert!(a.dash.help);
    press(&mut a, KeyCode::Char('q'));
    assert_eq!(a.view, ViewMode::Queue);
}

#[test]
fn the_analyzer_is_switched_and_saved() {
    let mut a = app();
    let before = a.config.analyzer_engine;
    let fx = press(&mut a, KeyCode::Char('G'));
    assert_eq!(fx[0], "SaveConfig");
    assert_ne!(a.config.analyzer_engine, before);
    press(&mut a, KeyCode::Char('G'));
    assert_eq!(a.config.analyzer_engine, before);
}

#[test]
fn a_confirmation_absorbs_every_key() {
    let mut a = app();
    a.confirm = Some(ConfirmAction::ClearQueue);
    assert!(press(&mut a, KeyCode::Char('p')).is_empty());
    assert!(a.confirm.is_some());
    assert_eq!(press(&mut a, KeyCode::Char('y')), vec!["ClearQueue", "Queue cleared (1000)"]);
    assert!(a.confirm.is_none());
    a.confirm = Some(ConfirmAction::ResetAllMixerControls);
    assert_eq!(press(&mut a, KeyCode::Esc), vec!["Cancelled (600)"]);
    a.confirm = Some(ConfirmAction::ResetAllMixerControls);
    let fx = press(&mut a, KeyCode::Char('Y'));
    assert_eq!(fx.last().unwrap(), "Mixer reset (800)");
}

#[test]
fn a_mapping_waits_for_a_controller() {
    let mut a = app();
    a.midi_map = Some(PendingMidiMap {
        action: Action::Crossfader,
        action_label: "Crossfader".into(),
        captured: None,
    });
    a.confirm = Some(ConfirmAction::ClearQueue);
    assert!(matches!(
        a.route_key(&KeyEvent::new(KeyCode::Enter, KeyModifiers::none())),
        Route::MidiMap
    ));
    assert_eq!(
        press(&mut a, KeyCode::Enter),
        vec!["Move a controller first, then press Y (1500)"]
    );
    a.midi_map.as_mut().unwrap().captured = Some("CC 7".into());
    assert_eq!(press(&mut a, KeyCode::Char('Y')), vec!["BindCaptured(Crossfader)"]);
    assert!(a.midi_map.is_none());
    assert_eq!(
        show(&[bind_toast("CC 7", "Crossfader", &None)]),
        vec!["Bound: CC 7 → Crossfader (2000)"]
    );
    assert_eq!(
        show(&[bind_toast("CC 7", "Crossfader", &Some("disk".into()))]),
        vec!["Save failed: disk (3000)"]
    );
}

#[test]
fn the_palette_is_typed_into() {
    let mut a = app();
    a.palette = Some(Palette { filter: "mx".into(), cursor: 1, selected: 2 });
    press(&mut a, KeyCode::Char('i'));
    {
        let p = a.palette.as_ref().unwrap();
        assert_eq!((p.filter.as_str(), p.cursor, p.selected), ("mix", 2, 0));
    }
    let mut e = env();
    e.shown = vec![4, 7];
    e.shown_erased = 1;
    a.palette.as_mut().unwrap().selected = 1;
    press_with(&mut a, KeyCode::Backspace, KeyModifiers::none(), &e);
    {
        let p = a.palette.as_ref().unwrap();
        assert_eq!((p.filter.as_str(), p.cursor, p.selected), ("mx", 1, 0));
    }
    press_with(&mut a, KeyCode::Down, KeyModifiers::none(), &e);
    press_with(&mut a, KeyCode::Down, KeyModifiers::none(), &e);
    assert_eq!(a.palette.as_ref().unwrap().selected, 1);
    let fx = press_with(&mut a, KeyCode::Enter, KeyModifiers::none(), &e);
    assert!(a.palette.is_none());
    // The registry decides what the eighth command does.
    let id = mixr::command::registry().all()[7].id;
    assert_eq!(id, "engine.bail_crossfade");
    assert_eq!(fx, vec!["BailCrossfade"]);
}

#[test]
fn the_prompt_submits_what_is_typed() {
    let mut a = app();
    a.prompt = Some(String::new());
    for c in " ski".chars() {
        press(&mut a, KeyCode::Char(c));
    }
    press(&mut a, KeyCode::Char('x'));
    press(&mut a, KeyCode::Backspace);
    press(&mut a, KeyCode::Char('p'));
    assert_eq!(press(&mut a, KeyCode::Enter), vec!["Submit skip"]);
    assert!(a.prompt.is_none());
    a.prompt = Some("  ".into());
    assert!(press(&mut a, KeyCode::Enter).is_empty());
}

fn session() -> SessionSnapshot {
    SessionSnapshot {
        playing: Some(SavedTrack {
            track: track(1, "Orbit", "Halo", 124_000, "8A"),
            position_ms: 60_000,
        }),
        incoming: None,
        queue: vec![track(2, "Nova", "Drift", 126_000, "9A")],
        saved_at: "yesterday".into(),
    }
}

#[test]
fn a_session_is_resumed_or_discarded() {
    let mut a = app();
    let fx = a.check_startup_resume(Some(session()));
    match a.config.resume_behavior {
        mixr::config::ResumeBehavior::Ask => {
            assert_eq!(
                show(&fx),
                vec!["Resume last session (2 tracks, yesterday)? [Y]es / [N]o (600000)"]
            );
        }
        _ => {
            a.session = Some(session());
            a.asks_resume = true;
        }
    }
    // Keys that answer nothing go on to their commands.
    assert_eq!(press(&mut a, KeyCode::Char('p')).len(), 2);
    assert_eq!(press(&mut a, KeyCode::Char('y')), vec!["Resumed: 2 tracks (2500)"]);
    assert!(!a.asks_resume);
    assert_eq!(a.positions, vec![(1, 60_000)]);
    assert_eq!(a.to_queue.iter().map(|t| t.id).collect::<Vec<_>>(), vec![1, 2]);
    a.session = Some(session());
    a.asks_resume = true;
    assert_eq!(
        press(&mut a, KeyCode::Char('n')),
        vec!["DeleteSession", "Session discarded (1500)"]
    );
}

#[test]
fn typing_screens_take_free_letters() {
    let mut a = app();
    a.view = ViewMode::Search;
    for c in "house".chars() {
        assert!(press(&mut a, KeyCode::Char(c)).is_empty());
    }
    assert_eq!(a.search.query, "house");
    assert_eq!(press(&mut a, KeyCode::Enter), vec!["Searching: house (1000)", "Search house"]);
    press(&mut a, KeyCode::Esc);
    assert_eq!(a.view, ViewMode::Browse);
    assert_eq!(a.search.query, "");
    a.view = ViewMode::Help;
    for c in "ho".chars() {
        press(&mut a, KeyCode::Char(c));
    }
    assert_eq!(a.help.filter, "ho");
    press(&mut a, KeyCode::Esc);
    assert_eq!((a.help.filter.as_str(), a.view), ("", ViewMode::Help));
    press(&mut a, KeyCode::End);
    assert_eq!(a.help.scroll, u16::MAX);
    press(&mut a, KeyCode::Esc);
    assert_eq!(a.view, ViewMode::Dashboard);
}

#[test]
fn a_filter_narrows_and_enter_maps_back() {
    let mut n = Nav::new(menu("Beatport", &["Genres", "Charts", "Discover"]));
    n.filtering = true;
    n.filter_key(KeyCode::Char('C'));
    assert_eq!(n.filter, "C");
    // "Charts" and "Discover", case aside.
    assert_eq!(n.filtered_indices(), vec![1, 2]);
    n.filter_key(KeyCode::Down);
    assert_eq!(n.cursor.selected, 1);
    n.filter_key(KeyCode::Down);
    assert_eq!(n.cursor.selected, 1);
    match n.handle_browse_enter() {
        BrowseStep::Menu(i) => assert_eq!(i, 2),
        _ => panic!("an entry of a menu"),
    }
    assert_eq!(n.filter, "");
    assert!(!n.filtering);
}

#[test]
fn pop_undoes_push() {
    let mut n = Nav::new(menu("Beatport", &["Genres", "Charts"]));
    n.cursor.selected = 1;
    n.cursor.scroll = 1;
    n.push_screen(list("Top", vec![track(1, "Orbit", "Halo", 124_000, "8A")]));
    assert_eq!(n.breadcrumb(), "Beatport > Top");
    assert_eq!((n.cursor.selected, n.cursor.column), (0, -2));
    assert!(n.pop_screen());
    assert_eq!((n.cursor.selected, n.cursor.scroll), (1, 1));
    assert!(!n.pop_screen());
    assert_eq!(n.breadcrumb(), "Beatport");
}

#[test]
fn a_track_list_drills_by_column() {
    let mut t = track(1, "Orbit", "Halo", 124_000, "8A");
    t.artists = vec![Named { id: 5, name: "Orbit".into() }];
    t.label_id = Some(9);
    t.label_name = Some("Nine".into());
    t.release_id = Some(3);
    let mut n = Nav::new(list("Top", vec![t]));
    n.cursor.column = 0;
    assert!(matches!(n.handle_browse_enter(), BrowseStep::ToArtist(5, s) if s == "Orbit"));
    n.cursor.column = 2;
    assert!(matches!(n.handle_browse_enter(), BrowseStep::ToLabel(9, s) if s == "Nine"));
    n.cursor.column = -1;
    assert!(matches!(n.handle_browse_enter(), BrowseStep::Release(3)));
    n.cursor.column = -2;
    assert!(matches!(n.handle_browse_enter(), BrowseStep::Queue(0)));
}

#[test]
fn several_artists_are_listed() {
    let mut t = track(1, "Orbit, Vega", "Halo", 124_000, "8A");
    t.artists = vec![
        Named { id: 5, name: "Orbit".into() },
        Named { id: 6, name: "Vega".into() },
    ];
    t.remixer_links = vec![Named { id: 7, name: "Sol".into() }, Named { id: 8, name: "Io".into() }];
    let mut n = Nav::new(list("Top", vec![t]));
    n.cursor.column = 0;
    assert!(matches!(n.handle_browse_enter(), BrowseStep::ListArtists(0)));
    n.list_artists(0);
    assert_eq!(n.breadcrumb(), "Top > Artists");
    assert_eq!(n.current_screen().labels, vec!["Orbit", "Vega"]);
    n.cursor.selected = 1;
    assert!(matches!(n.handle_browse_enter(), BrowseStep::Artist(6, s) if s == "Vega"));
    assert!(n.pop_screen());
    assert_eq!(n.cursor.column, 0);
    n.cursor.column = 1;
    assert!(matches!(n.handle_browse_enter(), BrowseStep::ListRemixers(0)));
    n.list_remixers(0);
    assert_eq!(n.breadcrumb(), "Top > Remixers");
    assert_eq!(n.current_screen().labels, vec!["Sol", "Io"]);
    assert!(n.pop_screen());
    assert_eq!(n.cursor.column, 1);
    // There is no such track.
    n.list_artists(4);
    assert_eq!(n.breadcrumb(), "Top");
}

#[test]
fn details_stand_on_an_empty_list() {
    let mut n = Nav::new(list("Top", vec![track(1, "Orbit", "Halo", 124_000, "8A")]));
    n.cursor.column = 3;
    n.navigate_to_genre(menu("Beatport", &["Genres"]), menu("House", &["Top 100"]));
    assert_eq!(n.breadcrumb(), "Beatport > Genres > House");
    assert_eq!((n.cursor.selected, n.cursor.column), (0, -2));
    assert!(n.pop_screen());
    assert!(n.current_screen().is_labelled());
    assert_eq!(n.current_screen().item_count(), 0);
    n.navigate_to_artist(menu("Beatport", &["Genres"]), menu("Orbit", &["Tracks"]));
    assert_eq!(n.breadcrumb(), "Beatport > Artists > Orbit");
    n.navigate_to_label(menu("Beatport", &["Genres"]), menu("Nine", &["Tracks"]));
    assert_eq!(n.breadcrumb(), "Beatport > Labels > Nine");
}

#[test]
fn followed_steps_say_and_load() {
    let t = track(1, "Orbit", "Halo", 124_000, "8A");
    let said = |fx: Vec<Effect>| match &fx[..] {
        [Effect::Toast(s, 1500)] => s.clone(),
        _ => panic!("one message"),
    };
    assert_eq!(said(queued_said(&t, true)), "Queued: Orbit - Halo");
    assert_eq!(said(queued_said(&t, false)), "Already queued: Orbit - Halo");
    assert!(matches!(
        step_action(&BrowseStep::Release(3)),
        Some(MenuAction::LoadReleaseTracks(3))
    ));
    assert!(matches!(step_action(&BrowseStep::Chart(4)), Some(MenuAction::LoadChartTracks(4))));
    match step_action(&BrowseStep::Dates("2020-01-01:2020-12-31".into(), Some(5))) {
        Some(MenuAction::LoadDecadeTracks(r, Some(5))) => {
            assert_eq!(r, "2020-01-01:2020-12-31");
        }
        _ => panic!("the tracks of a year"),
    }
    assert!(step_action(&BrowseStep::Queue(0)).is_none());
}

#[test]
fn genres_are_picked() {
    let genres = || {
        vec![
            Genre { id: 1, name: "House".into(), slug: "house".into() },
            Genre { id: 2, name: "Techno".into(), slug: "techno".into() },
        ]
    };
    let mut a = app();
    a.view = ViewMode::FavoritesPicker;
    a.config.favorite_genres = vec!["House".into()];
    a.genre = Some(GenrePicker { genres: genres(), selected: 1, scroll: 0 });
    assert_eq!(press(&mut a, KeyCode::Enter), vec!["Added: Techno (500)", "SaveConfig"]);
    assert_eq!(a.config.favorite_genres, vec!["House", "Techno"]);
    assert_eq!(press(&mut a, KeyCode::Enter), vec!["Removed: Techno (500)", "SaveConfig"]);
    assert_eq!(a.config.favorite_genres, vec!["House"]);
    press(&mut a, KeyCode::Esc);
    assert_eq!(a.view, ViewMode::Settings);
    a.view = ViewMode::GenrePicker;
    a.genre = Some(GenrePicker { genres: genres(), selected: 1, scroll: 0 });
    assert_eq!(
        press(&mut a, KeyCode::Enter),
        vec!["SaveConfig", "Default genre: Techno (1000)"]
    );
    assert_eq!(a.config.default_genre, "Techno");
    assert!(a.genre.is_none());
}

#[test]
fn playlists_are_picked_or_made() {
    let picker = |selected| PlaylistPicker {
        playlists: vec![Named { id: 7, name: "Friday".into() }],
        track: 42,
        selected,
        new_name: String::new(),
    };
    let mut a = app();
    a.view = ViewMode::PlaylistPicker;
    a.playlist = Some(picker(1));
    let fx = press(&mut a, KeyCode::Enter);
    assert_eq!(fx, vec!["PickPlaylist { id: 7, track: 42 }", "AddToPlaylist Friday"]);
    assert_eq!(a.view, ViewMode::Browse);
    a.view = ViewMode::PlaylistPicker;
    a.playlist = Some(picker(0));
    press(&mut a, KeyCode::Enter);
    assert_eq!(a.view, ViewMode::PlaylistNameInput);
    assert!(a.playlist.as_ref().unwrap().new_name.starts_with("mixr "));
    a.playlist.as_mut().unwrap().new_name = "Mi".into();
    press(&mut a, KeyCode::Char('x'));
    assert_eq!(press(&mut a, KeyCode::Enter), vec!["PickTrack(42)", "CreateAndAdd Mix"]);
}

#[test]
fn a_setting_is_typed_in() {
    let mut a = app();
    a.view = ViewMode::Settings;
    let n = settings_row_count(&a.config, &settings_env());
    let row = (0..n)
        .find(|i| {
            settings_row_entry_at(&a.config, &settings_env(), *i).unwrap().key()
                == "local_library_dir"
        })
        .unwrap();
    a.nav.cursor.selected = row;
    press(&mut a, KeyCode::Enter);
    assert_eq!(a.editing.as_deref(), Some(""));
    // Letters that are commands elsewhere are typed here.
    for c in "/mp".chars() {
        assert!(press(&mut a, KeyCode::Char(c)).is_empty());
    }
    let fx = press(&mut a, KeyCode::Enter);
    assert_eq!(fx[0], "SaveConfig");
    assert!(fx[1].starts_with("Saved "));
    assert_eq!(a.config.local_library_dir, "/mp");
    assert!(a.editing.is_none());
}

#[test]
fn the_settings_list_wraps_nowhere() {
    let mut a = app();
    a.view = ViewMode::Settings;
    let n = settings_row_count(&a.config, &settings_env());
    press(&mut a, KeyCode::Up);
    assert_eq!(a.nav.cursor.selected, 0);
    press(&mut a, KeyCode::End);
    assert_eq!(a.nav.cursor.selected, n - 1);
    press(&mut a, KeyCode::Down);
    assert_eq!(a.nav.cursor.selected, n - 1);
    press(&mut a, KeyCode::PageUp);
    assert_eq!(a.nav.cursor.selected, n - 11);
    press(&mut a, KeyCode::Home);
    assert_eq!(a.nav.cursor.selected, 0);
}

#[test]
fn the_mixer_overlay_asks_before_it_resets_all() {
    let mut a = app();
    a.view = ViewMode::Mixer;
    press(&mut a, KeyCode::Down);
    assert_eq!(a.mixer.row, MixerRow::EqMid);
    assert_eq!(press(&mut a, KeyCode::Tab), vec!["Deck B (500)"]);
    assert!(!a.mixer.deck_is_a);
    assert_eq!(press(&mut a, KeyCode::Char('R')), vec!["Reset ALL mixer controls? Y/N (5000)"]);
    assert_eq!(a.confirm, Some(ConfirmAction::ResetAllMixerControls));
    press(&mut a, KeyCode::Esc);
    press(&mut a, KeyCode::Esc);
    assert_eq!(a.view, ViewMode::Dashboard);
}

#[test]
fn the_log_scrolls_on_the_dashboard() {
    let mut a = app();
    a.view = ViewMode::Dashboard;
    a.dash.focus = DashFocus::Log;
    press(&mut a, KeyCode::Up);
    press(&mut a, KeyCode::Up);
    press(&mut a, KeyCode::Down);
    assert_eq!(a.dash.log_offset, 1);
}

#[test]
fn the_dj_is_asked() {
    let mut a = app();
    a.view = ViewMode::Dashboard;
    a.ask = Some(String::new());
    assert!(press(&mut a, KeyCode::Enter).is_empty());
    for c in "go".chars() {
        press(&mut a, KeyCode::Char(c));
    }
    assert_eq!(
        press(&mut a, KeyCode::Enter),
        vec!["SetPrompt go", "TriggerDj User says: go", "Asked DJ: go (2000)"]
    );
    assert!(a.ask.is_none());
}

#[test]
fn rules_are_saved_on_the_way_out() {
    let mut a = app();
    a.view = ViewMode::TransitionRules;
    a.rules = Some(RulesEditor::new(defaults()));
    assert!(press(&mut a, KeyCode::Esc).is_empty());
    assert_eq!(a.view, ViewMode::Settings);
    assert!(a.rules.is_none());
    a.view = ViewMode::TransitionRules;
    let mut ed = RulesEditor::new(defaults());
    ed.dirty = true;
    a.rules = Some(ed);
    assert_eq!(press(&mut a, KeyCode::Esc), vec!["SyncRules", "Rules saved (1000)"]);
    assert_eq!(a.saved_rules.as_ref().unwrap().default, "BeatMatched");
}

fn click(a: &mut App, col: u16, row: u16) -> Vec<String> {
    show(&a.handle_mouse_click(col, row, false, &env(), &idle(), defaults()).effects)
}

#[test]
fn clicks_reach_the_topmost_target() {
    let mut a = app();
    a.view = ViewMode::Dashboard;
    a.targets = vec![
        ClickTarget::new(0, 0, 20, 5, ClickAction::CycleJumpBars),
        ClickTarget::new(10, 0, 10, 5, ClickAction::LoopOffDeck { is_a: true }),
    ];
    assert_eq!(
        click(&mut a, 12, 1),
        vec!["LoopDisengage { is_a: true }", "Deck A loop off (800)"]
    );
    assert!(click(&mut a, 30, 30).is_empty());
    a.config.jump_bars = 4;
    assert_eq!(
        click(&mut a, 1, 1),
        vec!["SaveConfig", "SetJumpBars(8)", "Jump 8 bars (1000)"]
    );
    assert_eq!(a.config.jump_bars, 8);
}

#[test]
fn the_crossfader_follows_the_mouse() {
    let mut a = app();
    a.targets = vec![ClickTarget::new(
        10,
        3,
        21,
        1,
        ClickAction::SetCrossfaderRange { x_min: 10, x_max: 30 },
    )];
    assert_eq!(
        click(&mut a, 20, 3),
        vec!["SetCrossfader(0)", "Crossfader → +0.00 (600)"]
    );
    // A drag moves it without a word.
    assert_eq!(show(&handle_mouse_drag(&a.targets, 30, 3, 8)), vec!["SetCrossfader(1000000)"]);
}

#[test]
fn strips_take_the_focus() {
    let mut a = app();
    a.dash.focus = DashFocus::Queue;
    a.targets = vec![ClickTarget::new(
        0,
        0,
        3,
        11,
        ClickAction::SetVerticalRange { control: RangeControl::VolumeB, y_min: 0, y_max: 10 },
    )];
    let fx = click(&mut a, 1, 0);
    assert_eq!(fx[0], "SetFader { is_a: false, level: 1000000 }");
    assert_eq!(a.dash.focus, DashFocus::Controller);
    assert_eq!(a.dash.section, CtrlSection::VolumeB);
}

#[test]
fn a_waveform_zooms_and_closes() {
    let mut a = app();
    a.targets = vec![ClickTarget::new(0, 0, 5, 5, ClickAction::WaveformZoom(true))];
    click(&mut a, 0, 0);
    assert_eq!(a.dash.zoom, Some(true));
    click(&mut a, 0, 0);
    assert_eq!(a.dash.zoom, None);
}

#[test]
fn a_right_click_starts_a_mapping() {
    let mut a = app();
    a.targets = vec![
        ClickTarget::new(0, 0, 5, 5, ClickAction::CycleJumpBars).bindable(Action::Crossfader),
    ];
    let m = MouseEvent {
        kind: MouseKind::RightDown,
        column: 1,
        row: 1,
        modifiers: KeyModifiers::none(),
    };
    let o = a.handle_mouse(m, "Crossfader", &env(), &idle(), defaults());
    assert!(show(&o.effects)
        .contains(&"Move a controller to bind: Crossfader (Esc to cancel) (4000)".to_string()));
    assert_eq!(a.midi_map.as_ref().unwrap().action, Action::Crossfader);
}

#[test]
fn the_wheel_is_the_arrow_keys() {
    let mut a = app();
    a.view = ViewMode::Settings;
    let m = MouseEvent {
        kind: MouseKind::ScrollDown,
        column: 1,
        row: 1,
        modifiers: KeyModifiers::none(),
    };
    a.handle_mouse(m, "", &env(), &idle(), defaults());
    assert_eq!(a.nav.cursor.selected, 1);
}

#[test]
fn commands_fire_on_every_screen_unless_something_captures() {
    for view in [ViewMode::Browse, ViewMode::Search, ViewMode::Help, ViewMode::Settings] {
        let mut a = app();
        a.view = view;
        assert_eq!(press(&mut a, KeyCode::Char('p')), vec!["Pause", "Play/Pause (1000)"]);
    }
    let mut a = app();
    a.nav.filtering = true;
    assert!(press(&mut a, KeyCode::Char('p')).is_empty());
    assert_eq!(a.nav.filter, "p");
}
