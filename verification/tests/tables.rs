use mixr::boxes::{build_ctrl_row, top_border_str};
use mixr::claude_screen::{render_claude_screen, DjState, LogEntry, LogEntryType};
use mixr::command::registry;
use mixr::compat::{camelot_dist, compat};
use mixr::config::AppConfig;
use mixr::controls::{CtrlSection, DashFocus, DashLayout, PanelSection, WaveformMode};
use mixr::dashboard::{render_dashboard, render_dashboard_text, DashView};
use mixr::deck::{Deck, HistoryEntry, NowPlaying};
use mixr::effects::Effect;
use mixr::help::{help_lines, render_help};
use mixr::key::{KeyCode, KeyEvent, KeyModifiers};
use mixr::keymap::{parse_key_spec, Chord, Keymap};
use mixr::meters::{
    crossfader_meter, cue_dots_str, fader_ch, fader_ch_vol, pc_aligned, phase_meter, phase_str,
    vu_ch,
};
use mixr::midi_learn::{action_at, action_count, render as render_learn, Action, ActionRow};
use mixr::mixer::{
    adjust_mixer_row, apply_vertical_drag, handle_deck_control, render_mixer_overlay,
    reset_all_mixer_controls, reset_mixer_row, MixerRow,
};
use mixr::clicks::{target_at, RangeControl};
use mixr::panels::{Area, BrowsePanel};
use mixr::rules::{Action as RuleAction, Condition, Rule, RuleConfig};
use mixr::rules_editor::{
    action_kind_idx, adjust_condition_value, blank_condition, build_action, condition_field_idx,
    condition_value_str, handle_key, set_condition_field, KeyResult, Mode, RulesEditor,
};
use mixr::rules_view::{describe_action, describe_condition, render as render_rules};
use mixr::screens::{clock_str, format_bpm_key, pad, render_menu, render_track_list, trunc};
use mixr::settings::{apply_setting, build_settings, toggle_transition, SettingItem, SettingsEnv};
use mixr::settings_keys::{apply_and_sync_setting, resync_all_engine_settings};
use mixr::settings_list::{settings_row_at, settings_row_count, truncate_line_to_width};
use mixr::style::{Color, Line, Span, Style};
use mixr::track::Track;

fn track(id: i64, artist: &str, title: &str, bpm: u32, key: &str) -> Track {
    Track {
        id,
        artist: artist.into(),
        title: title.into(),
        remixers: vec![],
        duration: "6:00".into(),
        bpm: Some(bpm),
        key: Some(key.into()),
        label_name: None,
        genre_name: None,
        release_date: None,
        artists: vec![],
        remixer_links: vec![],
        label_id: None,
        genre_id: None,
        genre_slug: None,
        release_id: None,
    }
}

fn deck() -> Deck {
    Deck {
        track: None,
        bpm: None,
        time_ms: 0,
        duration_ms: 0,
        is_playing: false,
        kick: false,
        beat: 0,
        rate: 0,
        level: 0,
        fader: 1000,
        eq_low: 0,
        eq_mid: 0,
        eq_high: 0,
        filter: 0,
        loop_active: false,
        cues: [false; 4],
        analysis: None,
    }
}

fn idle() -> NowPlaying {
    NowPlaying {
        deck_a: deck(),
        deck_b: deck(),
        playing_track: None,
        incoming_track: None,
        playing_bpm: None,
        incoming_bpm: None,
        playing_time_ms: 0,
        playing_duration_ms: 0,
        playing_is_a: true,
        state_name: "Idle".into(),
        crossfading: false,
        crossfade_progress: 0,
        transition_type_name: String::new(),
        transition_bars: 0,
        fader_sweep: 0,
        crossfader_pos: 0,
        crossfader_visual: 500_000,
        phase_us: 0,
        downbeat_aligned: false,
        mix_point_ms: None,
        jump_bars: 4,
        queue: vec![],
        history: vec![],
        session_time_min: 0,
    }
}

fn text(l: &Line) -> String {
    l.spans.iter().map(|s| s.text.as_str()).collect()
}

fn show(fx: &[Effect]) -> Vec<String> {
    fx.iter()
        .map(|e| match e {
            Effect::Toast(s, ms) => format!("{s} ({ms})"),
            Effect::Do(a) => format!("{a:?}"),
            Effect::With(t, s) => format!("{t:?} {s}"),
        })
        .collect()
}

fn key(code: KeyCode) -> KeyEvent {
    KeyEvent::new(code, KeyModifiers::none())
}

fn env() -> SettingsEnv {
    SettingsEnv { devices: vec![], rubberband: false, timestretch: false, stratum: false }
}

#[test]
fn keys_are_compared_on_the_wheel() {
    assert_eq!(camelot_dist("8A", "8A"), 0);
    assert_eq!(camelot_dist("8A", "8B"), 1);
    assert_eq!(camelot_dist("1A", "12A"), 1);
    assert_eq!(camelot_dist("12A", "1A"), 1);
    assert_eq!(camelot_dist("2A", "7B"), 6);
    assert_eq!(camelot_dist("Am", "7B"), 99);
    let k = |s: &str| Some(s.to_string());
    assert_eq!(compat(Some(128_000), &k("8A"), Some(128_000), &k("8A")), (100, Color::Green));
    // Half the tempo counts as the same.
    assert_eq!(compat(Some(64_000), &k("8A"), Some(128_000), &k("9A")).0, 95);
    // Five percent off: 25 of the 50 points for the tempo.
    assert_eq!(compat(Some(120_000), &k("8A"), Some(126_000), &k("8A")).0, 75);
    assert_eq!(compat(Some(120_000), &None, None, &None), (0, Color::Red));
}

#[test]
fn meters_show_where_things_stand() {
    assert_eq!(crossfader_meter(0, 5), "║────");
    assert_eq!(crossfader_meter(1_000_000, 5), "────║");
    assert_eq!(crossfader_meter(500_000, 5), "──║──");
    assert_eq!(phase_meter(0, 9), "────│────");
    assert_eq!(phase_meter(30_000, 9), "────│───▼");
    assert_eq!(phase_meter(-30_000, 9), "▼───│────");
    assert_eq!(phase_str(-1_250), "-1.2ms");
    assert_eq!(pc_aligned(4_999, true), Color::Green);
    assert_eq!(pc_aligned(4_999, false), Color::Yellow);
    assert_eq!(pc_aligned(15_000, false), Color::Red);
    assert_eq!(cue_dots_str(&[true, false, true, false]).chars().count() > 0, true);
    // The top row is the fastest, and the loudest.
    assert_eq!(fader_ch(0, 5, 100_000).text, fader_ch_vol(0, 5, 1000).text);
    assert_eq!(fader_ch(2, 5, 0).text, fader_ch(0, 5, 100_000).text);
    assert_ne!(fader_ch(1, 5, 0).text, fader_ch(2, 5, 0).text);
    assert_ne!(vu_ch(4, 1000, 5).text, vu_ch(0, 0, 5).text);
}

#[test]
fn texts_are_cut_and_padded() {
    assert_eq!(pad("ab", 4), "ab  ");
    assert_eq!(trunc("abcdef", 4).chars().count() <= 4, true);
    assert_eq!(clock_str(65), "1:05");
    assert_eq!(clock_str(3_600), "60:00");
    assert_eq!(format_bpm_key(&track(1, "A", "B", 124_500, "8A")), "124 / 8A");
    assert_eq!(top_border_str("T", 10).chars().count(), 10);
    assert_eq!(build_ctrl_row("L", "C", "R", 21).chars().count(), 21);
    let line = Line {
        spans: vec![
            Span::styled("hello ", Style::plain()),
            Span::styled("world", Style::plain()),
        ],
    };
    let cut = truncate_line_to_width(line, 8);
    assert_eq!(text(&cut), "hello w…");
    let menu = render_menu(2, &vec!["a".into(), "b".into(), "c".into()], 1, 1);
    assert_eq!(menu.iter().map(text).collect::<Vec<_>>(), vec!["▸ b", "  c"]);
    let none = render_track_list(80, 10, &vec![], 0, 0, -2, true);
    assert_eq!(text(&none[0]), "  No tracks");
    let some = render_track_list(
        100,
        10,
        &vec![track(1, "Orbit", "Halo", 124_000, "8A")],
        0,
        0,
        -2,
        false,
    );
    assert!(some.iter().any(|l| text(l).contains("Halo")));
    assert!(some.iter().any(|l| text(l).contains("124 / 8A")));
}

fn dash() -> DashView {
    DashView {
        mode: WaveformMode::Phrase,
        browse: BrowsePanel {
            items: vec!["Genres".into(), "Discover".into()],
            breadcrumb: "Beatport".into(),
            selected: 0,
            tracks: false,
        },
        show_help: false,
        section: Some(CtrlSection::Crossfader),
        download_in_flight: false,
        dj_log: vec![],
        dj_ask: None,
        focus: DashFocus::Controller,
        log: None,
        log_offset: 0,
        zoom: None,
        layout: DashLayout::Full,
        panel: PanelSection::Queue,
    }
}

#[test]
fn the_dashboard_is_square_and_clickable() {
    let mut info = idle();
    info.deck_a.track = Some(track(1, "Orbit", "Halo", 124_000, "8A"));
    info.deck_a.is_playing = true;
    info.deck_a.duration_ms = 300_000;
    info.playing_track = Some(track(1, "Orbit", "Halo", 124_000, "8A"));
    info.queue = vec![track(2, "Nova", "Drift", 128_000, "9A")];
    info.history =
        vec![HistoryEntry { track: track(3, "Far", "Out", 120_000, "1A"), mix_score: None }];
    let area = Area { x: 0, y: 0, width: 120, height: 60 };
    let (lines, targets) = render_dashboard(area, &info, &dash());
    assert!(!lines.is_empty());
    assert!(lines.iter().any(|l| text(l).contains("Halo")));
    assert!(lines.iter().any(|l| text(l).contains("Drift")));
    let fader = targets.iter().find(|t| t.label == Some("crossfader")).unwrap();
    let hit = target_at(&targets, fader.x, fader.y).unwrap();
    assert_eq!(hit.label, Some("crossfader"));
    let (none, no_targets) =
        render_dashboard(Area { x: 0, y: 0, width: 39, height: 60 }, &info, &dash());
    assert!(none.is_empty());
    assert!(no_targets.is_empty());
    let dump = render_dashboard_text(&info, WaveformMode::Phrase, 100);
    assert!(dump.iter().any(|l| l.contains("Halo")));
}

#[test]
fn the_mixer_moves_in_steps() {
    let info = idle();
    let fx = show(&adjust_mixer_row(&info, true, MixerRow::Fader, -1));
    assert!(fx[0].starts_with("SetFader { is_a: true"));
    let fx = show(&reset_mixer_row(false, MixerRow::Filter));
    assert_eq!(fx[0], "SetFilter { is_a: false, pos: 0 }");
    let fx = show(&reset_all_mixer_controls());
    assert!(fx.contains(&"SetCrossfader(0)".to_string()));
    assert_eq!(fx.last().unwrap(), "Mixer reset (800)");
    assert_eq!(MixerRow::EqLow.prev(), MixerRow::Fader);
    assert_eq!(MixerRow::Fader.next(), MixerRow::EqLow);
    let fx = show(&apply_vertical_drag(RangeControl::VolumeA, 5, 0, 10, 8, false));
    assert_eq!(fx, vec!["SetFader { is_a: true, level: 500000 }"]);
    assert!(apply_vertical_drag(RangeControl::VolumeA, 5, 10, 10, 8, false).is_empty());
    let fx = show(&handle_deck_control(&info, CtrlSection::PlayA, 1, 4, 8));
    assert_eq!(fx, vec!["Pause", "Play/Pause (1000)"]);
    let fx = show(&handle_deck_control(&info, CtrlSection::JumpB, -1, 8, 8));
    assert_eq!(fx, vec!["Jump(-8)", "B ◀◀ 8 bars (1000)"]);
    let fx = show(&handle_deck_control(&info, CtrlSection::VolumeA, -1, 8, 8));
    assert_eq!(fx, vec!["SetVolume { incoming: false, level: 0 }", "Vol A: 0% (500)"]);
    let lines = render_mixer_overlay(&info, true, MixerRow::EqLow);
    assert!(lines.iter().any(|l| text(l).contains("Deck A")));
}

#[test]
fn controls_cycle() {
    let mut w = WaveformMode::Phrase;
    for _ in 0..3 {
        w = w.next();
    }
    assert_eq!(w, WaveformMode::Phrase);
    let mut c = CtrlSection::Crossfader;
    let mut n = 0;
    loop {
        c = c.next();
        n += 1;
        if c == CtrlSection::Crossfader {
            break;
        }
        assert!(n < 100);
    }
    assert_eq!(CtrlSection::TempoA.next().prev(), CtrlSection::TempoA);
}

fn defaults() -> RuleConfig {
    RuleConfig { rules: vec![], default: "BeatMatched".into() }
}

fn rule(name: &str) -> Rule {
    Rule { when: blank_condition(), action: RuleAction::Force(name.into()) }
}

fn names(e: &RulesEditor) -> Vec<String> {
    e.config.rules.iter().map(|r| describe_action(&r.action)).collect()
}

#[test]
fn rules_are_reordered_inserted_and_removed() {
    let mut e = RulesEditor::new(RuleConfig {
        rules: vec![rule("BeatMatched"), rule("EchoOut")],
        default: "BeatMatched".into(),
    });
    e.selected = 1;
    handle_key(&mut e, key(KeyCode::Char('{')), defaults());
    assert_eq!(names(&e), vec!["EchoOut", "BeatMatched"]);
    assert_eq!(e.selected, 0);
    handle_key(&mut e, key(KeyCode::Char('}')), defaults());
    assert_eq!(names(&e), vec!["BeatMatched", "EchoOut"]);
    handle_key(&mut e, key(KeyCode::Char('i')), defaults());
    assert!(matches!(e.mode, Mode::Edit(_)));
    let lines = render_rules(&e, &None);
    assert!(lines.iter().any(|l| text(l).contains("When:")));
    assert!(matches!(
        handle_key(&mut e, key(KeyCode::Esc), defaults()),
        KeyResult::ContinueCancelled
    ));
    assert_eq!(names(&e).len(), 2);
    handle_key(&mut e, key(KeyCode::Char('i')), defaults());
    handle_key(&mut e, key(KeyCode::Enter), defaults());
    assert_eq!(names(&e).len(), 3);
    assert_eq!(e.selected, 2);
    handle_key(&mut e, key(KeyCode::Char('D')), defaults());
    assert_eq!(names(&e).len(), 2);
    assert_eq!(e.selected, 1);
    // One past the last rule is the default, which Enter cycles.
    handle_key(&mut e, key(KeyCode::Down), defaults());
    handle_key(&mut e, key(KeyCode::Enter), defaults());
    assert_ne!(e.config.default, "BeatMatched");
    handle_key(&mut e, key(KeyCode::Char('Z')), defaults());
    assert!(e.config.rules.is_empty());
    assert!(e.dirty);
    assert!(matches!(handle_key(&mut e, key(KeyCode::Esc), defaults()), KeyResult::CloseSaved));
}

#[test]
fn conditions_are_described() {
    let mut c: Condition = blank_condition();
    assert_eq!(describe_condition(&c), "(any)");
    for i in 0..6 {
        set_condition_field(&mut c, i);
        assert_eq!(condition_field_idx(&c), i);
    }
    let before = condition_value_str(&c, 5);
    adjust_condition_value(&mut c, 5, 1);
    let after = condition_value_str(&c, 5);
    adjust_condition_value(&mut c, 5, -1);
    assert_eq!(condition_value_str(&c, 5), before);
    assert!(!after.is_empty());
    let weighted = RuleAction::Weighted {
        weighted: vec![("A".into(), 3_000_000), ("B".into(), 1_000_000)],
    };
    assert_eq!(describe_action(&weighted), "weighted[A 75%, B 25%]");
    assert_eq!(
        describe_action(&RuleAction::Cycle { cycle: vec!["A".into(), "B".into()] }),
        "cycle[A, B]"
    );
    assert_eq!(describe_action(&RuleAction::Skip { skip: true }), "skip");
    let choices = vec![("A".to_string(), 1_000_000), ("B".to_string(), 1_000_000)];
    for kind in 0..3 {
        assert_eq!(action_kind_idx(&build_action(kind, &choices)), kind);
    }
    assert_eq!(describe_action(&build_action(0, &vec![])), "BeatMatched");
}

#[test]
fn every_choice_of_a_setting_is_shown_once_made() {
    let n = settings_row_count(&AppConfig::default(), &env());
    for row in 0..n {
        let mut cfg = AppConfig::default();
        let Some(r) = settings_row_at(&cfg, &env(), row) else { continue };
        if r.key == mixr::settings::RESET_ALL_KEY || r.options.len() < 2 {
            continue;
        }
        for choice in 0..r.options.len() {
            apply_setting(&mut cfg, r.key, choice, &env());
            let shown = settings_row_at(&cfg, &env(), row).unwrap();
            assert!(shown.current_idx < shown.options.len(), "{}", r.key);
        }
    }
}

#[test]
fn a_choice_changes_its_own_row_alone_and_once() {
    let shown = |c: &AppConfig| {
        let mut v: Vec<(String, String, usize)> = Vec::new();
        for item in build_settings(c, &env()) {
            match item {
                SettingItem::Row(r) => {
                    v.push((r.key.to_string(), r.options.join("|"), r.current_idx));
                }
                SettingItem::TextRow(r) => v.push((r.key.to_string(), r.value.clone(), 0)),
                SettingItem::Section(_) => {}
            }
        }
        v
    };
    let n = settings_row_count(&AppConfig::default(), &env());
    for row in 0..n {
        let mut cfg = AppConfig::default();
        cfg.local_library_dir = "/music".into();
        let Some(r) = settings_row_at(&cfg, &env(), row) else { continue };
        if r.key == mixr::settings::RESET_ALL_KEY {
            continue;
        }
        for choice in 0..r.options.len() {
            let before = shown(&cfg);
            apply_setting(&mut cfg, r.key, choice, &env());
            let once = shown(&cfg);
            for (a, b) in before.iter().zip(once.iter()) {
                assert!(a == b || a.0 == r.key, "{} changed {}", r.key, a.0);
            }
            apply_setting(&mut cfg, r.key, choice, &env());
            assert_eq!(shown(&cfg), once);
        }
        apply_setting(&mut cfg, r.key, r.default_idx, &env());
        assert!(!settings_row_at(&cfg, &env(), row).unwrap().modified(), "{}", r.key);
    }
}

#[test]
fn the_limiter_is_handed_to_the_engine() {
    let mut cfg = AppConfig::default();
    let row = (0..settings_row_count(&cfg, &env()))
        .find(|i| {
            settings_row_at(&cfg, &env(), *i).map(|r| r.key == "master_limiter").unwrap_or(false)
        })
        .unwrap();
    let r = settings_row_at(&cfg, &env(), row).unwrap();
    let next = (r.current_idx + 1) % r.options.len();
    let (_, fx) = apply_and_sync_setting(&mut cfg, &env(), "master_limiter", next, true);
    assert_eq!(settings_row_at(&cfg, &env(), row).unwrap().current_idx, next);
    assert!(show(&fx).contains(&"SaveConfig".to_string()));
    let unknown = AppConfig::default();
    let mut c = AppConfig::default();
    apply_setting(&mut c, "no_such_setting", 1, &env());
    assert_eq!(c.master_limiter, unknown.master_limiter);
    assert!(!resync_all_engine_settings(&unknown).is_empty());
}

#[test]
fn transitions_stay_unique() {
    let mut c = AppConfig::default();
    toggle_transition(&mut c, "EchoOut", true);
    toggle_transition(&mut c, "EchoOut", true);
    assert_eq!(c.enabled_transitions.iter().filter(|t| *t == "EchoOut").count(), 1);
    toggle_transition(&mut c, "EchoOut", false);
    assert!(!c.enabled_transitions.iter().any(|t| t == "EchoOut"));
}

#[test]
fn setting_keys_are_distinct() {
    let items = build_settings(&AppConfig::default(), &env());
    let mut keys: Vec<&str> = items
        .iter()
        .filter_map(|i| match i {
            SettingItem::Row(r) => Some(r.key),
            SettingItem::TextRow(r) => Some(r.key),
            SettingItem::Section(_) => None,
        })
        .collect();
    let n = keys.len();
    keys.sort();
    keys.dedup();
    assert_eq!(keys.len(), n);
}

#[test]
fn chords_are_written_and_read_back() {
    for spec in ["ctrl+c", "alt+f4", "shift+p", "enter", "?", "pageup", "f12"] {
        let ev = parse_key_spec(spec).unwrap();
        let again = parse_key_spec(&Chord::of(&ev).to_spec()).unwrap();
        assert_eq!(Chord::of(&ev), Chord::of(&again), "{spec}");
    }
    let mut km = Keymap::empty();
    km.bind("x", "one");
    km.bind("X", "two");
    km.bind("x", "three");
    assert_eq!(km.binding_count(), 2);
    assert_eq!(km.resolve(&parse_key_spec("x").unwrap()), Some("three"));
    let mut cfg = AppConfig::default();
    cfg.global_keys = vec![("p".into(), "none".into()), ("j".into(), "engine.skip".into())];
    let km = Keymap::build(&cfg);
    assert_eq!(km.resolve(&parse_key_spec("p").unwrap()), None);
    assert_eq!(km.resolve(&parse_key_spec("j").unwrap()), Some("engine.skip"));
}

#[test]
fn commands_have_their_own_names() {
    let r = registry();
    let mut ids: Vec<&str> = r.all().iter().map(|c| c.id).collect();
    let n = ids.len();
    ids.sort();
    ids.dedup();
    assert_eq!(ids.len(), n);
    assert!(r.get("engine.skip").is_some());
    assert!(r.get("no.such").is_none());
}

#[test]
fn the_help_is_filtered() {
    let all = help_lines().len();
    let mut scroll = 0;
    let lines = render_help(40, "", &mut scroll);
    assert!(lines.len() >= all);
    let some = render_help(40, "METRONOME", &mut scroll);
    assert!(some.len() < 10);
    assert!(some.iter().any(|l| text(l).to_lowercase().contains("metronome")));
    assert_eq!(text(&lines[0]).trim_start().starts_with("filter:"), true);
}

#[test]
fn the_midi_screen_counts_what_is_bound() {
    let rows = vec![
        ActionRow { label: "Crossfader".into(), event: Some("CC 7".into()) },
        ActionRow { label: "Fader A".into(), event: None },
    ];
    let s = render_learn(&None, None, 9, &rows, &vec![("CC 7".into(), "Crossfader".into())]);
    assert_eq!(s.cursor, 1);
    assert_eq!(s.actions.len(), 2);
    assert_eq!(s.bindings_height, 8);
    assert!(s.captured.iter().any(|l| text(l).contains('1') && text(l).contains('2')));
    let actions = vec![Action::Crossfader, Action::ChannelFader { is_a: true }];
    assert_eq!(action_count(&actions), 2);
    assert_eq!(action_at(&actions, 1), Some(Action::ChannelFader { is_a: true }));
    assert_eq!(action_at(&actions, 2), None);
}

#[test]
fn the_screen_of_the_dj_shows_its_log() {
    let lines = render_claude_screen(&DjState::Missing, 0);
    assert!(text(&lines[0]).contains("not available"));
    let lines = render_claude_screen(&DjState::Busy, 0);
    assert_eq!(text(&lines[0]), "  (busy — try again in a moment)");
    let log = vec![LogEntry { entry_type: LogEntryType::Track, message: "queued Halo".into() }];
    let lines = render_claude_screen(&DjState::Ready { enabled: true, log }, 0);
    assert!(lines.iter().any(|l| text(l).contains("TRK") && text(l).contains("queued Halo")));
}

#[test]
fn key_distances_may_be_large() {
    let mut c = blank_condition();
    c.key_dist_lte = Some(1_000);
    assert_eq!(condition_value_str(&c, 4), "1000");
    set_condition_field(&mut c, 5);
    assert_eq!((c.key_dist_lte, c.key_dist_gte), (None, Some(1_000)));
    adjust_condition_value(&mut c, 5, 1);
    assert_eq!(c.key_dist_gte, Some(6));
}
