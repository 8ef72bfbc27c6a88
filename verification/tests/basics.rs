use mixr::blit::{color_to_rgba, rgb, HostPalette};
use mixr::boxes::{ps, render_two_col_box, ts};
use mixr::clicks::{ClickAction, ClickTarget};
use mixr::command::registry;
use mixr::config::AppConfig;
use mixr::help::help_lines;
use mixr::key::{KeyCode, KeyEvent, KeyModifiers};
use mixr::keymap::{parse_key_spec, Chord, Keymap};
use mixr::logs::{log_scroll_down, log_scroll_up};
use mixr::mixer::crossfader_position;
use mixr::modals::{route_confirm_key, ConfirmAction, ConfirmDecision};
use mixr::settings::{
    apply_setting, apply_text_setting, build_settings, SettingItem, SettingsEnv, RESET_ALL_KEY,
};
use mixr::settings_list::{
    render_settings, settings_row_at, settings_row_count, settings_row_entry_at, SettingsRowEntry,
};
use mixr::style::{Color, Line};
use mixr::theme::{project, Palette};
use mixr::update_check::{is_newer, UpdateCheck, REPO};
use mixr::usb_libraries::{
    detect_kind, StickKind, ENGINE_MARKERS, REKORDBOX_MARKERS,
};

fn env() -> SettingsEnv {
    SettingsEnv { devices: vec![], rubberband: false, timestretch: false, stratum: false }
}

#[test]
fn y_commits() {
    assert_eq!(route_confirm_key(KeyCode::Char('y')), ConfirmDecision::Commit);
    assert_eq!(route_confirm_key(KeyCode::Char('Y')), ConfirmDecision::Commit);
}

#[test]
fn n_cancels() {
    assert_eq!(route_confirm_key(KeyCode::Char('n')), ConfirmDecision::Cancel);
    assert_eq!(route_confirm_key(KeyCode::Char('N')), ConfirmDecision::Cancel);
}

#[test]
fn esc_cancels() {
    assert_eq!(route_confirm_key(KeyCode::Esc), ConfirmDecision::Cancel);
}

#[test]
fn other_keys_ignored() {
    for c in ['a', 'q', '0', ' ', '\t'] {
        assert_eq!(
            route_confirm_key(KeyCode::Char(c)),
            ConfirmDecision::Ignore,
            "key '{c}' must be ignored during pending confirm",
        );
    }
    assert_eq!(route_confirm_key(KeyCode::Enter), ConfirmDecision::Ignore);
}

#[test]
fn confirm_action_is_copy() {
    let a = ConfirmAction::ResetAllMixerControls;
    let b = a;
    assert_eq!(a, b);
}

#[test]
fn click_target_contains_inclusive_left_top_exclusive_right_bottom() {
    let t = ClickTarget::new(10, 5, 4, 2, ClickAction::SimulateKey(KeyCode::Esc));
    assert!(t.contains(10, 5));
    assert!(t.contains(13, 6));
    assert!(!t.contains(14, 5));
    assert!(!t.contains(10, 7));
    assert!(!t.contains(9, 5));
    assert!(!t.contains(10, 4));
}

#[test]
fn crossfader_range_maps_x_to_minus1_plus1() {
    let map = |click: u16, lo: u16, hi: u16| -> f64 {
        crossfader_position(click, lo, hi) as f64 / 1_000_000.0
    };
    assert_eq!(map(10, 10, 30), -1.0, "left edge → −1");
    assert_eq!(map(20, 10, 30), 0.0, "midpoint → 0");
    assert_eq!(map(30, 10, 30), 1.0, "right edge → +1");
    assert_eq!(map(5, 10, 30), -1.0);
    assert_eq!(map(40, 10, 30), 1.0);
}

#[test]
fn log_scroll_up_caps_at_1000() {
    assert_eq!(log_scroll_up(0), 1);
    assert_eq!(log_scroll_up(999), 1000);
    assert_eq!(log_scroll_up(1000), 1000, "must not exceed cap");
    assert_eq!(log_scroll_up(usize::MAX / 2), 1000, "extreme value still capped");
}

#[test]
fn log_scroll_down_saturates_at_zero() {
    assert_eq!(log_scroll_down(10), 9);
    assert_eq!(log_scroll_down(1), 0);
    assert_eq!(log_scroll_down(0), 0, "must not underflow at 0");
}

#[test]
fn log_scroll_round_trip_returns_to_start() {
    let start = 42_usize;
    assert_eq!(log_scroll_down(log_scroll_up(start)), start);
}

#[test]
fn click_target_with_zero_size_never_contains() {
    let t = ClickTarget::new(5, 5, 0, 0, ClickAction::SimulateKey(KeyCode::Esc));
    assert!(!t.contains(5, 5));
    assert!(!t.contains(4, 4));
}

#[test]
fn color_to_rgba_passthrough_without_palette() {
    assert_eq!(color_to_rgba(Color::Rgb(1, 2, 3), false, None), rgb(1, 2, 3));
    assert_eq!(color_to_rgba(Color::Reset, true, None), rgb(0x10, 0x11, 0x1c));
}

#[test]
fn color_to_rgba_remaps_role_colors_to_host_palette() {
    let p = HostPalette {
        bg: rgb(0x1e, 0x22, 0x2a),
        fg: rgb(0xab, 0xb2, 0xbf),
        accent: rgb(0x61, 0xaf, 0xef),
    };
    let pal = Some(p);
    assert_eq!(color_to_rgba(Color::Reset, true, pal), p.bg);
    assert_eq!(color_to_rgba(Color::Black, true, pal), p.bg);
    assert_eq!(color_to_rgba(Color::Reset, false, pal), p.fg);
    assert_eq!(color_to_rgba(Color::White, false, pal), p.fg);
    assert_eq!(color_to_rgba(Color::Gray, false, pal), p.fg);
    assert_eq!(color_to_rgba(Color::Green, false, pal), p.accent);
    assert_eq!(color_to_rgba(Color::Red, false, pal), rgb(0xe0, 0x60, 0x60));
    assert_eq!(color_to_rgba(Color::Cyan, false, pal), rgb(0x5f, 0xb3, 0xa1));
    assert_eq!(color_to_rgba(Color::Rgb(9, 9, 9), false, pal), rgb(9, 9, 9));
}

#[test]
fn two_col_box_rows_match_border_width() {
    for w in [40usize, 41, 58, 60, 61, 80, 119, 200] {
        for n in [0usize, 1, 3, 4, 7] {
            let items: Vec<(Color, String)> = (0..n)
                .map(|i| (Color::Green, format!("track {i} — a fairly long label here")))
                .collect();
            let overflow = (n > 0).then_some("… 3 more".to_string());
            let mut out: Vec<Line> = Vec::new();
            render_two_col_box(&mut out, "QUEUE (9) [q]", &items, &overflow, "Empty", w, false);
            assert!(!out.is_empty(), "w={w} n={n}: nothing rendered");
            for (row, line) in out.iter().enumerate() {
                let width = line.width().unwrap();
                assert_eq!(width, w, "w={w} n={n}: row {row} is {} cells, expected {w}", width);
            }
        }
    }
}

#[test]
fn ts_truncates_with_an_ellipsis() {
    assert_eq!(ts("hello", 10), "hello");
    let t = ts("hello world", 8);
    assert_eq!(t, "hello w\u{2026}");
    assert_eq!(t.chars().count(), 8);
    assert_eq!(ts("anything", 2), "");
}

#[test]
fn ps_pads_or_truncates_to_exact_width() {
    assert_eq!(ps("ab", 5), "ab   ");
    assert_eq!(ps("abcdef", 3), "abc");
    assert_eq!(ps("ab", 2), "ab");
    assert_eq!(ps("\u{273d}\u{273d}", 5).chars().count(), 5);
}

#[test]
fn parses_modified_and_named() {
    let e = parse_key_spec("ctrl+c").unwrap();
    assert_eq!(e.code, KeyCode::Char('c'));
    assert!(e.modifiers.ctrl);
    assert_eq!(parse_key_spec("enter").unwrap().code, KeyCode::Enter);
    assert_eq!(parse_key_spec("?").unwrap().code, KeyCode::Char('?'));
    assert!(parse_key_spec("nope-not-a-key").is_none());
}

#[test]
fn chord_normalizes_uppercase_char() {
    let a = Chord::of(&KeyEvent::new(KeyCode::Char('P'), KeyModifiers::none()));
    let mut shift = KeyModifiers::none();
    shift.shift = true;
    let b = Chord::of(&KeyEvent::new(KeyCode::Char('p'), shift));
    assert_eq!(a, b);
}

#[test]
fn default_keymap_resolves_migrated_chords() {
    let km = Keymap::build(&AppConfig::default());
    let ev = |s: &str| parse_key_spec(s).unwrap();
    assert_eq!(km.resolve(&ev("?")), Some("view.help"));
    assert_eq!(km.resolve(&ev("d")), Some("view.dashboard"));
    assert_eq!(km.resolve(&ev("b")), Some("view.browse"));
    assert_eq!(km.resolve(&ev("h")), Some("view.history"));
    assert_eq!(km.resolve(&ev(",")), Some("view.settings"));
    assert_eq!(km.resolve(&ev("q")), Some("view.queue"));
    assert_eq!(km.resolve(&ev("p")), Some("engine.pause"));
    assert_eq!(km.resolve(&ev("m")), Some("engine.mix_now"));
}

#[test]
fn every_migrated_command_has_a_help_row() {
    let lines = help_lines();
    for cmd in registry().all() {
        if cmd.keys.is_empty() {
            continue;
        }
        let expected = cmd.keys.join(" / ");
        let present = lines.iter().any(|(k, _)| k == &expected);
        assert!(present, "{:?} (keys {:?}) missing: {:?}", cmd.id, cmd.keys, expected);
    }
}

#[test]
fn text_rows_appear_in_library_section() {
    let cfg = AppConfig::default();
    let items = build_settings(&cfg, &env());
    let lib_idx = items.iter().position(|i| matches!(i, SettingItem::Section("Library")));
    assert!(lib_idx.is_some(), "Library section missing");
    let after_lib = &items[lib_idx.unwrap()..];
    let has_text_row = after_lib
        .iter()
        .any(|i| matches!(i, SettingItem::TextRow(r) if r.key == "local_library_dir"));
    assert!(has_text_row, "local_library_dir TextRow missing");
}

#[test]
fn apply_text_setting_updates_local_library_dir() {
    let mut cfg = AppConfig::default();
    assert_eq!(cfg.local_library_dir, "");
    let result = apply_text_setting(&mut cfg, "local_library_dir", "/Users/test/Music".into());
    assert!(result.is_none(), "no engine-resync key expected");
    assert_eq!(cfg.local_library_dir, "/Users/test/Music");
}

#[test]
fn settings_row_count_includes_text_rows() {
    let cfg = AppConfig::default();
    let count = settings_row_count(&cfg, &env());
    let entry_count =
        (0..count).filter_map(|i| settings_row_entry_at(&cfg, &env(), i)).count();
    assert_eq!(count, entry_count, "row count vs entry iteration mismatch");
    let any_text = (0..count).any(|i| {
        matches!(settings_row_entry_at(&cfg, &env(), i), Some(SettingsRowEntry::Text(_)))
    });
    assert!(any_text, "expected at least one TextRow in the new schema");
}

#[test]
fn build_settings_has_sections_and_reset() {
    let cfg = AppConfig::default();
    let items = build_settings(&cfg, &env());
    assert!(items.iter().any(|i| matches!(i, SettingItem::Section(_))));
    let reset = items.iter().find_map(|i| match i {
        SettingItem::Row(r) if r.key == RESET_ALL_KEY => Some(r),
        _ => None,
    });
    assert!(reset.is_some(), "reset sentinel row missing");
}

#[test]
fn focused_row_stays_visible_when_past_visible_area() {
    let cfg = AppConfig::default();
    let last_row = settings_row_count(&cfg, &env()).saturating_sub(1);
    assert!(last_row > 6, "test assumes more rows than the test area");
    let lines = render_settings(80, 6, &cfg, &env(), last_row, &None);
    assert!(lines.len() <= 6);
    let found_marker = lines
        .iter()
        .any(|l| l.spans.iter().any(|s| s.text.contains('▸')));
    assert!(found_marker, "focus marker ▸ should be visible after scrolling");
}

#[test]
fn modified_marker_lights_on_change() {
    let mut cfg = AppConfig::default();
    let pre = settings_row_at(&cfg, &env(), 0).unwrap();
    let pre_modified = pre.modified();
    let n = pre.options.len();
    if n > 1 {
        let next = (pre.current_idx + 1) % n;
        apply_setting(&mut cfg, pre.key, next, &env());
        let post = settings_row_at(&cfg, &env(), 0).unwrap();
        assert!(pre_modified != post.modified());
    }
}

#[test]
fn settings_row_count_excludes_sections() {
    let cfg = AppConfig::default();
    let total = build_settings(&cfg, &env()).len();
    let rows = settings_row_count(&cfg, &env());
    assert!(rows < total, "rows should be fewer than total (sections exist)");
}

#[test]
fn apply_setting_by_key_updates_ai_flags() {
    let mut cfg = AppConfig { ai_beat_detection: false, ..Default::default() };
    let result = apply_setting(&mut cfg, "ai_beat_detection", 1, &env());
    assert!(cfg.ai_beat_detection);
    assert!(result.is_none());

    let result = apply_setting(&mut cfg, "ai_beat_detection", 0, &env());
    assert!(!cfg.ai_beat_detection);
    assert!(result.is_none());
}

#[test]
fn project_reads_base30_and_falls_back() {
    let src = "\
name = \"onedark\"\n\
[base_30]\n\
white = \"#abb2bf\"\n\
one_bg = \"#282c34\"\n\
light_grey = \"#80848d\"\n\
blue = \"#61afef\"\n\
[base_16]\n\
base00 = \"#1e222a\"\n";
    let p = project(src);
    assert_eq!(p.fg, rgb(0xab, 0xb2, 0xbf));
    assert_eq!(p.bg, rgb(0x28, 0x2c, 0x34));
    assert_eq!(p.dim, rgb(0x80, 0x84, 0x8d));
    assert_eq!(p.accent, rgb(0x61, 0xaf, 0xef));
    assert_eq!(p.red, Palette::defaults().red);
}

#[test]
fn release_url_format() {
    assert_eq!(
        UpdateCheck::release_url("0.1.3"),
        format!("https://github.com/{REPO}/releases/tag/v0.1.3")
    );
}

#[test]
fn take_pending_announcement_one_shot() {
    let mut uc = UpdateCheck { latest_version: Some("9.0.0".into()), announced: false };
    assert_eq!(uc.take_pending_announcement().as_deref(), Some("9.0.0"));
    assert!(uc.take_pending_announcement().is_none());
}

#[test]
fn is_newer_compares_semver_not_lexicographically() {
    assert!(is_newer("0.1.10", "0.1.9"));
    assert!(!is_newer("0.1.9", "0.1.10"));
    assert!(!is_newer("0.1.3", "0.1.3"));
    assert!(!is_newer("0.1.2", "0.1.4"));
    assert!(is_newer("1.0.0", "0.99.0"));
    assert!(is_newer("0.2.0", "0.1.99"));
    assert!(is_newer("v0.2.0", "0.1.0"));
    assert!(is_newer("0.2.0", "v0.1.0"));
    assert!(!is_newer("nightly", "0.1.0"));
    assert!(!is_newer("", "0.1.0"));
    assert!(!is_newer("0.1.3-beta", "0.1.3"));
    assert!(!is_newer("0.1", "0.1.0"));
    assert!(is_newer("0.2", "0.1.99"));
}

#[test]
fn stick_kind_labels() {
    assert_eq!(StickKind::EngineDj.label(), "Engine DJ");
    assert_eq!(StickKind::Rekordbox.label(), "Rekordbox");
}

fn kind_with(files: &[&str]) -> Option<StickKind> {
    let engine: Vec<bool> = ENGINE_MARKERS.iter().map(|m| files.contains(m)).collect();
    let rekordbox: Vec<bool> = REKORDBOX_MARKERS.iter().map(|m| files.contains(m)).collect();
    detect_kind(&engine, &rekordbox)
}

#[test]
fn a_disk_without_markers_is_no_stick() {
    assert_eq!(kind_with(&[]), None, "empty dir is not a DJ stick");
}

#[test]
fn an_engine_database_marks_an_engine_stick() {
    assert_eq!(kind_with(&["Engine Library/Database2/m.db"]), Some(StickKind::EngineDj));
    assert_eq!(kind_with(&["m.db", "PIONEER/USBANLZ"]), Some(StickKind::EngineDj));
}

#[test]
fn a_rekordbox_export_marks_a_rekordbox_stick() {
    assert_eq!(kind_with(&["PIONEER/rekordbox/export.pdb"]), Some(StickKind::Rekordbox));
}
