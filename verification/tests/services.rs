use mixr::blit::{
    compute_runs, modifier_to_bits, reported_cursor, wire_cell, BlitState, DiffRun, WireCell,
};
use mixr::clock::{new_playlist_name, playlist_name};
use mixr::download::{
    corrected_beat, corrected_bpm, decoder_for, phrase_type_of, refined_beat, short_name,
    PhraseType,
};
use mixr::effects::{Effect, TextAct};
use mixr::key::{KeyCode, KeyEvent, KeyModifiers};
use mixr::logs::{log_lines, log_start, log_window, LogCache};
use mixr::mouse::MouseKind;
use mixr::pipeline::{preview_take, Event, Job, Message, Stage};
use mixr::requests::{
    add_track_to_cart, cart_reply, created_reply, dj_reply, download_for_preview, open_playlist_picker,
    playlist_reply, Created, DjReply,
};
use mixr::startup::{command_written, prompt_command_of, submit_checked, submit_command_prompt};
use mixr::style::{Color, Modifier};
use mixr::theme::{palette, parse_hex, state, theme_path};
use mixr::toast::Toast;
use mixr::track::Track;
use mixr::update_check::{is_newer, latest_tag, version_of_tag, UpdateCheck};
use mixr::usb_libraries::{
    detected_sticks, mount_roots, Platform, StickCache, StickEntry, StickKind,
};
use mixr::wire_input::{
    key_event, mouse_event, quits, WireButton, WireKeyCode, WireMods, WireMouse,
};

fn track(id: i64, artist: &str, title: &str) -> Track {
    Track {
        id,
        artist: artist.into(),
        title: title.into(),
        remixers: vec![],
        duration: "6:00".into(),
        bpm: None,
        key: None,
        label_name: None,
        genre_name: None,
        release_date: None,
        artists: vec![],
        remixer_links: vec![],
        label_id: None,
        genre_id: None,
        genre_slug: None,
        release_id: None,
    }
}

fn toasts(fx: &[Effect]) -> Vec<(String, u64)> {
    fx.iter()
        .filter_map(|e| match e {
            Effect::Toast(s, ms) => Some((s.clone(), *ms)),
            _ => None,
        })
        .collect()
}

fn said(v: &[Message]) -> Vec<String> {
    v.iter()
        .map(|m| match m {
            Message::Toast(s) => format!("toast {s}"),
            Message::Failed(s) => format!("failed {s}"),
            Message::Decoded => "decoded".to_string(),
            Message::PreviewReady => "preview".to_string(),
        })
        .collect()
}

#[test]
fn a_job_runs_through_its_stages() {
    let (mut job, v) = Job::start("Orbit - Halo", false, true, true, true);
    assert_eq!(said(&v), vec!["toast ⬇ Orbit - Halo"]);
    assert_eq!(
        said(&job.take(Event::Source { file: true })),
        vec!["toast ⬇ Orbit - Halo (FLAC)"]
    );
    assert_eq!(
        said(&job.take(Event::Downloaded { bytes: 5_000_000, tenths: 37 })),
        vec!["toast Analyzing Orbit - Halo (4882KB in 3.7s)"]
    );
    assert_eq!(
        said(&job.take(Event::Analysis { first_us: 100_000, bpm: 128_000, phrases: 4 })),
        vec!["toast AI analysis: Orbit - Halo"]
    );
    assert_eq!(job.stage, Stage::Beat);
    assert!(job.take(Event::Beat(100_900)).is_empty());
    assert_eq!(job.first_us, 100_000);
    assert_eq!(job.stage, Stage::Grid);
    assert!(job.take(Event::Grid { first: Some(-4_000), bpm: Some(128_050) }).is_empty());
    assert_eq!(job.first_us, 96_000);
    assert_eq!(job.bpm, 128_000);
    assert_eq!(said(&job.take(Event::Phrases(4))), vec!["decoded"]);
    assert!(job.detected);
    assert_eq!(job.stage, Stage::Done);
    assert!(job.take(Event::Phrases(9)).is_empty());
}

#[test]
fn a_local_file_skips_the_download() {
    let (mut job, v) = Job::start("Halo", true, false, false, false);
    assert_eq!(said(&v), vec!["toast ⬇ Halo", "toast 📂 Halo (LOCAL)"]);
    job.take(Event::Read { bytes: 2048, tenths: 1 });
    assert_eq!(
        said(&job.take(Event::Analysis { first_us: 0, bpm: 120_000, phrases: 0 })),
        vec!["decoded"]
    );
}

#[test]
fn failures_end_a_job() {
    let fails = |local: bool, ev: Event| {
        let (mut job, _) = Job::start("Halo", local, false, false, false);
        let v = job.take(ev);
        assert_eq!(job.stage, Stage::Done);
        said(&v)
    };
    assert_eq!(fails(true, Event::ReadFailed("gone".into())), vec!["failed Local file read: gone"]);
    assert_eq!(fails(true, Event::ReadLost("x".into())), vec!["failed Task panicked: x"]);
    assert_eq!(fails(false, Event::SourceFailed("403".into())), vec!["failed Source error: 403"]);
    let (mut job, _) = Job::start("Halo", false, false, false, false);
    job.take(Event::Source { file: false });
    assert_eq!(said(&job.take(Event::DownloadFailed("eof".into()))), vec!["failed Download: eof"]);
    let (mut job, _) = Job::start("Halo", true, false, false, false);
    job.take(Event::Read { bytes: 0, tenths: 0 });
    assert_eq!(said(&job.take(Event::AnalysisFailed("bad".into()))), vec!["failed Analysis: bad"]);
    let (mut job, _) = Job::start("Halo", true, false, false, false);
    job.take(Event::Read { bytes: 0, tenths: 0 });
    assert_eq!(said(&job.take(Event::AnalysisLost("x".into()))), vec!["failed Task: x"]);
}

#[test]
fn a_preview_is_lighter() {
    let (s, v) = preview_take(Stage::Sourcing, &Event::Source { file: true });
    assert_eq!(s, Stage::Downloading);
    assert!(v.is_empty());
    let (s, v) = preview_take(s, &Event::Downloaded { bytes: 1, tenths: 1 });
    assert_eq!(s, Stage::Analyzing);
    assert!(v.is_empty());
    let (s, v) = preview_take(s, &Event::Analysis { first_us: 0, bpm: 0, phrases: 0 });
    assert_eq!(s, Stage::Done);
    assert_eq!(said(&v), vec!["preview"]);
    let (_, v) = preview_take(Stage::Reading, &Event::ReadLost("x".into()));
    assert!(v.is_empty());
    let (_, v) = preview_take(Stage::Reading, &Event::ReadFailed("x".into()));
    assert_eq!(said(&v), vec!["toast Local read: x"]);
    let (_, v) = preview_take(Stage::Downloading, &Event::DownloadFailed("x".into()));
    assert_eq!(said(&v), vec!["toast Download failed: x"]);
    let (_, v) = preview_take(Stage::Analyzing, &Event::AnalysisLost("x".into()));
    assert_eq!(said(&v), vec!["toast Task failed: x"]);
}

#[test]
fn corrections_have_thresholds() {
    assert_eq!(refined_beat(1_000_000, 1_001_000), 1_000_000);
    assert_eq!(refined_beat(1_000_000, 1_001_001), 1_001_001);
    assert_eq!(corrected_beat(500, Some(3_000)), 500);
    assert_eq!(corrected_beat(500, Some(3_001)), 3_501);
    assert_eq!(corrected_bpm(128_000, Some(128_100)), 128_000);
    assert_eq!(corrected_bpm(128_000, Some(127_899)), 127_899);
    assert_eq!(phrase_type_of("outro"), PhraseType::Outro);
    assert_eq!(phrase_type_of("verse"), PhraseType::Drop);
    assert_eq!(decoder_for(&Some("OPUS".into())), "ogg");
    assert_eq!(decoder_for(&Some("xyz".into())), "flac");
    assert_eq!(decoder_for(&None), "flac");
}

#[test]
fn long_names_are_shortened() {
    assert_eq!(short_name(&track(1, "Orbit", "Halo")), "Orbit - Halo");
    let long = track(1, "A", &"x".repeat(60));
    assert_eq!(short_name(&long), format!("A - {}...", "x".repeat(33)));
}

#[test]
fn requests_need_an_account() {
    let (go, fx) = open_playlist_picker(false);
    assert!(!go);
    assert_eq!(toasts(&fx), vec![("Not authenticated".to_string(), 2000)]);
    let (go, fx) = open_playlist_picker(true);
    assert!(go);
    assert_eq!(toasts(&fx), vec![("Loading playlists...".to_string(), 2000)]);
    let (go, fx) = add_track_to_cart(false);
    assert!(!go);
    assert_eq!(toasts(&fx), vec![("Not authenticated".to_string(), 2000)]);
    let (go, fx) = add_track_to_cart(true);
    assert!(go && fx.is_empty());
    let (_, fx) = download_for_preview(true, &track(1, "Orbit", "Halo"));
    assert_eq!(toasts(&fx), vec![("Loading preview: Orbit - Halo".to_string(), 2000)]);
}

#[test]
fn replies_say_what_happened() {
    let t = track(1, "Orbit", "Halo");
    let e = Some("offline".to_string());
    assert_eq!(cart_reply(&t, &None), "🛒 Added to cart: Orbit - Halo");
    assert_eq!(cart_reply(&t, &e), "Cart add failed: offline");
    assert_eq!(playlist_reply("Friday", &None), "Added to Friday");
    assert_eq!(playlist_reply("Friday", &e), "Error: offline");
    assert_eq!(created_reply("Friday", &Created::Both), "Created 'Friday' and added track");
    assert_eq!(
        created_reply("Friday", &Created::AddFailed("x".into())),
        "Created playlist but add failed: x"
    );
    assert_eq!(
        created_reply("Friday", &Created::CreateFailed("x".into())),
        "Create playlist failed: x"
    );
    assert!(matches!(dj_reply(2, &None), DjReply::RunTools));
    assert!(matches!(dj_reply(0, &None), DjReply::Finished));
    assert!(matches!(dj_reply(2, &e), DjReply::Say(s) if s == "DJ error: offline"));
}

#[test]
fn only_json_is_written_to_the_command_file() {
    let fx = submit_command_prompt("{\"cmd\": \"skip\"}", "");
    assert!(matches!(&fx[0], Effect::With(TextAct::WriteCommand, s) if s == "{\"cmd\": \"skip\"}"));
    let fx = submit_command_prompt("skip", "{\"cmd\":\"skip\"}");
    assert!(matches!(&fx[0], Effect::With(TextAct::WriteCommand, s) if s == "{\"cmd\":\"skip\"}"));
    let fx = submit_command_prompt("{oops", "{\"cmd\":\"skip\"}");
    assert_eq!(toasts(&fx), vec![("Bad command: {oops".to_string(), 2000)]);
    assert_eq!(prompt_command_of("  {a", "b"), "  {a");
    assert_eq!(prompt_command_of("a", "b"), "b");
    assert_eq!(toasts(&submit_checked("x", "y", false)).len(), 1);
    assert_eq!(toasts(&command_written("skip", &None)), vec![(":skip".to_string(), 1000)]);
    assert_eq!(
        toasts(&command_written("skip", &Some("full".into()))),
        vec![("Command write failed: full".to_string(), 2000)]
    );
}

#[test]
fn the_tag_of_a_release_is_read() {
    assert_eq!(latest_tag("{\"tag_name\": \"v0.3.1\"}").as_deref(), Some("0.3.1"));
    assert_eq!(latest_tag("{\"name\": \"v0.3.1\"}"), None);
    assert_eq!(latest_tag("{\"tag_name\": 3}"), None);
    assert_eq!(latest_tag("not json"), None);
    assert_eq!(version_of_tag(&Some("vv1".into())).as_deref(), Some("1"));
    let mut u = UpdateCheck::new();
    u.found("0.1.0".into(), "0.2.0");
    assert!(u.take_pending_announcement().is_none());
    u.found("0.3.0".into(), "0.2.0");
    assert_eq!(u.take_pending_announcement().as_deref(), Some("0.3.0"));
}

#[test]
fn a_new_playlist_is_named_after_the_time() {
    let name = new_playlist_name();
    assert!(name.starts_with("mixr "));
    // 12:34 05/06
    assert_eq!(name.len(), "mixr 12:34 05/06".len());
    assert_eq!(name.as_bytes()[7], b':');
    assert_eq!(name.as_bytes()[13], b'/');
    assert_eq!(playlist_name("x"), "mixr x");
}

#[test]
fn a_log_is_read_from_its_end() {
    let lines = log_lines("2024 [INFO] one\r\n\nplain\n2024 [WARN] two");
    assert_eq!(lines, vec!["one", "plain", "two"]);
    assert_eq!(log_window(&lines, 2, 0), vec!["plain", "two"]);
    assert_eq!(log_window(&lines, 2, 1), vec!["one", "plain"]);
    assert!(log_window(&lines, 2, 9).is_empty());
    assert_eq!(log_start(70_000), 70_000 - 65_536);
    assert_eq!(log_start(10), 0);
    let mut c = LogCache::new();
    assert!(c.should_stat(1000));
    assert!(!c.should_stat(1499));
    assert!(c.should_stat(1500));
    assert!(c.is_stale(7));
    c.refill(7, "[x] a\n");
    assert!(!c.is_stale(7));
    assert_eq!(c.lines, vec!["a"]);
}

#[test]
fn a_toast_goes_away() {
    let mut t = Toast::new();
    assert!(t.current(0).is_none());
    t.show("hi", 1000, 500);
    assert_eq!(t.current(1499).as_deref(), Some("hi"));
    assert_eq!(t.peek(1499), Some("hi"));
    assert!(t.current(1500).is_none());
    // Once gone it stays gone, even if the clock went back.
    assert!(t.current(600).is_none());
}

#[test]
fn themes_are_found_and_read() {
    assert_eq!(
        theme_path(&Some("/x".into()), &Some("/h".into())).as_deref(),
        Some("/x/mnml/current-theme.toml")
    );
    assert_eq!(
        theme_path(&Some("".into()), &Some("/h".into())).as_deref(),
        Some("/h/.config/mnml/current-theme.toml")
    );
    assert_eq!(theme_path(&None, &None), None);
    assert_eq!(parse_hex("#0a0B0c"), Some((10, 11, 12)));
    assert_eq!(parse_hex("0a0b0c"), None);
    assert_eq!(parse_hex("#0a0b0"), None);
    let mut s = state();
    assert!(palette(&s).is_none());
    assert!(!s.is_stale(None));
    assert!(s.is_stale(Some(4)));
    s.reload(Some(4), &Some("[base_30]\nwhite = \"#010203\"\n".into()));
    assert!(!s.is_stale(Some(4)));
    assert_eq!(palette(&s).unwrap().fg, mixr::blit::rgb(1, 2, 3));
    s.reload(None, &None);
    assert!(palette(&s).is_none());
}

#[test]
fn sticks_are_scanned_every_two_seconds() {
    let mut c = StickCache::new();
    assert!(c.is_stale(0));
    let found = vec![StickEntry { mount: "/media/a".into(), kind: StickKind::Rekordbox }];
    let v = detected_sticks(&mut c, 100, Some(found));
    assert_eq!(v.len(), 1);
    assert!(!c.is_stale(2_099));
    assert_eq!(detected_sticks(&mut c, 2_000, Some(vec![])).len(), 1);
    assert_eq!(detected_sticks(&mut c, 2_100, Some(vec![])).len(), 0);
    assert_eq!(
        mount_roots(Platform::Linux, "dj"),
        vec!["/media/dj", "/run/media/dj", "/media", "/mnt"]
    );
    let drives = mount_roots(Platform::Windows, "dj");
    assert_eq!(drives.len(), 23);
    assert_eq!(drives[0], "D:\\");
    assert_eq!(drives[22], "Z:\\");
    assert_eq!(mount_roots(Platform::MacOs, "dj"), vec!["/Volumes"]);
    assert!(mount_roots(Platform::Other, "dj").is_empty());
}

fn cell(ch: char) -> WireCell {
    wire_cell(&ch.to_string(), Color::White, Color::Black, Modifier::none(), None)
}

fn patch(grid: &mut Vec<WireCell>, runs: &[DiffRun]) {
    for r in runs {
        for (k, c) in r.cells.iter().enumerate() {
            grid[r.start as usize + k] = *c;
        }
    }
}

#[test]
fn runs_rebuild_the_grid() {
    let prev: Vec<WireCell> = (0..100).map(|_| cell('.')).collect();
    let mut cur = prev.clone();
    cur[3] = cell('a');
    cur[6] = cell('b');
    cur[40] = cell('c');
    let runs = compute_runs(&prev, &cur);
    // The first two changes are close enough to share a run.
    assert_eq!(runs.len(), 2);
    assert_eq!(runs[0].start, 3);
    assert_eq!(runs[0].cells.len(), 4);
    let mut shown = prev.clone();
    patch(&mut shown, &runs);
    assert!(shown == cur);
    assert!(compute_runs(&cur, &cur).is_empty());
    // Mostly changed: the whole grid is sent.
    let all: Vec<WireCell> = (0..100).map(|_| cell('x')).collect();
    let runs = compute_runs(&prev, &all);
    assert_eq!(runs.len(), 1);
    assert_eq!(runs[0].cells.len(), 100);
}

#[test]
fn frames_are_numbered_and_whole_after_a_resize() {
    assert!(BlitState::new(0, 4).is_none());
    let mut b = BlitState::new(2, 1).unwrap();
    let f = b.next_frame(vec![cell('a'), cell('b')], (2, 1), None);
    assert_eq!((f.seq, f.cols, f.rows, f.cursor_visible), (0, 2, 1, 0));
    assert_eq!(f.runs[0].cells.len(), 2);
    let f = b.next_frame(vec![cell('a'), cell('b')], (2, 1), Some((1, 0)));
    assert_eq!((f.seq, f.cursor_col, f.cursor_visible), (1, 1, 1));
    assert!(f.runs.is_empty());
    assert!(!b.resize(Some((2, 1))));
    assert!(!b.resize(Some((0, 5))));
    assert!(b.resize(Some((1, 1))));
    let f = b.next_frame(vec![cell('a')], (1, 1), None);
    assert_eq!(f.runs[0].cells.len(), 1);
}

#[test]
fn cursors_and_attributes_go_over_the_wire() {
    assert_eq!(reported_cursor(Some((65535, 65535))), None);
    assert_eq!(reported_cursor(Some((3, 65535))), Some((3, 65535)));
    let mut m = Modifier::none();
    m.bold = true;
    m.italic = true;
    m.reversed = true;
    assert_eq!(modifier_to_bits(m), 1 + 4 + 16);
    assert_eq!(cell('é').ch, 'é' as u32);
    assert_eq!(wire_cell("", Color::White, Color::Black, Modifier::none(), None).ch, ' ' as u32);
}

#[test]
fn host_input_becomes_keys_and_clicks() {
    let ctrl = WireMods { shift: false, ctrl: true, alt: false, logo: false };
    let k = key_event(WireKeyCode::Char('c'), ctrl);
    assert!(quits(&k));
    assert!(!quits(&KeyEvent::new(KeyCode::Char('c'), KeyModifiers::none())));
    assert_eq!(key_event(WireKeyCode::F(5), ctrl).code, KeyCode::F(5));
    assert_eq!(key_event(WireKeyCode::PageDown, ctrl).code, KeyCode::PageDown);
    let none = WireMods { shift: false, ctrl: false, alt: false, logo: false };
    let m = mouse_event(WireMouse::Down, WireButton::Unknown, 4, 5, none);
    assert!(matches!(m.kind, MouseKind::LeftDown));
    assert_eq!((m.column, m.row), (4, 5));
    let m = mouse_event(WireMouse::Down, WireButton::Right, 4, 5, none);
    assert!(matches!(m.kind, MouseKind::RightDown));
    let m = mouse_event(WireMouse::Drag, WireButton::Middle, 4, 5, none);
    assert!(matches!(m.kind, MouseKind::Other));
    let m = mouse_event(WireMouse::ScrollUp, WireButton::Left, 4, 5, none);
    assert!(matches!(m.kind, MouseKind::ScrollUp));
}

#[test]
fn what_does_not_parse_is_never_newer() {
    assert!(!is_newer("0.2.x", "0.1.0"));
    assert!(!is_newer("0.x", "0.0.1"));
    assert!(!is_newer("0.2.", "0.1.0"));
    assert!(!is_newer("0.2.0", "0.1.y"));
    // Only the first three numbers count, and missing ones are zero.
    assert!(is_newer("0.2.0.x", "0.1.0"));
    assert!(is_newer("1", "0.9.9"));
}
