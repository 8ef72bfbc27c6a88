use mixr::actions::{take_place, AppAction, Decoded, Page};
use mixr::app::{App, KeyEnv};
use mixr::catalog::{folder_track_list_title, recursive_title, BrowseScreen, Genre, Items, MenuAction};
use mixr::clicks::{ClickAction, ClickTarget};
use mixr::config::{AppConfig, AudioQuality, ClaudeDjMode};
use mixr::deck::{Deck, HistoryEntry, NowPlaying};
use mixr::dispatch::{bail_reply, metronome_reply, rewind_reply, split_cue_reply, RewindOutcome};
use mixr::dj_app::{
    play_reply, preview_reply, queued_reply, seek_reply, toggle_claude_dj, transition_reply,
};
use mixr::dj_context::{alignment_reply, trigger_context, Alignment};
use mixr::dj_tools::{Answer, ToolCall};
use mixr::effects::Effect;
use mixr::inputs::ViewMode;
use mixr::menus::{
    browser_app_of, empty_page, import_failed, opened, page_str, source_title, start_segment,
    CliArgs, MenuPlan, Source,
};
use mixr::modals::resume_start_ms;
use mixr::nav::BrowseStep;
use mixr::overlay_keys::LearnEnv;
use mixr::paths::{test_mix_tick, TestMixEnv, TestMixState};
use mixr::ratings::{rate_entry_at, rate_history_entry, rate_last, sync_mixes, DjMemory, HistoryMix, MixEntry};
use mixr::remote::{key_of_name, layout_rows, IpcCommand, RemoteEnv};
use mixr::remote_deck::{
    export_reply, favorite_reply, queue_all_reply, queued_toast, resume_auto_reply,
    run_deck_command, transition_toast, DeckCommand,
};
use mixr::requests::search_reply;
use mixr::rules::RuleConfig;
use mixr::search_guard::{refusal_reply, refuse_search, Refusal};
use mixr::settings::SettingsEnv;
use mixr::ticks::{
    capture_midi, dj_tick, focus_name, view_name, DjWatch, EngineEvent, TickEnv, TickState, Timers,
};
use mixr::track::{Named, Track};
use mixr::usb_libraries::{stick_file, stick_kind_at, StickEntry, StickFile, StickKind};

fn track(id: i64, artist: &str, title: &str, bpm: u32, key: &str) -> Track {
    Track {
        id,
        artist: artist.into(),
        title: title.into(),
        remixers: vec![],
        duration: "6:00".into(),
        bpm: Some(bpm),
        key: Some(key.into()),
        label_name: None,
        genre_name: None,
        release_date: None,
        artists: vec![],
        remixer_links: vec![],
        label_id: None,
        genre_id: None,
        genre_slug: None,
        release_id: None,
    }
}

fn deck() -> Deck {
    Deck {
        track: None,
        bpm: None,
        time_ms: 0,
        duration_ms: 0,
        is_playing: false,
        kick: false,
        beat: 0,
        rate: 0,
        level: 0,
        fader: 1000,
        eq_low: 0,
        eq_mid: 0,
        eq_high: 0,
        filter: 0,
        loop_active: false,
        cues: [false; 4],
        analysis: None,
    }
}

fn idle() -> NowPlaying {
    NowPlaying {
        deck_a: deck(),
        deck_b: deck(),
        playing_track: None,
        incoming_track: None,
        playing_bpm: None,
        incoming_bpm: None,
        playing_time_ms: 0,
        playing_duration_ms: 0,
        playing_is_a: true,
        state_name: "Idle".into(),
        crossfading: false,
        crossfade_progress: 0,
        transition_type_name: String::new(),
        transition_bars: 0,
        fader_sweep: 0,
        crossfader_pos: 0,
        crossfader_visual: 500_000,
        phase_us: 0,
        downbeat_aligned: false,
        mix_point_ms: None,
        jump_bars: 4,
        queue: vec![],
        history: vec![],
        session_time_min: 0,
    }
}

fn menu(title: &str, labels: &[&str]) -> BrowseScreen {
    BrowseScreen {
        title: title.into(),
        labels: labels.iter().map(|l| l.to_string()).collect(),
        items: Items::Menu(labels.iter().map(|l| MenuAction::Load(l.to_string())).collect()),
    }
}

fn list(title: &str, tracks: Vec<Track>) -> BrowseScreen {
    BrowseScreen {
        title: title.into(),
        labels: tracks.iter().map(|t| t.name()).collect(),
        items: Items::Tracks(tracks),
    }
}

fn halo() -> Track {
    track(1, "Orbit", "Halo", 124_000, "8A")
}

fn drift() -> Track {
    track(2, "Nova", "Drift", 128_000, "9A")
}

fn app() -> App {
    App::new(AppConfig::default(), menu("Beatport", &["Genres", "Discover"]))
}

fn listing() -> App {
    let mut a = app();
    a.nav.push_screen(list("Top", vec![halo(), drift()]));
    a
}

fn keys() -> KeyEnv {
    KeyEnv {
        signed_in: true,
        settings: SettingsEnv {
            devices: vec![],
            rubberband: false,
            timestretch: false,
            stratum: false,
        },
        learn: LearnEnv { has_midi: false, latest: None, actions: 3, picked: None },
        shown: vec![],
        shown_erased: 0,
    }
}

fn show(fx: &[Effect]) -> Vec<String> {
    fx.iter()
        .map(|e| match e {
            Effect::Toast(s, ms) => format!("{s} ({ms})"),
            Effect::Do(a) => format!("{a:?}"),
            Effect::With(t, s) => format!("{t:?} {s}"),
        })
        .collect()
}

fn remote(a: &mut App, cmd: IpcCommand, info: &NowPlaying) -> Vec<String> {
    let env = RemoteEnv { profiling: false, mixed: false, dj: DjMemory::Ready };
    let defaults = RuleConfig { rules: vec![], default: "BeatMatched".into() };
    show(&a.handle_ipc_command(cmd, &env, &keys(), info, defaults).effects)
}

fn tool(name: &str) -> ToolCall {
    ToolCall { id: "1".into(), name: name.into(), texts: vec![], ints: vec![], numbers: vec![] }
}

fn run(a: &mut App, t: &ToolCall, info: &NowPlaying) -> (Vec<String>, String) {
    let o = a.execute_dj_tool(t, info, true);
    let text = match o.answer {
        Answer::Text(s) => s,
        _ => "later".to_string(),
    };
    (show(&o.effects), text)
}

#[test]
fn a_live_deck_is_not_loaded_over() {
    let mut a = listing();
    let mut info = idle();
    info.deck_a.is_playing = true;
    assert_eq!(
        remote(&mut a, IpcCommand::LoadDeck { is_a: true }, &info),
        vec!["Deck A is playing — pause first (2000)"]
    );
    let fx = remote(&mut a, IpcCommand::LoadDeck { is_a: false }, &info);
    assert_eq!(fx[0], "Load → Deck B: Orbit - Halo (1500)");
    assert_eq!(fx[1], "LoadDeck { index: 0, as_incoming: true }");
    let mut none = app();
    assert_eq!(
        remote(&mut none, IpcCommand::LoadDeck { is_a: true }, &info),
        vec!["Load → Deck A: no track selected (1500)"]
    );
}

#[test]
fn remote_settings_are_checked() {
    let mut a = app();
    assert_eq!(
        remote(&mut a, IpcCommand::SetCrossfade(7), &idle()),
        vec!["Invalid crossfade bars: 7 (use 4/8/16/32/64) (2000)"]
    );
    let fx = remote(&mut a, IpcCommand::SetCrossfade(32), &idle());
    assert_eq!(fx, vec!["SaveConfig", "SetCrossfadeBars(32)", "Crossfade: 32 bars (1000)"]);
    assert_eq!(a.config.crossfade_bars, 32);
    assert_eq!(remote(&mut a, IpcCommand::SetQuality("STANDARD".into()), &idle()), vec!["SaveConfig"]);
    assert_eq!(a.config.audio_quality, AudioQuality::Standard);
    remote(&mut a, IpcCommand::SetQuality("flac".into()), &idle());
    assert_eq!(a.config.audio_quality, AudioQuality::High);
    remote(&mut a, IpcCommand::SetQuality("mp3".into()), &idle());
    assert_eq!(a.config.audio_quality, AudioQuality::High);
}

#[test]
fn remote_navigation_moves_the_cursor() {
    let mut a = listing();
    remote(&mut a, IpcCommand::Navigate("down".into()), &idle());
    assert_eq!(a.nav.cursor.selected, 1);
    remote(&mut a, IpcCommand::Navigate("down".into()), &idle());
    assert_eq!(a.nav.cursor.selected, 1);
    remote(&mut a, IpcCommand::Navigate("back".into()), &idle());
    assert_eq!(a.nav.breadcrumb(), "Beatport");
    remote(&mut a, IpcCommand::View(ViewMode::Dashboard), &idle());
    assert_eq!(a.view, ViewMode::Dashboard);
    assert_eq!(
        remote(&mut a, IpcCommand::Search("warp".into()), &idle()),
        vec!["Searching: warp (1000)", "Searching: warp (1000)", "Search warp"]
    );
    assert_eq!(a.view, ViewMode::Search);
}

#[test]
fn deck_commands_say_what_they_did() {
    let run = |c: DeckCommand| show(&run_deck_command(&c));
    assert_eq!(
        run(DeckCommand::PlayDeck { is_a: false }),
        vec!["PlayPauseDeck { is_a: false }", "Play/Pause B (500)"]
    );
    assert_eq!(
        run(DeckCommand::JumpDeck { is_a: true, bars: -4 }),
        vec!["JumpDeckBars { is_a: true, bars: -4 }", "Jump -4 bars A (500)"]
    );
    assert_eq!(run(DeckCommand::CueSet { is_a: true, slot: 1 })[1], "Cue 2 set A (500)");
    assert_eq!(run(DeckCommand::Jump(8))[1], "Jump 8 bars (IPC) (1000)");
    assert_eq!(run(DeckCommand::ShiftGrid(-2_000))[1], "Grid shifted -2.0ms (1000)");
    assert_eq!(
        run(DeckCommand::SetRate { deck: None, rate: 1_012_500 })[1],
        "Rate: 1.012 (1000)"
    );
    assert_eq!(
        run(DeckCommand::SetRate { deck: Some(true), rate: 987_000 })[1],
        "Tempo A: 0.987 (600)"
    );
    assert_eq!(run(DeckCommand::SetCrossfader(-250_000))[1], "Crossfader: -0.25 (1000)");
    assert_eq!(
        run(DeckCommand::SetEq { is_a: false, low: Some(-6_500_000), mid: None, high: Some(0) })[1],
        "EQ B: low=Some(-6.5) mid=None high=Some(0.0) (1000)"
    );
    assert_eq!(
        run(DeckCommand::Volume { playing: Some(500_000), incoming: None }),
        vec!["SetVolume { incoming: false, level: 500000 }", "Volume set (IPC) (500)"]
    );
    assert_eq!(show(&resume_auto_reply(true)), vec!["Auto-mix re-enabled (1000)"]);
    assert_eq!(show(&resume_auto_reply(false)), vec!["Auto-mix already on (1000)"]);
    assert_eq!(show(&transition_toast("EchoOut", true)), vec!["Transition → EchoOut (1000)"]);
    assert_eq!(show(&transition_toast("X", false)), vec!["Unknown transition: X (1000)"]);
    assert_eq!(show(&queue_all_reply(5, 5)), vec!["Queued 5 (remote) (1500)"]);
    assert_eq!(show(&queue_all_reply(5, 3)), vec!["Queued 3, skipped 2 dup (remote) (1500)"]);
    assert_eq!(export_reply(3).len(), 1);
    assert_eq!(favorite_reply(true).len(), 1);
    assert_eq!(queued_toast("Halo", true, false).len(), 1);
}

#[test]
fn engine_replies_are_shown() {
    assert_eq!(show(&bail_reply(true)), vec!["⚠ Bailed to EchoOut (2000)"]);
    assert_eq!(show(&bail_reply(false)), vec!["Nothing to bail (not crossfading) (1000)"]);
    assert_eq!(show(&split_cue_reply(true)), vec!["Split cue: ON (L=deck A, R=deck B) (2000)"]);
    assert_eq!(show(&metronome_reply(false)), vec!["Metronome: OFF (1000)"]);
    assert_eq!(
        show(&rewind_reply(&RewindOutcome::Blocked)),
        vec!["Wait for the current mix to finish before rewinding (2500)"]
    );
    assert_eq!(show(&rewind_reply(&RewindOutcome::Nothing)), vec!["No mix to rewind (1500)"]);
    assert_eq!(show(&rewind_reply(&RewindOutcome::InPlace)), vec!["Rewinding last mix (2000)"]);
}

#[test]
fn targets_are_listed_by_name() {
    let t = vec![
        ClickTarget::new(1, 2, 3, 4, ClickAction::CycleJumpBars),
        ClickTarget::new(5, 6, 7, 1, ClickAction::SetCrossfaderRange { x_min: 5, x_max: 11 })
            .labeled("crossfader"),
    ];
    let rows = layout_rows(&t);
    assert_eq!(rows.len(), 1);
    assert_eq!(rows[0].label, "crossfader");
    assert!(key_of_name("enter").is_some());
    assert!(key_of_name("nothing").is_none());
}

#[test]
fn searches_for_metadata_are_refused() {
    assert!(matches!(refuse_search("Deep House 128"), Some(Refusal::Genre)));
    assert!(matches!(refuse_search("126 bpm"), Some(Refusal::Bpm)));
    assert!(matches!(refuse_search("warp 8A"), Some(Refusal::Key)));
    assert!(refuse_search("warp 13A").is_none());
    assert!(refuse_search("aphex").is_none());
    let mut a = app();
    let mut t = tool("search_tracks");
    t.texts = vec![("query".into(), "techno".into())];
    let (fx, text) = run(&mut a, &t, &idle());
    assert!(fx.is_empty());
    assert!(text.starts_with("REFUSED: 'techno' looks like a genre name. search_tracks matches"));
    assert_eq!(text, refusal_reply("techno", Refusal::Genre));
    t.texts = vec![("query".into(), "aphex".into())];
    let (fx, text) = run(&mut a, &t, &idle());
    assert_eq!(text, "Searching: aphex");
    assert_eq!(fx, vec!["Searching: aphex (1000)", "Search aphex"]);
}

#[test]
fn the_dj_never_loads_the_playing_deck() {
    let mut a = listing();
    let mut t = tool("load_to_deck");
    t.texts = vec![("deck".into(), "A".into())];
    t.ints = vec![("index".into(), 1)];
    let (fx, text) = run(&mut a, &t, &idle());
    assert!(fx.is_empty());
    assert_eq!(text, "deck A is currently playing live; load onto the other deck");
    t.texts = vec![("deck".into(), "b".into())];
    let (fx, text) = run(&mut a, &t, &idle());
    assert_eq!(text, "Cued to deck B: Nova - Drift");
    assert_eq!(fx, vec!["EnqueueFront(1)"]);
    t.ints = vec![("index".into(), 9)];
    assert_eq!(run(&mut a, &t, &idle()).1, "No track at that index");
}

#[test]
fn the_dj_works_the_mixer() {
    let mut a = listing();
    let mut t = tool("sweep_crossfader");
    t.numbers = vec![("target".into(), 1_000_000)];
    t.ints = vec![("bars".into(), 99)];
    assert_eq!(
        run(&mut a, &t, &idle()),
        (
            vec!["SweepCrossfader { target: 1000000, over_bars: 32 }".to_string()],
            "Sweeping crossfader → +1.00 over 32 bars (engine paces — no further calls needed)"
                .to_string()
        )
    );
    let mut t = tool("cue");
    t.ints = vec![("slot".into(), 9)];
    t.texts = vec![("action".into(), "set".into()), ("deck".into(), "b".into())];
    assert_eq!(run(&mut a, &t, &idle()).1, "Cue 4 set (B)");
    let mut t = tool("set_crossfade_bars");
    t.ints = vec![("bars".into(), 24)];
    assert_eq!(run(&mut a, &t, &idle()).1, "Crossfade set to 24 bars");
    assert_eq!(a.config.crossfade_bars, 24);
    let mut t = tool("nudge");
    t.texts = vec![("direction".into(), "forward".into())];
    assert_eq!(
        run(&mut a, &t, &idle()),
        (vec!["Nudge(1)".to_string()], "Nudged forward".to_string())
    );
    assert_eq!(run(&mut a, &tool("fly"), &idle()).1, "Unknown tool: fly");
    assert_eq!(
        run(&mut a, &tool("mix_now"), &idle()),
        (vec!["MixNow".to_string()], "Crossfade triggered".to_string())
    );
    let mut t = tool("adjust_tempo");
    t.numbers = vec![("bpm".into(), 130_200_000)];
    let mut info = idle();
    info.playing_track = Some(halo());
    assert_eq!(
        run(&mut a, &t, &info),
        (
            vec!["SetPlayingRate(1050000)".to_string()],
            "Set playing tempo to 130.2 BPM".to_string()
        )
    );
    assert!(run(&mut a, &tool("go_back"), &idle()).1.starts_with("Went back to: Beatport"));
}

#[test]
fn the_dj_is_told_how_a_track_fits() {
    let mut info = idle();
    info.playing_track = Some(halo());
    info.playing_bpm = Some(124_000);
    assert_eq!(
        queued_reply(&drift(), &info, 1),
        "Queued: Nova - Drift [BPM 124→128 (3.2%), key 8A→9A (compatible)]"
    );
    let far = track(3, "Far", "Out", 140_000, "2B");
    assert_eq!(
        queued_reply(&far, &info, 6),
        "Queued: Far - Out [⚠ BPM gap 13% (124→140) — consider EchoOut, ⚠ key 8A→2B (dist 6 — risky clash)]"
    );
    assert_eq!(queued_reply(&halo(), &idle(), 0), "Queued: Orbit - Halo");
    assert_eq!(transition_reply("EchoOut", true), "Transition → EchoOut");
    assert_eq!(transition_reply("X", false), "Unknown transition: X");
    assert_eq!(seek_reply(true, "drop", Some(61_250_000)), "Deck A seek to drop (61.25s)");
    assert_eq!(
        seek_reply(false, "drop", None),
        "Deck B seek to 'drop' failed — unknown label or no analysis yet"
    );
    assert_eq!(preview_reply(true, true), "Preview: deck A on monitor bus");
    assert_eq!(play_reply(false, false), "Deck B has no track loaded — load_to_deck first");
}

#[test]
fn alignment_is_reported() {
    let aligned = Alignment {
        phase_us: 1_200,
        phase_fraction: 3_000,
        beat_in_bar_a: 2,
        beat_in_bar_b: 2,
        bar_in_phrase_a: 5,
        bar_in_phrase_b: 5,
    };
    assert_eq!(
        alignment_reply(&aligned),
        "beat_phase_ms=+1.2\nbeat_phase_fraction=0.003\nbeat_in_bar: A=2 B=2\nbar_in_phrase: A=5 B=5\naligned — phase, 1s, and phrase all line up"
    );
    let off = Alignment { phase_us: -7_000, beat_in_bar_b: 1, bar_in_phrase_b: 3, ..aligned };
    assert!(alignment_reply(&off).ends_with(
        "phase -7.0ms — adjust tempo or nudge | 1s are OFF by 3 beat(s) — jump_beats to fix | phrase is off by 14 bar(s) — drops won't land together"
    ));
    let mut info = idle();
    assert!(!trigger_context(&info, &aligned, "Beatport").0);
    info.crossfading = true;
    assert!(trigger_context(&info, &aligned, "Beatport").0);
}

#[test]
fn the_dj_is_switched() {
    let mut on = false;
    let fx = show(&toggle_claude_dj(&mut on, true));
    assert!(on);
    assert!(fx.iter().any(|s| s.ends_with("DJ: ON (1000)")));
    assert!(fx.iter().any(|s| s.starts_with("TriggerDj You just took over as DJ.")));
    let fx = show(&toggle_claude_dj(&mut on, true));
    assert!(!on);
    assert!(!fx.iter().any(|s| s.starts_with("TriggerDj")));
    let fx = show(&toggle_claude_dj(&mut on, false));
    assert!(!on);
    assert!(fx[0].contains("API key (~/.mixr/claude_key)"));
}

fn watch() -> DjWatch {
    DjWatch {
        was_crossfading: false,
        checked_early: false,
        checked_late: false,
        low_queue_at: 0,
        crossfade_at: 0,
    }
}

#[test]
fn the_dj_is_called_at_most_so_often() {
    let mut w = watch();
    let mut info = idle();
    info.playing_track = Some(halo());
    assert!(dj_tick(&mut w, &info, ClaudeDjMode::Auto, true, 29_999).is_empty());
    assert_eq!(dj_tick(&mut w, &info, ClaudeDjMode::Auto, true, 30_000).len(), 1);
    assert!(dj_tick(&mut w, &info, ClaudeDjMode::Auto, true, 59_000).is_empty());
    info.crossfading = true;
    assert!(dj_tick(&mut w, &info, ClaudeDjMode::Manual, false, 60_000).is_empty());
    w.was_crossfading = false;
    assert_eq!(dj_tick(&mut w, &info, ClaudeDjMode::Manual, true, 60_000).len(), 1);
    info.crossfade_progress = 500_000;
    assert_eq!(dj_tick(&mut w, &info, ClaudeDjMode::Manual, true, 61_000).len(), 1);
    assert!(dj_tick(&mut w, &info, ClaudeDjMode::Manual, true, 62_000).is_empty());
    assert_eq!(dj_tick(&mut w, &info, ClaudeDjMode::Manual, true, 71_000).len(), 1);
}

#[test]
fn ticks_write_and_go_on() {
    let mut a = app();
    let mut t = TickState {
        watch: watch(),
        timers: Timers { quick_at: 0, session_at: 0, screen_at: 0 },
        mixes: vec![],
        waiting: vec![],
    };
    let env = TickEnv { now: 5_000, status: true, dj_ready: false };
    let fx = show(&a.tick_end(&mut t, &idle(), &env));
    assert!(fx.contains(&"WriteScreen".to_string()));
    assert_eq!(t.timers.screen_at, 5_000);
    let again = show(&a.tick_end(
        &mut t,
        &idle(),
        &TickEnv { now: 5_001, status: false, dj_ready: false },
    ));
    assert!(again.is_empty());
    // A session that is still being asked about is not overwritten.
    a.asks_resume = true;
    let fx = show(&a.tick_end(
        &mut t,
        &idle(),
        &TickEnv { now: 60_000, status: false, dj_ready: false },
    ));
    assert!(!fx.iter().any(|s| s == "SaveSession"));
    assert_eq!(view_name(ViewMode::Queue), "queue");
    assert_eq!(focus_name(mixr::controls::DashFocus::Log), "Log");
    assert_eq!(
        show(&t.engine_event(EngineEvent::PlaybackEnded)),
        vec!["Playback ended (2000)"]
    );
    let mut m = Some(mixr::modals::PendingMidiMap {
        action: mixr::midi_learn::Action::Crossfader,
        action_label: "Crossfader".into(),
        captured: None,
    });
    capture_midi(&mut m, &Some("CC 7".into()));
    capture_midi(&mut m, &Some("CC 8".into()));
    assert_eq!(m.unwrap().captured.as_deref(), Some("CC 7"));
}

fn mix(pair: &str) -> MixEntry {
    MixEntry {
        pair: pair.into(),
        bpm: None,
        key: None,
        transition: None,
        note: None,
        rated_at: None,
    }
}

#[test]
fn the_same_rating_twice_is_taken_back() {
    let mut mixes =
        vec![None, Some(HistoryMix { entry: mix("a → b"), rated: None, rated_at: None })];
    assert_eq!(
        show(&rate_entry_at(&mut mixes, 0, true, DjMemory::Ready, 10)),
        vec!["Opening track — no mix to rate (1500)"]
    );
    let fx = show(&rate_entry_at(&mut mixes, 1, true, DjMemory::Ready, 10));
    assert_eq!(fx[0], "Rate { index: 1, good: true, at: 10 }");
    assert_eq!(fx[1], "Mix rated: 👍 saved to DJ memory (1500)");
    let fx = show(&rate_entry_at(&mut mixes, 1, false, DjMemory::Ready, 20));
    assert_eq!(fx[0], "Unrate { at: 10, good: true }");
    assert_eq!(mixes[1].as_ref().unwrap().rated, Some(false));
    let fx = show(&rate_entry_at(&mut mixes, 1, false, DjMemory::Ready, 30));
    assert_eq!(fx[0], "Unrate { at: 20, good: false }");
    assert_eq!(mixes[1].as_ref().unwrap().rated, None);
    assert!(rate_entry_at(&mut mixes, 1, true, DjMemory::Busy, 40).is_empty());
    assert_eq!(
        show(&rate_entry_at(&mut mixes, 7, true, DjMemory::Ready, 40)),
        vec!["No mix data for this entry (1500)"]
    );
    // By the clock: a time after 2020.
    rate_history_entry(&mut mixes, 1, true, DjMemory::Ready);
    assert!(mixes[1].as_ref().unwrap().rated_at.unwrap() > 1_577_836_800);
    assert_eq!(rate_last(true, true, DjMemory::Ready).len(), 2);
}

#[test]
fn ratings_follow_the_history() {
    let entry = |t: Track, mix_score: Option<u32>| HistoryEntry { track: t, mix_score };
    let mut mixes = vec![];
    let mut waiting = vec![mix("Halo → Drift")];
    sync_mixes(&mut mixes, &mut waiting, &vec![entry(halo(), None)]);
    assert_eq!(mixes.len(), 1);
    assert!(mixes[0].is_none());
    assert_eq!(waiting.len(), 1);
    sync_mixes(&mut mixes, &mut waiting, &vec![entry(halo(), None), entry(drift(), Some(80))]);
    assert_eq!(mixes.len(), 2);
    assert!(mixes[1].is_some());
    assert!(waiting.is_empty());
}

#[test]
fn a_path_is_followed_segment_by_segment() {
    let mut a = app();
    let o = a.browse_path(&vec!["discover".to_string(), "Trending".to_string()]);
    assert!(o.found);
    assert!(matches!(o.step, BrowseStep::Menu(1)));
    assert!(a.path.is_some());
    // Nothing arrives: it waits.
    let o = a.browse_path_tick();
    assert!(!o.found);
    a.nav.push_screen(menu("Discover", &["Hype", "Trending"]));
    let o = a.browse_path_tick();
    assert!(o.found);
    assert!(matches!(o.step, BrowseStep::Menu(1)));
    let mut lost = app();
    let o = lost.browse_path(&vec!["nowhere".to_string()]);
    assert!(!o.found);
}

#[test]
fn the_test_mix_gives_up_in_time() {
    let none = TestMixEnv { listed: false, both_ready: false };
    let (s, _, fx) = test_mix_tick(TestMixState::WaitForList { ticks: 301 }, none);
    assert!(s.is_none());
    assert_eq!(fx.len(), 1);
    let (s, _, _) = test_mix_tick(TestMixState::WaitForList { ticks: 0 }, none);
    assert!(matches!(s, Some(TestMixState::WaitForList { ticks: 1 })));
    let (s, dash, fx) = test_mix_tick(TestMixState::Teleport, none);
    assert!(s.is_none());
    assert!(!dash || !fx.is_empty());
}

#[test]
fn menus_lead_to_screens() {
    let mut a = app();
    let (plan, fx) = a.execute_menu_action(&MenuAction::PushLocalLibrary, true, true);
    assert!(matches!(plan, MenuPlan::Refused));
    assert_eq!(
        show(&fx),
        vec!["Local Library: set Settings → Local Library Directory first (3000)"]
    );
    a.config.local_library_dir = "/music".into();
    let (plan, fx) = a.execute_menu_action(&MenuAction::PushLocalLibrary, false, true);
    assert!(matches!(plan, MenuPlan::Refused));
    assert_eq!(show(&fx), vec!["Local Library: /music is not a directory (3000)"]);
    let (plan, _) = a.execute_menu_action(&MenuAction::PushLocalLibrary, true, true);
    assert!(matches!(plan, MenuPlan::LocalFolder(s) if s == "/music"));
    let (plan, fx) = a.execute_menu_action(&MenuAction::Load("top".into()), true, false);
    assert!(matches!(plan, MenuPlan::Refused));
    assert_eq!(show(&fx), vec!["Not authenticated (2000)"]);
    assert_eq!(source_title(Source::Usb, "STICK", 4), "USB: STICK (4)");
    assert_eq!(source_title(Source::Serato, "", 4), "Serato (4)");
    assert_eq!(show(&import_failed(Source::Rekordbox, "bad")), vec![
        "Rekordbox import failed: bad (3000)"
    ]);
    assert_eq!(folder_track_list_title("/music", "/music", 3), "Local Library (3)");
    assert_eq!(folder_track_list_title("/music/a/b", "/music", 3), "Local · a/b (3)");
    assert_eq!(recursive_title("/music", "/music", 3), "Local Library (3) (recursive)");
    assert_eq!(page_str("artist", "orbit", 7), "https://www.beatport.com/artist/orbit/7");
    assert_eq!(start_segment(&vec!["Top 100".into()], "top"), Some(0));
    assert_eq!(empty_page(true).len(), 1);
    assert_eq!(opened("Safari", &None).len(), 1);
    assert!(!browser_app_of("chrome").is_empty());
}

#[test]
fn sticks_are_read_from_the_file_they_have() {
    let sticks = vec![
        StickEntry { mount: "/media/a".into(), kind: StickKind::Rekordbox },
        StickEntry { mount: "/media/b".into(), kind: StickKind::EngineDj },
    ];
    assert_eq!(stick_kind_at(&sticks, "/media/b"), Some(StickKind::EngineDj));
    assert_eq!(stick_kind_at(&sticks, "/media/c"), None);
    let f = stick_file(Some(StickKind::EngineDj), "/media/b", &[false, true, true], false);
    assert!(matches!(f, Ok(StickFile::Engine(p)) if p == "/media/b/Engine Library/m.db"));
    let f = stick_file(Some(StickKind::EngineDj), "/media/b", &[false; 3], false);
    assert!(matches!(f, Err(e) if e == "no Engine DB at /media/b"));
    let f = stick_file(Some(StickKind::Rekordbox), "/media/a", &[false; 3], true);
    assert!(
        matches!(f, Ok(StickFile::Rekordbox(p)) if p == "/media/a/PIONEER/rekordbox/export.pdb")
    );
    let f = stick_file(Some(StickKind::Rekordbox), "/media/a", &[false; 3], false);
    assert!(
        matches!(f, Err(e) if e == "no export.pdb at /media/a/PIONEER/rekordbox/export.pdb")
    );
    let f = stick_file(None, "/media/c", &[true; 3], true);
    assert!(matches!(f, Err(e) if e == "Stick /media/c no longer detected"));
    assert_eq!(search_reply("warp", &None), Ok("Search: warp".to_string()));
    assert_eq!(search_reply("warp", &Some("x".into())), Err("Search failed: x".to_string()));
}

#[test]
fn favourite_genres_come_first() {
    let mut a = app();
    a.view = ViewMode::Search;
    a.config.favorite_genres = vec!["techno".into()];
    let genres = vec![
        Genre { id: 1, name: "House".into(), slug: "house".into() },
        Genre { id: 2, name: "Techno".into(), slug: "techno".into() },
    ];
    let screen = BrowseScreen {
        title: "Genres".into(),
        labels: vec!["House".into(), "Techno".into()],
        items: Items::Genres(genres),
    };
    assert_eq!(
        show(&a.handle_action(AppAction::PushScreen(screen))),
        vec!["Genres: 2 items (1000)"]
    );
    assert_eq!(a.nav.current_screen().labels, vec!["Techno", "House"]);
    assert_eq!(a.view, ViewMode::Browse);
}

#[test]
fn replies_change_the_application() {
    let mut a = listing();
    let fx = show(&a.handle_action(AppAction::Append(Page::Tracks(
        vec![track(3, "Far", "Out", 120_000, "1A")],
        vec!["Far - Out".into()],
    ))));
    assert_eq!(fx, vec!["+1 tracks (3 total) (1000)"]);
    assert_eq!(a.nav.current_screen().labels.len(), 3);
    a.in_flight = true;
    let fx = show(&a.handle_action(AppAction::DownloadFailed("Download: eof".into())));
    assert!(!a.in_flight);
    assert!(fx[0].contains("Download: eof"));
    let (go, _) = a.download_and_play(true);
    assert!(go);
    assert!(a.in_flight);
    let (go, _) = a.download_and_play(true);
    assert!(!go);
    a.positions = vec![(1, 170_000)];
    let d = Decoded {
        first_audio: 100,
        first_beat: 250,
        total: 180_000,
        as_incoming: false,
        echo_out: false,
    };
    let (start, _) = a.track_decoded(&halo(), &d);
    // Saved too near the end: it starts over at the first beat.
    assert_eq!(start, 250);
    assert!(a.positions.is_empty());
    let (start, _) = a.track_decoded(&halo(), &d);
    assert_eq!(start, 100);
    assert_eq!(resume_start_ms(10_000, 180_000, 250), 10_000);
    let mut places = vec![(1, 10), (2, 20), (1, 30)];
    assert_eq!(take_place(&mut places, 1), Some(30));
    assert_eq!(places, vec![(2, 20)]);
    let fx = show(&a.handle_action(AppAction::ShowPlaylistPicker {
        track: 5,
        playlists: vec![Named { id: 1, name: "Friday".into() }],
    }));
    assert!(fx.is_empty());
    assert_eq!(a.view, ViewMode::PlaylistPicker);
}

#[test]
fn the_command_line_opens_a_screen() {
    let mut a = app();
    let cli = CliArgs { browse: None, play: false, genre: None, search: None, dashboard: true };
    a.apply_cli_args(&cli, true);
    assert_eq!(a.view, ViewMode::Dashboard);
}
