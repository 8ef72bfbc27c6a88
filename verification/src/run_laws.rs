//! How jobs, ticks and the start of the application go on.
use crate::app::App;
use crate::config::ClaudeDjMode;
use crate::deck::NowPlaying;
use crate::download::{format_of, phrase_type, PhraseType};
use crate::effects::{Act, EffectV, TextAct};
use crate::key_laws::first_act;
use crate::keymap::lower_all;
use crate::modals::SessionSnapshot;
use crate::pipeline::{
    after, analyzing_text, next_stage, preview_after, Event, Job, MessageV, Stage,
};
use crate::readings::decimal_reads_back;
use crate::startup::{prompt_command, startup_done, submit_effects};
use crate::text::{decimal, digits_value};
use crate::ticks::{
    call_reason, check_due, dj_call, due, event_effects, sweep_target, view_label, watched, writes,
    DjCall, DjWatch, EngineEvent, Timers,
};
use vstd::prelude::*;

verus! {

/// Something is due when its time has passed, and not again before.
pub proof fn due_after_its_time(last: u64, now: u64, period: int)
    requires
        period > 0,
        last <= now,
    ensures
        due(now, last, period) <==> now - last >= period,
        !due(now, now, period),
{
}

/// A crossfade goes to the side of the deck that does not play.
pub proof fn sweep_goes_to_the_other_deck(playing_is_a: bool)
    ensures
        sweep_target(playing_is_a)[0] == '+' <==> playing_is_a,
        sweep_target(playing_is_a)[0] == '-' <==> !playing_is_a,
        sweep_target(playing_is_a) != sweep_target(!playing_is_a),
{
    reveal_strlit("+1");
    reveal_strlit("-1");
}

/// The early check comes in the middle of a crossfade and the late one towards its
/// end, each only once.
pub proof fn checks_come_in_their_time(w: DjWatch, progress: u32)
    ensures
        check_due(w, progress) matches Some(c) ==> (c is EarlyCheck && 300_000 <= progress < 700_000
            && !w.checked_early) || (c is LateCheck && 700_000 <= progress < 950_000
            && !w.checked_late),
        !w.checked_early && 300_000 <= progress < 700_000 ==> check_due(w, progress) == Some(
            DjCall::EarlyCheck,
        ),
        !w.checked_late && 700_000 <= progress < 950_000 ==> check_due(w, progress) == Some(
            DjCall::LateCheck,
        ),
{
}

/// A crossfade that starts is reported when it starts; a queue is low with fewer than
/// three tracks.
pub proof fn calls_have_their_reason(
    w: DjWatch,
    info: NowPlaying,
    mode: ClaudeDjMode,
    now: u64,
)
    ensures
        info.crossfading && !w.was_crossfading ==> dj_call(w, info, mode, true, now) == Some(
            DjCall::CrossfadeStart,
        ),
        dj_call(w, info, mode, true, now) == Some(DjCall::LowQueue) ==> info.queue@.len() < 3
            && !info.crossfading && info.playing_track is Some,
        dj_call(w, info, mode, true, now) == Some(DjCall::Stalled) ==> info.crossfading && mode
            is Manual && info.crossfade_progress < 900_000,
{
}

/// Writing happens when it is due, and what was written is not due again at once.
pub proof fn writing_is_timed(t: Timers, now: u64, status: bool, asks: bool)
    ensures
        ({
            let (next, fx) = writes(t, now, status, asks);
            &&& fx.contains(EffectV::Do(Act::WriteQuickStatus)) ==> now - t.quick_at >= 250
                && next.quick_at == now
            &&& fx.contains(EffectV::Do(Act::SaveSession)) ==> now - t.session_at >= 5000 && !asks
                && next.session_at == now
            &&& fx.contains(EffectV::Do(Act::WriteStatus)) ==> status
            &&& now >= t.quick_at && now - t.quick_at < 250 ==> next.quick_at == t.quick_at
        }),
{
    let (next, fx) = writes(t, now, status, asks);
    if fx.contains(EffectV::Do(Act::WriteQuickStatus)) {
        let i = choose|i: int| 0 <= i < fx.len() && fx[i] == EffectV::Do(Act::WriteQuickStatus);
        assert(fx[i] == EffectV::Do(Act::WriteQuickStatus));
    }
    if fx.contains(EffectV::Do(Act::SaveSession)) {
        let i = choose|i: int| 0 <= i < fx.len() && fx[i] == EffectV::Do(Act::SaveSession);
        assert(fx[i] == EffectV::Do(Act::SaveSession));
    }
    if fx.contains(EffectV::Do(Act::WriteStatus)) {
        let i = choose|i: int| 0 <= i < fx.len() && fx[i] == EffectV::Do(Act::WriteStatus);
        assert(fx[i] == EffectV::Do(Act::WriteStatus));
    }
}

/// The first track is loaded to play, every other one beside what plays.
pub proof fn first_track_is_loaded_to_play(e: EngineEvent)
    ensures
        first_act(event_effects(e)) matches Some(act) ==> (act matches Act::LoadNamed {
            as_incoming,
        } && (as_incoming <==> e is NeedNextTrack)),
        e is NeedFirstTrack || e is NeedNextTrack <==> first_act(event_effects(e)) is Some,
{
}

/// The views of the status go by different names.
pub proof fn views_go_by_their_name(a: crate::inputs::ViewMode, b: crate::inputs::ViewMode)
    requires
        a != b,
        view_label(a) != "other"@,
    ensures
        view_label(a) != view_label(b),
{
    reveal_strlit("browse");
    reveal_strlit("dashboard");
    reveal_strlit("queue");
    reveal_strlit("history");
    reveal_strlit("settings");
    reveal_strlit("help");
    reveal_strlit("search");
    reveal_strlit("other");
    assert("browse"@[0] == 'b' && "dashboard"@[0] == 'd' && "queue"@[0] == 'q' && "history"@[0]
        == 'h' && "settings"@[0] == 's' && "help"@[0] == 'h' && "search"@[0] == 's' && "other"@[0]
        == 'o');
    assert("history"@.len() == 7 && "help"@.len() == 4 && "settings"@.len() == 8 && "search"@.len()
        == 6);
}

/// The first beat is moved to where it was heard, unless it is there already to
/// within a millisecond; nothing else of the job is touched.
pub proof fn first_beat_is_moved_where_heard(job: Job, t: i64)
    requires
        job.stage is Beat,
    ensures
        ({
            let next = after(job, Event::Beat(t)).0;
            &&& t - job.first_us > 1000 || job.first_us - t > 1000 ==> next.first_us == t
            &&& -1000 <= t - job.first_us <= 1000 ==> next.first_us == job.first_us
            &&& next.bpm == job.bpm && next.phrases == job.phrases
        }),
{
}

/// The grid is moved by what it is off, and the tempo set to what was found, unless
/// that is too little to matter; what was not found stays.
pub proof fn grid_is_moved_by_what_it_is_off(job: Job, first: Option<i64>, bpm: Option<u32>)
    requires
        job.stage is Grid,
        first matches Some(c) ==> i64::MIN <= job.first_us + c <= i64::MAX,
    ensures
        ({
            let next = after(job, Event::Grid { first, bpm }).0;
            &&& first is None ==> next.first_us == job.first_us
            &&& bpm is None ==> next.bpm == job.bpm
            &&& first matches Some(c) ==> next.first_us - job.first_us == (if c > 3000 || c < -3000 {
                c as int
            } else {
                0
            })
            &&& bpm matches Some(b) ==> next.bpm == b || (next.bpm == job.bpm && b - job.bpm <= 100
                && job.bpm - b <= 100)
            &&& bpm matches Some(b) ==> (b - job.bpm > 100 || job.bpm - b > 100 ==> next.bpm == b)
        }),
{
}

/// Phrases that were heard replace those known, unless there are fewer of them.
pub proof fn heard_phrases_replace_fewer(job: Job, n: usize)
    requires
        job.stage is Phrases,
    ensures
        ({
            let next = after(job, Event::Phrases(n)).0;
            &&& next.phrases >= job.phrases
            &&& n > 0 && n >= job.phrases ==> next.phrases == n && next.detected
            &&& n < job.phrases ==> next.phrases == job.phrases && next.detected == job.detected
        }),
{
}

/// A correction is made where it is asked for, and none where it is not.
pub proof fn corrections_are_made_as_asked(job: Job, at: Stage)
    requires
        at is Analyzing || at is Beat || at is Grid || at is Phrases,
    ensures
        next_stage(job, at) is Beat ==> job.ai_beat && at is Analyzing,
        next_stage(job, at) is Grid ==> job.ai_grid,
        next_stage(job, at) is Phrases ==> job.ai_phrases,
        at is Analyzing && job.ai_beat ==> next_stage(job, at) is Beat,
        at is Beat && job.ai_grid ==> next_stage(job, at) is Grid,
        at is Grid && job.ai_phrases ==> next_stage(job, at) is Phrases,
        !job.ai_beat && !job.ai_grid && !job.ai_phrases ==> next_stage(job, at) is Done,
{
}

/// What was found of a track is what is kept of it.
pub proof fn analysis_is_kept(job: Job, first_us: i64, bpm: u32, phrases: usize)
    requires
        job.stage is Analyzing,
    ensures
        ({
            let next = after(job, Event::Analysis { first_us, bpm, phrases }).0;
            next.first_us == first_us && next.bpm == bpm && next.phrases == phrases && next.name
                == job.name
        }),
{
}

/// How much was read, in kilobytes, stands behind the name of the track.
pub proof fn size_is_shown_behind_the_name(name: Seq<char>, bytes: u64, tenths: u64)
    ensures
        ({
            let text = analyzing_text(name, bytes, tenths);
            let from = (10 + name.len() + 2) as int;
            let size = decimal((bytes / 1024) as nat);
            &&& text.subrange(10, 10 + name.len() as int) == name
            &&& digits_value(text.subrange(from, from + size.len())) == bytes / 1024
        }),
{
    reveal_strlit("Analyzing ");
    reveal_strlit(" (");
    decimal_reads_back((bytes / 1024) as nat);
    let text = analyzing_text(name, bytes, tenths);
    let from = (10 + name.len() + 2) as int;
    let size = decimal((bytes / 1024) as nat);
    assert("Analyzing "@.len() == 10 && " ("@.len() == 2);
    assert(text.subrange(10, 10 + name.len() as int) =~= name);
    assert(text.subrange(from, from + size.len()) =~= size);
}

/// The decoder goes by the extension, case aside.
pub proof fn decoder_goes_by_the_extension(ext: Seq<char>, other: Seq<char>)
    requires
        lower_all(ext) == lower_all(other),
    ensures
        format_of(Some(ext)) == format_of(Some(other)),
        format_of(Some("mp3"@))@ == "mp3"@,
        format_of(Some("aac"@))@ == "aac"@,
        format_of(Some("m4a"@))@ == "m4a"@,
        format_of(Some("wav"@))@ == "wav"@,
        format_of(Some("ogg"@))@ == "ogg"@,
        format_of(Some("flac"@))@ == "flac"@,
        format_of(None)@ == "flac"@,
{
    reveal_strlit("mp3");
    reveal_strlit("aac");
    reveal_strlit("m4a");
    reveal_strlit("wav");
    reveal_strlit("ogg");
    reveal_strlit("opus");
    reveal_strlit("flac");
    assert(lower_all("mp3"@) =~= "mp3"@);
    assert(lower_all("aac"@) =~= "aac"@);
    assert(lower_all("m4a"@) =~= "m4a"@);
    assert(lower_all("wav"@) =~= "wav"@);
    assert(lower_all("ogg"@) =~= "ogg"@);
    assert(lower_all("flac"@) =~= "flac"@);
    assert("mp3"@[0] == 'm' && "mp3"@[1] == 'p');
    assert("aac"@[0] == 'a');
    assert("m4a"@[0] == 'm' && "m4a"@[1] == '4');
    assert("wav"@[0] == 'w');
    assert("ogg"@[0] == 'o' && "ogg"@.len() == 3);
    assert("opus"@.len() == 4 && "opus"@[0] == 'o');
    assert("flac"@[0] == 'f');
}

/// A phrase is of the kind that it is labelled with.
pub proof fn phrases_are_as_labelled()
    ensures
        phrase_type("intro"@) == PhraseType::Intro,
        phrase_type("outro"@) == PhraseType::Outro,
        phrase_type("buildup"@) == PhraseType::Buildup,
        phrase_type("breakdown"@) == PhraseType::Breakdown,
        phrase_type("drop"@) == PhraseType::Drop,
{
    reveal_strlit("intro");
    reveal_strlit("outro");
    reveal_strlit("buildup");
    reveal_strlit("breakdown");
    reveal_strlit("drop");
    assert("intro"@[0] == 'i' && "outro"@[0] == 'o' && "buildup"@[1] == 'u' && "breakdown"@[1]
        == 'r' && "drop"@[0] == 'd' && "buildup"@[0] == 'b' && "breakdown"@[0] == 'b');
}

/// A saved session is left, asked about or taken up, as the configuration says.
pub proof fn saved_session_is_treated_as_configured(
    a: App,
    b: App,
    fx: Seq<EffectV>,
    s: SessionSnapshot,
)
    requires
        startup_done(a, b, fx, Some(s)),
    ensures
        b.config == a.config,
        a.config.resume_behavior is Never ==> b == a && fx.len() == 0,
        a.config.resume_behavior is Ask ==> b.asks_resume && b.session == Some(s) && b.to_queue
            == a.to_queue,
        a.config.resume_behavior is Always ==> !b.asks_resume && b.session is None && b.to_queue@
            == a.to_queue@ + crate::modals::resume_order(s),
{
}

/// A command that can be read is handed on as it is: a line in braces itself,
/// another one in its long form.
pub proof fn commands_are_handed_on(line: Seq<char>, long: Seq<char>)
    ensures
        submit_effects(line, prompt_command(line, long), true) == seq![
            EffectV::With(TextAct::WriteCommand, prompt_command(line, long)),
        ],
        crate::startup::opens_brace(line) ==> prompt_command(line, long) == line,
        !crate::startup::opens_brace(line) ==> prompt_command(line, long) == long,
{
}

/// The reason given to the DJ for a crossfade by hand names the deck that plays
/// first, and then the other one.
pub proof fn manual_crossfade_names_the_decks(info: NowPlaying)
    ensures
        ({
            let text = call_reason(DjCall::CrossfadeStart, info, ClaudeDjMode::Manual);
            &&& text.len() > 40
            &&& text[38] == (if info.playing_is_a {
                'A'
            } else {
                'B'
            })
        }),
{
    reveal_strlit("Crossfade started — MANUAL MODE. Deck ");
    reveal_strlit("A");
    reveal_strlit("B");
    reveal_strlit(" is playing live, deck ");
    assert("Crossfade started — MANUAL MODE. Deck "@.len() == 38);
}

/// A preview is ready once its track was analysed, and a failure ends it with a
/// message.
pub proof fn previews_end_ready_or_with_a_message(
    stage: Stage,
    ev: Event,
)
    ensures
        preview_after(stage, ev).1.contains(MessageV::PreviewReady) ==> stage is Analyzing && ev
            is Analysis && preview_after(stage, ev).0 is Done,
        stage is Analyzing && ev is Analysis ==> preview_after(stage, ev).1 == seq![
            MessageV::PreviewReady,
        ],
        stage is Downloading && ev is DownloadFailed ==> preview_after(stage, ev).0 is Done
            && preview_after(stage, ev).1.len() == 1,
        stage is Sourcing && ev is Source ==> preview_after(stage, ev).0 is Downloading,
        stage is Downloading && ev is Downloaded ==> preview_after(stage, ev).0 is Analyzing,
        stage is Reading && ev is Read ==> preview_after(stage, ev).0 is Analyzing,
{
    let said = preview_after(stage, ev).1;
    if said.contains(MessageV::PreviewReady) {
        let i = choose|i: int| 0 <= i < said.len() && said[i] == MessageV::PreviewReady;
        assert(said[i] == MessageV::PreviewReady);
    }
}

/// A job reads or downloads before it analyses, and an event that it does not wait for
/// changes nothing.
pub proof fn jobs_wait_for_their_event(job: Job, ev: Event)
    ensures
        job.stage is Reading && ev is Read ==> after(job, ev).0.stage is Analyzing,
        job.stage is Sourcing && ev is Source ==> after(job, ev).0.stage is Downloading,
        job.stage is Downloading && ev is Downloaded ==> after(job, ev).0.stage is Analyzing,
        job.stage is Reading && ev is ReadFailed ==> after(job, ev).0.stage is Done,
        job.stage is Downloading && ev is Source ==> after(job, ev).0 == job,
        job.stage is Analyzing && ev is Downloaded ==> after(job, ev).0 == job,
        after(job, ev).0.name == job.name,
        after(job, ev).0.ai_beat == job.ai_beat && after(job, ev).0.ai_grid == job.ai_grid && after(
            job,
            ev,
        ).0.ai_phrases == job.ai_phrases,
{
}

/// Each call of the DJ is remembered as made: a check is not due again, and the times
/// are those of the call.
pub proof fn calls_are_remembered(w: DjWatch, fading: bool, call: DjCall, now: u64)
    ensures
        ({
            let after = watched(w, fading, Some(call), now);
            &&& after.was_crossfading == fading
            &&& call is EarlyCheck ==> after.checked_early
            &&& call is LateCheck ==> after.checked_late
            &&& call is LowQueue ==> after.low_queue_at == now && after.crossfade_at
                == w.crossfade_at
            &&& !(call is LowQueue) ==> after.crossfade_at == now && after.low_queue_at
                == w.low_queue_at
            &&& call is CrossfadeStart ==> !after.checked_early && !after.checked_late
        }),
        watched(w, fading, None, now) == (DjWatch { was_crossfading: fading, ..w }),
{
}

} // verus!
