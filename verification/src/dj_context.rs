//! What the DJ is told of the mix.
use crate::deck::{Deck, HistoryEntry, NowPlaying, Phrase};
use crate::meters::{abs, phase_str, phase_text, signed_whole, signed_whole_str};
use crate::numbers::{
    plain2, plain2_str, plain3, plain3_str, seconds, seconds_str, signed2, signed2_str,
};
use crate::text::{
    concat2, concat3, decimal, decimal_str, join_strs, joined, min_of, owned, round_div,
    rounded_div, strs, wide_decimal_str,
};
use crate::track::{bpm_whole, bpm_whole_str, track_name, Track};
use vstd::prelude::*;
use vstd::string::*;

verus! {

/// How the decks stand to each other.
#[derive(Debug, Clone, Copy)]
pub struct Alignment {
    /// How far B is off A within the beat, in microseconds and in millionths of a
    /// beat.
    pub phase_us: i64,
    pub phase_fraction: i64,
    pub beat_in_bar_a: u32,
    pub beat_in_bar_b: u32,
    pub bar_in_phrase_a: u32,
    pub bar_in_phrase_b: u32,
}

/// How many steps of a round `b` is ahead of `a`.
pub open spec fn ahead(a: u32, b: u32, round: int) -> nat {
    ((b - a) % round) as nat
}

fn beats_ahead(a: u32, b: u32) -> (d: u64)
    ensures
        d == ahead(a, b, 4),
        d < 4,
{
    let x: u64 = (b % 4) as u64 + 4 - (a % 4) as u64;
    x % 4
}

fn bars_ahead(a: u32, b: u32) -> (d: u64)
    ensures
        d == ahead(a, b, 16),
        d < 16,
{
    let x: u64 = (b % 16) as u64 + 16 - (a % 16) as u64;
    x % 16
}

pub open spec fn when(b: bool, s: Seq<char>) -> Seq<Seq<char>> {
    if b {
        seq![s]
    } else {
        Seq::empty()
    }
}

/// What is wrong with the alignment, if anything.
pub open spec fn alignment_notes(a: Alignment) -> Seq<Seq<char>> {
    let notes = when(
        abs(a.phase_us as int) > 5000,
        "phase "@ + phase_text(a.phase_us as int) + " — adjust tempo or nudge"@,
    ) + when(
        a.beat_in_bar_a != a.beat_in_bar_b,
        "1s are OFF by "@ + decimal(ahead(a.beat_in_bar_a, a.beat_in_bar_b, 4))
            + " beat(s) — jump_beats to fix"@,
    ) + when(
        a.bar_in_phrase_a != a.bar_in_phrase_b,
        "phrase is off by "@ + decimal(ahead(a.bar_in_phrase_a, a.bar_in_phrase_b, 16))
            + " bar(s) — drops won't land together"@,
    );
    if notes.len() == 0 {
        seq!["aligned — phase, 1s, and phrase all line up"@]
    } else {
        notes
    }
}

/// Nothing is wrong exactly where phase, beats and bars all agree.
pub proof fn aligned_means_all_three(a: Alignment)
    ensures
        (abs(a.phase_us as int) <= 5000 && a.beat_in_bar_a == a.beat_in_bar_b && a.bar_in_phrase_a
            == a.bar_in_phrase_b) ==> alignment_notes(a) == seq![
            "aligned — phase, 1s, and phrase all line up"@,
        ],
{
}

pub open spec fn alignment_text(a: Alignment) -> Seq<char> {
    "beat_phase_ms="@ + crate::meters::signed_tenths(
        a.phase_us < 0,
        round_div(abs(a.phase_us as int), 100),
    ) + "\nbeat_phase_fraction="@ + plain3(a.phase_fraction as int) + "\nbeat_in_bar: A="@
        + decimal(a.beat_in_bar_a as nat) + " B="@ + decimal(a.beat_in_bar_b as nat)
        + "\nbar_in_phrase: A="@ + decimal(a.bar_in_phrase_a as nat) + " B="@ + decimal(
        a.bar_in_phrase_b as nat,
    ) + "\n"@ + joined(alignment_notes(a), " | "@)
}

fn magnitude(n: i64) -> (m: u128)
    ensures
        m == abs(n as int),
{
    if n < 0 {
        (-(n as i128)) as u128
    } else {
        n as u128
    }
}

fn phase_number_str(us: i64) -> (s: String)
    ensures
        s@ == crate::meters::signed_tenths(us < 0, round_div(abs(us as int), 100)),
{
    crate::meters::signed_tenths_str(us < 0, rounded_div(magnitude(us), 100))
}

/// Adds a text to a list.
fn note(v: &mut Vec<String>, s: String)
    ensures
        strs(final(v)@) == strs(old(v)@).push(s@),
{
    v.push(s);
    assert(strs(v@) =~= strs(old(v)@).push(s@));
}

fn notes_of(a: &Alignment) -> (v: Vec<String>)
    ensures
        strs(v@) == alignment_notes(*a),
{
    let mut v: Vec<String> = Vec::new();
    assert(strs(v@) =~= Seq::<Seq<char>>::empty());
    if magnitude(a.phase_us) > 5000 {
        note(&mut v, concat3("phase ", phase_str(a.phase_us).as_str(), " — adjust tempo or nudge"));
    }
    if a.beat_in_bar_a != a.beat_in_bar_b {
        let d: u64 = beats_ahead(a.beat_in_bar_a, a.beat_in_bar_b);
        note(
            &mut v,
            concat3("1s are OFF by ", decimal_str(d).as_str(), " beat(s) — jump_beats to fix"),
        );
    }
    if a.bar_in_phrase_a != a.bar_in_phrase_b {
        let d: u64 = bars_ahead(a.bar_in_phrase_a, a.bar_in_phrase_b);
        note(
            &mut v,
            concat3(
                "phrase is off by ",
                decimal_str(d).as_str(),
                " bar(s) — drops won't land together",
            ),
        );
    }
    if v.len() == 0 {
        note(&mut v, owned("aligned — phase, 1s, and phrase all line up"));
    }
    assert(strs(v@) =~= alignment_notes(*a));
    v
}

/// What the DJ is told of the alignment.
pub fn alignment_reply(a: &Alignment) -> (s: String)
    ensures
        s@ == alignment_text(*a),
{
    let notes: Vec<String> = notes_of(a);
    let s: String = concat3(
        "beat_phase_ms=",
        phase_number_str(a.phase_us).as_str(),
        "\nbeat_phase_fraction=",
    );
    let s: String = concat3(
        s.as_str(),
        plain3_str(a.phase_fraction).as_str(),
        "\nbeat_in_bar: A=",
    );
    let s: String = concat3(s.as_str(), decimal_str(a.beat_in_bar_a as u64).as_str(), " B=");
    let s: String = concat3(
        s.as_str(),
        decimal_str(a.beat_in_bar_b as u64).as_str(),
        "\nbar_in_phrase: A=",
    );
    let s: String = concat3(s.as_str(), decimal_str(a.bar_in_phrase_a as u64).as_str(), " B=");
    let s: String = concat3(s.as_str(), decimal_str(a.bar_in_phrase_b as u64).as_str(), "\n");
    concat2(s.as_str(), join_strs(&notes, " | ").as_str())
}

pub open spec fn bpm_or_zero(bpm: Option<u32>) -> Seq<char> {
    match bpm {
        Some(b) => bpm_whole(b),
        None => "0"@,
    }
}

fn bpm_or_zero_str(bpm: Option<u32>) -> (s: String)
    ensures
        s@ == bpm_or_zero(bpm),
{
    match bpm {
        Some(b) => bpm_whole_str(b),
        None => owned("0"),
    }
}

pub open spec fn key_or_mark(key: Option<String>) -> Seq<char> {
    match key {
        Some(k) => k@,
        None => "?"@,
    }
}

fn key_or_mark_str(key: &Option<String>) -> (s: String)
    ensures
        s@ == key_or_mark(*key),
{
    match key {
        Some(k) => owned(k.as_str()),
        None => owned("?"),
    }
}

/// A track with its tempo and key, or `None`.
pub open spec fn described(t: Option<Track>) -> Seq<char> {
    match t {
        Some(x) => track_name(x) + " ("@ + bpm_or_zero(x.bpm) + " BPM, "@ + key_or_mark(x.key)
            + ")"@,
        None => "None"@,
    }
}

pub fn described_str(t: &Option<Track>) -> (s: String)
    ensures
        s@ == described(*t),
{
    match t {
        Some(x) => {
            let a: String = concat3(x.name().as_str(), " (", bpm_or_zero_str(x.bpm).as_str());
            let b: String = concat3(a.as_str(), " BPM, ", key_or_mark_str(&x.key).as_str());
            concat2(b.as_str(), ")")
        },
        None => owned("None"),
    }
}

/// How much of the playing track is left, in milliseconds.
pub open spec fn remaining_ms(info: NowPlaying) -> int {
    info.playing_duration_ms - info.playing_time_ms
}

fn remaining_str(info: &NowPlaying) -> (s: String)
    ensures
        s@ == seconds(remaining_ms(*info)),
{
    seconds_str(info.playing_duration_ms as i128 - info.playing_time_ms as i128)
}

/// What the DJ is told of what plays and what comes.
pub open spec fn phase_report(info: NowPlaying) -> Seq<char> {
    "Playing: "@ + described(info.playing_track) + "\nIncoming: "@ + described(info.incoming_track)
        + "\nPhase: "@ + phase_text(info.phase_us as int) + "\nTime remaining: "@ + seconds(
        remaining_ms(info),
    ) + "\nQueue: "@ + decimal(info.queue@.len()) + " tracks\nState: "@ + info.state_name@
}

pub fn phase_report_str(info: &NowPlaying) -> (s: String)
    ensures
        s@ == phase_report(*info),
{
    let s: String = concat3(
        "Playing: ",
        described_str(&info.playing_track).as_str(),
        "\nIncoming: ",
    );
    let s: String = concat3(
        s.as_str(),
        described_str(&info.incoming_track).as_str(),
        "\nPhase: ",
    );
    let s: String = concat3(s.as_str(), phase_str(info.phase_us).as_str(), "\nTime remaining: ");
    let s: String = concat3(s.as_str(), remaining_str(info).as_str(), "\nQueue: ");
    let s: String = concat3(
        s.as_str(),
        decimal_str(info.queue.len() as u64).as_str(),
        " tracks\nState: ",
    );
    concat2(s.as_str(), info.state_name.as_str())
}

/// A deck with where it is, or `empty`.
pub open spec fn deck_at(d: Deck) -> Seq<char> {
    match d.track {
        Some(t) => t.title@ + " ("@ + bpm_or_zero(d.bpm) + " BPM, "@ + key_or_mark(t.key) + ", "@
            + seconds(d.time_ms as int) + " in)"@,
        None => "empty"@,
    }
}

fn deck_at_str(d: &Deck) -> (s: String)
    ensures
        s@ == deck_at(*d),
{
    match &d.track {
        Some(t) => {
            let a: String = concat3(t.title.as_str(), " (", bpm_or_zero_str(d.bpm).as_str());
            let b: String = concat3(a.as_str(), " BPM, ", key_or_mark_str(&t.key).as_str());
            concat3(b.as_str(), ", ", concat2(
                seconds_str(d.time_ms as i128).as_str(),
                " in)",
            ).as_str())
        },
        None => owned("empty"),
    }
}

/// The equaliser of a deck.
pub open spec fn eq_text(d: Deck) -> Seq<char> {
    "EQ L"@ + signed_whole(d.eq_low as int) + "/M"@ + signed_whole(d.eq_mid as int) + "/H"@
        + signed_whole(d.eq_high as int)
}

fn eq_str(d: &Deck) -> (s: String)
    ensures
        s@ == eq_text(*d),
{
    let a: String = concat3("EQ L", signed_whole_str(d.eq_low).as_str(), "/M");
    let b: String = concat3(a.as_str(), signed_whole_str(d.eq_mid).as_str(), "/H");
    concat2(b.as_str(), signed_whole_str(d.eq_high).as_str())
}

pub open spec fn filter_text(d: Deck) -> Seq<char> {
    signed2(1000 * d.filter)
}

fn filter_str(d: &Deck) -> (s: String)
    ensures
        s@ == filter_text(*d),
{
    signed2_str(1000 * (d.filter as i64))
}

pub open spec fn truth(b: bool) -> Seq<char> {
    if b {
        "true"@
    } else {
        "false"@
    }
}

fn truth_str(b: bool) -> (s: &'static str)
    ensures
        s@ == truth(b),
{
    if b {
        "true"
    } else {
        "false"
    }
}

/// What the DJ is told while a crossfade runs.
pub open spec fn performance_context(info: NowPlaying, a: Alignment) -> Seq<char> {
    "deckA: "@ + deck_at(info.deck_a) + "\ndeckB: "@ + deck_at(info.deck_b) + "\nplaying_is_a: "@
        + truth(info.playing_is_a) + "\ncrossfader_pos: "@ + signed2(info.crossfader_pos as int)
        + " (progress "@ + decimal(round_div(info.crossfade_progress as nat, 10_000))
        + "%)\nphase_ms: "@ + crate::meters::signed_tenths(
        a.phase_us < 0,
        round_div(abs(a.phase_us as int), 100),
    ) + " (fraction: "@ + plain3(a.phase_fraction as int) + ")\nbeat_in_bar: A="@ + decimal(
        a.beat_in_bar_a as nat,
    ) + " B="@ + decimal(a.beat_in_bar_b as nat) + " (match="@ + truth(
        a.beat_in_bar_a == a.beat_in_bar_b,
    ) + ")\nbar_in_phrase: A="@ + decimal(a.bar_in_phrase_a as nat) + " B="@ + decimal(
        a.bar_in_phrase_b as nat,
    ) + " (delta="@ + decimal(ahead(a.bar_in_phrase_a, a.bar_in_phrase_b, 16))
        + ")\nmixer: deckA "@ + eq_text(info.deck_a) + " filter"@ + filter_text(info.deck_a)
        + " | deckB "@ + eq_text(info.deck_b) + " filter"@ + filter_text(info.deck_b)
}

fn performance_head(info: &NowPlaying) -> (s: String)
    ensures
        s@ == "deckA: "@ + deck_at(info.deck_a) + "\ndeckB: "@ + deck_at(info.deck_b)
            + "\nplaying_is_a: "@ + truth(info.playing_is_a) + "\ncrossfader_pos: "@ + signed2(
            info.crossfader_pos as int,
        ) + " (progress "@ + decimal(round_div(info.crossfade_progress as nat, 10_000))
            + "%)\nphase_ms: "@,
{
    let s: String = concat3("deckA: ", deck_at_str(&info.deck_a).as_str(), "\ndeckB: ");
    let s: String = concat3(s.as_str(), deck_at_str(&info.deck_b).as_str(), "\nplaying_is_a: ");
    let s: String = concat3(s.as_str(), truth_str(info.playing_is_a), "\ncrossfader_pos: ");
    let s: String = concat3(s.as_str(), signed2_str(info.crossfader_pos).as_str(), " (progress ");
    let p: u128 = rounded_div(info.crossfade_progress as u128, 10_000);
    concat3(s.as_str(), wide_decimal_str(p).as_str(), "%)\nphase_ms: ")
}

/// What the DJ is told while a crossfade runs.
pub fn build_performance_context(info: &NowPlaying, a: &Alignment) -> (s: String)
    ensures
        s@ == performance_context(*info, *a),
{
    let s: String = performance_head(info);
    let s: String = concat3(s.as_str(), phase_number_str(a.phase_us).as_str(), " (fraction: ");
    let s: String = concat3(
        s.as_str(),
        plain3_str(a.phase_fraction).as_str(),
        ")\nbeat_in_bar: A=",
    );
    let s: String = concat3(s.as_str(), decimal_str(a.beat_in_bar_a as u64).as_str(), " B=");
    let s: String = concat3(s.as_str(), decimal_str(a.beat_in_bar_b as u64).as_str(), " (match=");
    let s: String = concat3(
        s.as_str(),
        truth_str(a.beat_in_bar_a == a.beat_in_bar_b),
        ")\nbar_in_phrase: A=",
    );
    let s: String = concat3(s.as_str(), decimal_str(a.bar_in_phrase_a as u64).as_str(), " B=");
    let s: String = concat3(
        s.as_str(),
        decimal_str(a.bar_in_phrase_b as u64).as_str(),
        " (delta=",
    );
    let d: u64 = bars_ahead(a.bar_in_phrase_a, a.bar_in_phrase_b);
    let s: String = concat3(s.as_str(), decimal_str(d).as_str(), ")\nmixer: deckA ");
    let s: String = concat3(s.as_str(), eq_str(&info.deck_a).as_str(), " filter");
    let s: String = concat3(s.as_str(), filter_str(&info.deck_a).as_str(), " | deckB ");
    let s: String = concat3(s.as_str(), eq_str(&info.deck_b).as_str(), " filter");
    concat2(s.as_str(), filter_str(&info.deck_b).as_str())
}

/// The part of the evening, by its minutes.
pub open spec fn session_arc(minutes: u64) -> Seq<char> {
    if minutes <= 20 {
        "warmup"@
    } else if minutes <= 45 {
        "building"@
    } else if minutes <= 90 {
        "peak"@
    } else {
        "wind-down"@
    }
}

fn session_arc_str(minutes: u64) -> (s: &'static str)
    ensures
        s@ == session_arc(minutes),
{
    if minutes <= 20 {
        "warmup"
    } else if minutes <= 45 {
        "building"
    } else if minutes <= 90 {
        "peak"
    } else {
        "wind-down"
    }
}

/// The last of the stretches that has started.
pub open spec fn phrase_at(phrases: Seq<Phrase>, time_ms: u64) -> Option<Phrase>
    decreases phrases.len(),
{
    if phrases.len() == 0 {
        None
    } else if phrases.last().start_ms <= time_ms {
        Some(phrases.last())
    } else {
        phrase_at(phrases.drop_last(), time_ms)
    }
}

fn phrase_now(phrases: &Vec<Phrase>, time_ms: u64) -> (p: Option<Phrase>)
    ensures
        p == phrase_at(phrases@, time_ms),
        p matches Some(x) ==> x.start_ms <= time_ms,
{
    let mut i: usize = phrases.len();
    assert(phrases@.take(i as int) =~= phrases@);
    while i > 0
        invariant
            i <= phrases.len(),
            phrase_at(phrases@, time_ms) == phrase_at(phrases@.take(i as int), time_ms),
        decreases i,
    {
        assert(phrases@.take(i as int).drop_last() =~= phrases@.take(i - 1));
        if phrases[i - 1].start_ms <= time_ms {
            return Some(phrases[i - 1]);
        }
        i -= 1;
    }
    None
}

/// The stretch of the playing track that sounds, since when, and its energy.
pub open spec fn phrase_report(info: NowPlaying) -> Seq<char> {
    let found = match info.spec_deck(info.playing_is_a).analysis {
        Some(a) => phrase_at(a.phrases@, info.playing_time_ms),
        None => None,
    };
    match found {
        Some(p) => p.kind@ + " (started "@ + seconds(info.playing_time_ms - p.start_ms)
            + " ago, energy "@ + plain2(1000 * p.energy) + ")"@,
        None => "unknown"@,
    }
}

fn phrase_report_str(info: &NowPlaying) -> (s: String)
    ensures
        s@ == phrase_report(*info),
{
    let found: Option<Phrase> = match &info.deck(info.playing_is_a).analysis {
        Some(a) => phrase_now(&a.phrases, info.playing_time_ms),
        None => None,
    };
    match found {
        Some(p) => {
            let since: String = seconds_str((info.playing_time_ms - p.start_ms) as i128);
            let s: String = concat3(p.kind, " (started ", since.as_str());
            let s: String = concat3(
                s.as_str(),
                " ago, energy ",
                plain2_str(1000 * (p.energy as i64)).as_str(),
            );
            concat2(s.as_str(), ")")
        },
        None => owned("unknown"),
    }
}

/// How well the last mixes went, of the five newest entries those that were
/// mixed into, newest first.
pub open spec fn score_notes(history: Seq<HistoryEntry>, n: nat) -> Seq<Seq<char>>
    decreases n,
{
    if n == 0 || history.len() == 0 {
        Seq::empty()
    } else {
        let e = history.last();
        let rest = score_notes(history.drop_last(), (n - 1) as nat);
        match e.mix_score {
            Some(s) => seq![e.track.title@ + "="@ + decimal(s as nat)] + rest,
            None => rest,
        }
    }
}

fn scores_of(history: &Vec<HistoryEntry>) -> (v: Vec<String>)
    ensures
        strs(v@) == score_notes(history@, 5),
{
    let mut v: Vec<String> = Vec::new();
    let mut i: usize = history.len();
    let mut n: u64 = 5;
    assert(strs(v@) =~= Seq::<Seq<char>>::empty());
    assert(history@.take(i as int) =~= history@);
    assert(score_notes(history@, 5) =~= strs(v@) + score_notes(history@.take(i as int), n as nat));
    while i > 0 && n > 0
        invariant
            i <= history.len(),
            score_notes(history@, 5) == strs(v@) + score_notes(
                history@.take(i as int),
                n as nat,
            ),
        decreases i,
    {
        let ghost before = strs(v@);
        let ghost front = history@.take(i as int);
        assert(front.drop_last() =~= history@.take(i - 1));
        let e: &HistoryEntry = &history[i - 1];
        assert(front.last() == *e);
        let ghost rest = score_notes(history@.take(i - 1), (n - 1) as nat);
        if let Some(s) = e.mix_score {
            note(&mut v, concat3(e.track.title.as_str(), "=", decimal_str(s as u64).as_str()));
            assert(before + score_notes(front, n as nat) =~= strs(v@) + rest);
        }
        i -= 1;
        n -= 1;
    }
    assert(strs(v@) =~= score_notes(history@, 5));
    v
}

/// The first tracks of the queue with their tempo.
pub open spec fn queue_notes(queue: Seq<Track>, n: nat) -> Seq<Seq<char>> {
    Seq::new(
        min_of(n as int, queue.len() as int) as nat,
        |i: int| track_name(queue[i]) + " ("@ + bpm_or_zero(queue[i].bpm) + " BPM)"@,
    )
}

fn queue_notes_of(queue: &Vec<Track>) -> (v: Vec<String>)
    ensures
        strs(v@) == queue_notes(queue@, 5),
{
    let mut v: Vec<String> = Vec::new();
    let mut i: usize = 0;
    while i < queue.len() && i < 5
        invariant
            i <= queue.len(),
            i <= 5,
            strs(v@) == queue_notes(queue@, i as nat),
        decreases queue.len() - i,
    {
        let t: &Track = &queue[i];
        let s: String = concat3(t.name().as_str(), " (", bpm_or_zero_str(t.bpm).as_str());
        let s: String = concat2(s.as_str(), " BPM)");
        note(&mut v, s);
        i += 1;
        assert(strs(v@) =~= queue_notes(queue@, i as nat));
    }
    assert(strs(v@) =~= queue_notes(queue@, 5));
    v
}

/// One deck of the mixer.
pub open spec fn deck_mixer(d: Deck, name: Seq<char>) -> Seq<char> {
    name + eq_text(d) + "  Filter "@ + filter_text(d) + "  Fader "@ + plain2(1000 * d.fader) + (
    if d.loop_active {
        " LOOP"@
    } else {
        ""@
    })
}

fn deck_mixer_str(d: &Deck, name: &str) -> (s: String)
    ensures
        s@ == deck_mixer(*d, name@),
{
    let s: String = concat3(name, eq_str(d).as_str(), "  Filter ");
    let s: String = concat3(s.as_str(), filter_str(d).as_str(), "  Fader ");
    let tail: &str = if d.loop_active {
        " LOOP"
    } else {
        ""
    };
    concat3(s.as_str(), plain2_str(1000 * (d.fader as i64)).as_str(), tail)
}

/// The mixer as a whole.
pub open spec fn mixer_report(info: NowPlaying) -> Seq<char> {
    "Transition next: "@ + info.transition_type_name@ + "  Crossfader: "@ + signed2(
        info.crossfader_pos as int,
    ) + "\n"@ + deck_mixer(info.deck_a, "Deck A (left): "@) + "\n"@ + deck_mixer(
        info.deck_b,
        "Deck B (right): "@,
    )
}

fn mixer_report_str(info: &NowPlaying) -> (s: String)
    ensures
        s@ == mixer_report(*info),
{
    let s: String = concat3(
        "Transition next: ",
        info.transition_type_name.as_str(),
        "  Crossfader: ",
    );
    let s: String = concat3(s.as_str(), signed2_str(info.crossfader_pos).as_str(), "\n");
    let s: String = concat3(
        s.as_str(),
        deck_mixer_str(&info.deck_a, "Deck A (left): ").as_str(),
        "\n",
    );
    concat2(s.as_str(), deck_mixer_str(&info.deck_b, "Deck B (right): ").as_str())
}

pub open spec fn list_or(parts: Seq<Seq<char>>, none: Seq<char>) -> Seq<char> {
    if parts.len() == 0 {
        none
    } else {
        joined(parts, ", "@)
    }
}

fn list_or_str(parts: &Vec<String>, none: &str) -> (s: String)
    ensures
        s@ == list_or(strs(parts@), none@),
{
    if parts.len() == 0 {
        owned(none)
    } else {
        join_strs(parts, ", ")
    }
}

/// What the DJ is told between the mixes.
pub open spec fn dj_context(info: NowPlaying, breadcrumb: Seq<char>) -> Seq<char> {
    "STATE: "@ + info.state_name@ + "\nSession: "@ + decimal(info.session_time_min as nat)
        + " min ("@ + session_arc(info.session_time_min) + ")\nPlaying: "@ + described(
        info.playing_track,
    ) + "\nIncoming: "@ + described(info.incoming_track) + "\nTime remaining: "@ + seconds(
        remaining_ms(info),
    ) + "\nPhase: "@ + phase_text(info.phase_us as int) + "\nCurrent phrase: "@ + phrase_report(
        info,
    ) + "\nRecent mix scores (newest first): "@ + list_or(
        score_notes(info.history@, 5),
        "(none)"@,
    ) + "\nQueue ("@ + decimal(info.queue@.len()) + " tracks): "@ + list_or(
        queue_notes(info.queue@, 5),
        "empty"@,
    ) + "\nBrowse: "@ + breadcrumb + "\nMixer:\n"@ + mixer_report(info)
}

fn dj_context_head(info: &NowPlaying) -> (s: String)
    ensures
        s@ == "STATE: "@ + info.state_name@ + "\nSession: "@ + decimal(
            info.session_time_min as nat,
        ) + " min ("@ + session_arc(info.session_time_min) + ")\nPlaying: "@ + described(
            info.playing_track,
        ) + "\nIncoming: "@ + described(info.incoming_track) + "\nTime remaining: "@ + seconds(
            remaining_ms(*info),
        ) + "\nPhase: "@ + phase_text(info.phase_us as int) + "\nCurrent phrase: "@
            + phrase_report(*info),
{
    let s: String = concat3("STATE: ", info.state_name.as_str(), "\nSession: ");
    let s: String = concat3(s.as_str(), decimal_str(info.session_time_min).as_str(), " min (");
    let s: String = concat3(
        s.as_str(),
        session_arc_str(info.session_time_min),
        ")\nPlaying: ",
    );
    let s: String = concat3(
        s.as_str(),
        described_str(&info.playing_track).as_str(),
        "\nIncoming: ",
    );
    let s: String = concat3(
        s.as_str(),
        described_str(&info.incoming_track).as_str(),
        "\nTime remaining: ",
    );
    let s: String = concat3(s.as_str(), remaining_str(info).as_str(), "\nPhase: ");
    let s: String = concat3(s.as_str(), phase_str(info.phase_us).as_str(), "\nCurrent phrase: ");
    concat2(s.as_str(), phrase_report_str(info).as_str())
}

/// What the DJ is told between the mixes.
pub fn build_dj_context(info: &NowPlaying, breadcrumb: &str) -> (s: String)
    ensures
        s@ == dj_context(*info, breadcrumb@),
{
    let scores: Vec<String> = scores_of(&info.history);
    let queued: Vec<String> = queue_notes_of(&info.queue);
    let s: String = dj_context_head(info);
    let s: String = concat3(
        s.as_str(),
        "\nRecent mix scores (newest first): ",
        list_or_str(&scores, "(none)").as_str(),
    );
    let s: String = concat3(
        s.as_str(),
        "\nQueue (",
        decimal_str(info.queue.len() as u64).as_str(),
    );
    let s: String = concat3(s.as_str(), " tracks): ", list_or_str(&queued, "empty").as_str());
    let s: String = concat3(s.as_str(), "\nBrowse: ", breadcrumb);
    concat3(s.as_str(), "\nMixer:\n", mixer_report_str(info).as_str())
}

/// What the DJ is told when it is called: the slim form while a crossfade
/// runs, the full one otherwise.
pub open spec fn call_context(info: NowPlaying, a: Alignment, breadcrumb: Seq<char>) -> (
    bool,
    Seq<char>,
) {
    if info.crossfading {
        (true, performance_context(info, a))
    } else {
        (false, dj_context(info, breadcrumb))
    }
}

/// The context of a call of the DJ, and whether it is one during a crossfade.
pub fn trigger_context(info: &NowPlaying, a: &Alignment, breadcrumb: &str) -> (r: (bool, String))
    ensures
        (r.0, r.1@) == call_context(*info, *a, breadcrumb@),
{
    if info.crossfading {
        (true, build_performance_context(info, a))
    } else {
        (false, build_dj_context(info, breadcrumb))
    }
}

} // verus!
