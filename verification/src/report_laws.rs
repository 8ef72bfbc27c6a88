//! What the DJ is told, and what is kept of a mix.
use crate::deck::{Deck, HistoryEntry, NowPlaying, Phrase};
use crate::deck_laws::{gains_read_back, reads_as_whole};
use crate::dj_context::{
    ahead, alignment_notes, alignment_text, call_context, deck_at, deck_mixer, described, dj_context, eq_text,
    filter_text, mixer_report, performance_context, phase_report, phrase_at, queue_notes,
    score_notes, session_arc, truth, Alignment,
};
use crate::effects::{Act, EffectV};
use crate::logs::{message_of, window};
use crate::meters::{abs, signed_whole};
use crate::mixer_laws::ends_in;
use crate::numbers::{plain3, seconds, signed2};
use crate::ratings::{
    finished_mix, flipped_message, rate_last_effects, rate_step, rated_message,
    taken_back_message, DjMemory, HistoryMix,
};
use crate::readings::decimal_reads_back;
use crate::text::{decimal, digits_value, round_div};
use crate::track::{track_name, Track};
use vstd::prelude::*;

verus! {

/// A text starts with another one.
pub open spec fn starts_with(s: Seq<char>, head: Seq<char>) -> bool {
    head.len() <= s.len() && s.take(head.len() as int) == head
}

/// One step is so many steps of a round ahead of another when going on by them leads
/// there.
pub proof fn ahead_leads_there(a: u32, b: u32, round: int)
    requires
        round > 0,
    ensures
        0 <= ahead(a, b, round) < round,
        (a + ahead(a, b, round)) % round == b as int % round,
        a == b ==> ahead(a, b, round) == 0,
{
    let d = b - a;
    assert(0 <= d % round < round) by (nonlinear_arith)
        requires
            round > 0,
    ;
    vstd::arithmetic::div_mod::lemma_add_mod_noop_right(a as int, d, round);
    assert(a + d == b);
    if a == b {
        assert(0int % round == 0) by (nonlinear_arith)
            requires
                round > 0,
        ;
    }
}

/// What plays is reported as playing, what comes as coming.
pub proof fn playing_track_is_reported_first(info: NowPlaying)
    ensures
        starts_with(
            phase_report(info),
            "Playing: "@ + described(info.playing_track) + "\nIncoming: "@ + described(
                info.incoming_track,
            ) + "\n"@,
        ),
{
    reveal_strlit("\nPhase: ");
    reveal_strlit("\n");
    let head = "Playing: "@ + described(info.playing_track) + "\nIncoming: "@ + described(
        info.incoming_track,
    );
    assert("\nPhase: "@[0] == '\n' && "\n"@[0] == '\n' && "\n"@.len() == 1);
    let full = head + "\n"@;
    let report = phase_report(info);
    assert(report.len() >= full.len());
    assert(report.take(full.len() as int) =~= full);
}

/// A track is reported under its own name.
pub proof fn tracks_are_reported_by_name(t: Track)
    ensures
        starts_with(described(Some(t)), track_name(t) + " ("@),
{
    let head = track_name(t) + " ("@;
    assert(described(Some(t)).take(head.len() as int) =~= head);
}

/// What is put behind a text does not change what it starts with.
proof fn lemma_longer(s: Seq<char>, more: Seq<char>, head: Seq<char>)
    requires
        starts_with(s, head),
    ensures
        starts_with(s + more, head),
{
    assert((s + more).take(head.len() as int) =~= s.take(head.len() as int));
}

/// While a mix runs, deck A is reported as A and deck B as B.
pub proof fn decks_are_reported_by_name(info: NowPlaying, a: Alignment)
    ensures
        starts_with(
            performance_context(info, a),
            "deckA: "@ + deck_at(info.deck_a) + "\ndeckB: "@ + deck_at(info.deck_b)
                + "\nplaying_is_a: "@,
        ),
        call_context(info, a, Seq::empty()).0 == info.crossfading,
        info.crossfading ==> call_context(info, a, Seq::empty()).1 == performance_context(info, a),
        !info.crossfading ==> call_context(info, a, Seq::empty()).1 == dj_context(
            info,
            Seq::empty(),
        ),
{
    let head = "deckA: "@ + deck_at(info.deck_a) + "\ndeckB: "@ + deck_at(info.deck_b)
        + "\nplaying_is_a: "@;
    assert(head.take(head.len() as int) =~= head);
    lemma_longer(head, truth(info.playing_is_a), head);
    let p0 = head + truth(info.playing_is_a);
    lemma_longer(p0, "\ncrossfader_pos: "@, head);
    let p1 = p0 + "\ncrossfader_pos: "@;
    lemma_longer(p1, signed2(info.crossfader_pos as int), head);
    let p2 = p1 + signed2(info.crossfader_pos as int);
    lemma_longer(p2, " (progress "@, head);
    let p3 = p2 + " (progress "@;
    lemma_longer(p3, decimal(round_div(info.crossfade_progress as nat, 10_000)), head);
    let p4 = p3 + decimal(round_div(info.crossfade_progress as nat, 10_000));
    lemma_longer(p4, "%)\nphase_ms: "@, head);
    let p5 = p4 + "%)\nphase_ms: "@;
    lemma_longer(p5, crate::meters::signed_tenths(a.phase_us < 0, round_div(abs(a.phase_us as int), 100)), head);
    let p6 = p5 + crate::meters::signed_tenths(a.phase_us < 0, round_div(abs(a.phase_us as int), 100));
    lemma_longer(p6, " (fraction: "@, head);
    let p7 = p6 + " (fraction: "@;
    lemma_longer(p7, plain3(a.phase_fraction as int), head);
    let p8 = p7 + plain3(a.phase_fraction as int);
    lemma_longer(p8, ")\nbeat_in_bar: A="@, head);
    let p9 = p8 + ")\nbeat_in_bar: A="@;
    lemma_longer(p9, decimal(a.beat_in_bar_a as nat), head);
    let p10 = p9 + decimal(a.beat_in_bar_a as nat);
    lemma_longer(p10, " B="@, head);
    let p11 = p10 + " B="@;
    lemma_longer(p11, decimal(a.beat_in_bar_b as nat), head);
    let p12 = p11 + decimal(a.beat_in_bar_b as nat);
    lemma_longer(p12, " (match="@, head);
    let p13 = p12 + " (match="@;
    lemma_longer(p13, truth(a.beat_in_bar_a == a.beat_in_bar_b), head);
    let p14 = p13 + truth(a.beat_in_bar_a == a.beat_in_bar_b);
    lemma_longer(p14, ")\nbar_in_phrase: A="@, head);
    let p15 = p14 + ")\nbar_in_phrase: A="@;
    lemma_longer(p15, decimal(a.bar_in_phrase_a as nat), head);
    let p16 = p15 + decimal(a.bar_in_phrase_a as nat);
    lemma_longer(p16, " B="@, head);
    let p17 = p16 + " B="@;
    lemma_longer(p17, decimal(a.bar_in_phrase_b as nat), head);
    let p18 = p17 + decimal(a.bar_in_phrase_b as nat);
    lemma_longer(p18, " (delta="@, head);
    let p19 = p18 + " (delta="@;
    lemma_longer(p19, decimal(ahead(a.bar_in_phrase_a, a.bar_in_phrase_b, 16)), head);
    let p20 = p19 + decimal(ahead(a.bar_in_phrase_a, a.bar_in_phrase_b, 16));
    lemma_longer(p20, ")\nmixer: deckA "@, head);
    let p21 = p20 + ")\nmixer: deckA "@;
    lemma_longer(p21, eq_text(info.deck_a), head);
    let p22 = p21 + eq_text(info.deck_a);
    lemma_longer(p22, " filter"@, head);
    let p23 = p22 + " filter"@;
    lemma_longer(p23, filter_text(info.deck_a), head);
    let p24 = p23 + filter_text(info.deck_a);
    lemma_longer(p24, " | deckB "@, head);
    let p25 = p24 + " | deckB "@;
    lemma_longer(p25, eq_text(info.deck_b), head);
    let p26 = p25 + eq_text(info.deck_b);
    lemma_longer(p26, " filter"@, head);
    let p27 = p26 + " filter"@;
    lemma_longer(p27, filter_text(info.deck_b), head);
    let p28 = p27 + filter_text(info.deck_b);
    assert(p28 == performance_context(info, a));
}

/// The mixer is reported deck by deck, A on the left.
pub proof fn mixer_is_reported_deck_by_deck(info: NowPlaying)
    ensures
        crate::mixer_laws::ends_in(
            mixer_report(info),
            deck_mixer(info.deck_a, "Deck A (left): "@) + "\n"@ + deck_mixer(
                info.deck_b,
                "Deck B (right): "@,
            ),
        ),
{
    let tail = deck_mixer(info.deck_a, "Deck A (left): "@) + "\n"@ + deck_mixer(
        info.deck_b,
        "Deck B (right): "@,
    );
    let report = mixer_report(info);
    assert(report.skip(report.len() - tail.len()) =~= tail);
}

/// The gains of a deck are reported from low to high, each under its letter.
pub proof fn gains_are_reported_by_band(d: Deck)
    ensures
        ({
            let text = eq_text(d);
            let low = signed_whole(d.eq_low as int);
            let mid = signed_whole(d.eq_mid as int);
            let high = signed_whole(d.eq_high as int);
            &&& text == "EQ L"@ + low + "/M"@ + mid + "/H"@ + high
            &&& reads_as_whole(low, d.eq_low as int)
            &&& reads_as_whole(mid, d.eq_mid as int)
            &&& reads_as_whole(high, d.eq_high as int)
        }),
{
    gains_read_back(d.eq_low as int);
    gains_read_back(d.eq_mid as int);
    gains_read_back(d.eq_high as int);
}

/// Times are reported in the seconds that they are nearest to.
pub proof fn seconds_read_back(ms: int)
    ensures
        ({
            let text = seconds(ms);
            let size = if ms < 0 {
                text.subrange(1, text.len() - 1)
            } else {
                text.take(text.len() - 1)
            };
            &&& text.last() == 's'
            &&& text[0] == '-' <==> ms < 0
            &&& digits_value(size) * 1000 <= abs(ms) + 500
            &&& abs(ms) <= digits_value(size) * 1000 + 500
        }),
{
    reveal_strlit("-");
    reveal_strlit("");
    reveal_strlit("s");
    let n = round_div(abs(ms), 1000);
    decimal_reads_back(n);
    let text = seconds(ms);
    assert("s"@.len() == 1 && "-"@.len() == 1 && ""@.len() == 0);
    if ms < 0 {
        assert(text.subrange(1, text.len() - 1) =~= decimal(n));
    } else {
        assert(text.take(text.len() - 1) =~= decimal(n));
        assert(text[0] == decimal(n)[0]);
        assert(crate::text::is_digit(decimal(n)[0]));
    }
}

/// The parts of an evening follow each other.
pub open spec fn arc_rank(arc: Seq<char>) -> int {
    if arc == "warmup"@ {
        0
    } else if arc == "building"@ {
        1
    } else if arc == "peak"@ {
        2
    } else {
        3
    }
}

pub proof fn evening_goes_on(minutes: u64, later: u64)
    requires
        minutes <= later,
    ensures
        arc_rank(session_arc(minutes)) <= arc_rank(session_arc(later)),
        session_arc(0) == "warmup"@,
        minutes > 90 ==> session_arc(minutes) == "wind-down"@,
{
    reveal_strlit("warmup");
    reveal_strlit("building");
    reveal_strlit("peak");
    reveal_strlit("wind-down");
    assert("warmup"@.len() == 6 && "building"@.len() == 8 && "peak"@.len() == 4
        && "wind-down"@.len() == 9);
}

/// The stretch that sounds is the last one that has started.
pub proof fn sounding_phrase_has_started(phrases: Seq<Phrase>, time_ms: u64)
    ensures
        match phrase_at(phrases, time_ms) {
            Some(p) => p.start_ms <= time_ms && exists|i: int|
                0 <= i < phrases.len() && #[trigger] phrases[i] == p && forall|j: int|
                    i < j < phrases.len() ==> (#[trigger] phrases[j]).start_ms > time_ms,
            None => forall|j: int|
                0 <= j < phrases.len() ==> (#[trigger] phrases[j]).start_ms > time_ms,
        },
    decreases phrases.len(),
{
    if phrases.len() > 0 {
        let rest = phrases.drop_last();
        if phrases.last().start_ms <= time_ms {
            assert(phrases[phrases.len() - 1] == phrases.last());
        } else {
            sounding_phrase_has_started(rest, time_ms);
            assert forall|j: int| 0 <= j < phrases.len() - 1 implies phrases[j] == rest[j] by {}
            match phrase_at(rest, time_ms) {
                Some(p) => {
                    let i = choose|i: int|
                        0 <= i < rest.len() && #[trigger] rest[i] == p && forall|j: int|
                            i < j < rest.len() ==> (#[trigger] rest[j]).start_ms > time_ms;
                    assert(phrases[i] == p);
                    assert forall|j: int| i < j < phrases.len() implies (
                    #[trigger] phrases[j]).start_ms > time_ms by {
                        if j < rest.len() {
                            assert(rest[j].start_ms > time_ms);
                        }
                    }
                },
                None => {
                    assert forall|j: int| 0 <= j < phrases.len() implies (
                    #[trigger] phrases[j]).start_ms > time_ms by {
                        if j < rest.len() {
                            assert(rest[j].start_ms > time_ms);
                        }
                    }
                },
            }
        }
    }
}

/// The newest mix is reported first, with its own score.
pub proof fn newest_score_comes_first(history: Seq<HistoryEntry>, e: HistoryEntry, n: nat)
    requires
        n > 0,
    ensures
        e.mix_score matches Some(s) ==> score_notes(history.push(e), n) == seq![
            e.track.title@ + "="@ + decimal(s as nat),
        ] + score_notes(history, (n - 1) as nat),
        e.mix_score is None ==> score_notes(history.push(e), n) == score_notes(
            history,
            (n - 1) as nat,
        ),
        score_notes(history, n).len() <= n,
    decreases n,
{
    assert(history.push(e).drop_last() =~= history);
    lemma_few_scores(history, n);
}

proof fn lemma_few_scores(history: Seq<HistoryEntry>, n: nat)
    ensures
        score_notes(history, n).len() <= n,
    decreases n,
{
    if n > 0 && history.len() > 0 {
        lemma_few_scores(history.drop_last(), (n - 1) as nat);
    }
}

/// The queue is reported in its order, each track under its name.
pub proof fn queue_is_reported_in_order(queue: Seq<Track>, n: nat, i: int)
    requires
        0 <= i < n,
        i < queue.len(),
    ensures
        queue_notes(queue, n).len() <= n,
        starts_with(queue_notes(queue, n)[i], track_name(queue[i]) + " ("@),
{
    let head = track_name(queue[i]) + " ("@;
    assert(queue_notes(queue, n)[i].take(head.len() as int) =~= head);
}

/// Something is wrong with the alignment unless phase, beats and bars all agree.
pub proof fn misalignment_is_noted(a: Alignment)
    ensures
        alignment_notes(a).len() >= 1,
        abs(a.phase_us as int) > 5000 && a.beat_in_bar_a != a.beat_in_bar_b && a.bar_in_phrase_a
            != a.bar_in_phrase_b ==> alignment_notes(a).len() == 3,
        abs(a.phase_us as int) > 5000 ==> starts_with(alignment_notes(a)[0], "phase "@),
{
    if abs(a.phase_us as int) > 5000 {
        let note = alignment_notes(a)[0];
        assert(note.take("phase "@.len() as int) =~= "phase "@);
    }
}

/// A mix is kept as leading from the track that went out to the one that plays now,
/// with their tempos and keys in that order.
pub proof fn mix_leads_from_out_to_in(out: Track, bpm: u32, now: NowPlaying, t: Track)
    requires
        now.playing_track == Some(t),
    ensures
        ({
            let m = finished_mix(out, bpm, now);
            &&& m.pair == track_name(out) + " → "@ + track_name(t)
            &&& m.bpm matches Some((from, to)) && from == bpm && (now.playing_bpm matches Some(b)
                ==> to == b)
            &&& m.key is Some <==> out.key is Some && t.key is Some
            &&& out.key is Some && t.key is Some ==> m.key == Some(
                out.key->0@ + "→"@ + t.key->0@,
            )
            &&& m.transition == Some(now.transition_type_name@)
        }),
{
}

/// The thumb shown is the one given.
pub proof fn thumbs_are_as_given(good: bool)
    ensures
        rated_message(good)[11] == (if good {
            '👍'
        } else {
            '👎'
        }),
        taken_back_message(good)[8] == (if good {
            '👍'
        } else {
            '👎'
        }),
        flipped_message(good).last() == (if good {
            '👍'
        } else {
            '👎'
        }),
{
    reveal_strlit("Mix rated: 👍 saved to DJ memory");
    reveal_strlit("Mix rated: 👎 saved to DJ memory");
    reveal_strlit("Removed 👍 — entry unrated");
    reveal_strlit("Removed 👎 — entry unrated");
    reveal_strlit("Mix re-rated: 👎 → 👍");
    reveal_strlit("Mix re-rated: 👍 → 👎");
}

/// A rating goes to the entry it was given to and to no other, as it was given.
pub proof fn rating_goes_to_its_entry(
    mixes: Seq<Option<HistoryMix>>,
    index: usize,
    good: bool,
    dj: DjMemory,
    now: i64,
    other: int,
    i: int,
)
    requires
        0 <= other < mixes.len(),
        other != index,
        0 <= i < rate_step(mixes, index, good, dj, now).1.len(),
    ensures
        rate_step(mixes, index, good, dj, now).0.len() == mixes.len(),
        rate_step(mixes, index, good, dj, now).0[other] == mixes[other],
        rate_step(mixes, index, good, dj, now).1[i] matches EffectV::Do(Act::Rate {
            index: k,
            good: g,
            at,
        }) ==> k == index && g == good && at == now,
        index < mixes.len() && (rate_step(mixes, index, good, dj, now).0[index as int] matches Some(
            m,
        ) && m.rated != (mixes[index as int]->0).rated) ==> (rate_step(
            mixes,
            index,
            good,
            dj,
            now,
        ).0[index as int]->0).rated is None || (rate_step(
            mixes,
            index,
            good,
            dj,
            now,
        ).0[index as int]->0).rated == Some(good),
{
}

/// The last mix is rated as it was given, and only where there was one.
pub proof fn last_rating_is_as_given(mixed: bool, good: bool, dj: DjMemory, now: i64, i: int)
    requires
        0 <= i < rate_last_effects(mixed, good, dj, now).len(),
    ensures
        rate_last_effects(mixed, good, dj, now)[i] matches EffectV::Do(act) ==> mixed && act
            == (Act::RateLast { good, at: now }),
        mixed && dj is Ready ==> rate_last_effects(mixed, good, dj, now)[0] is Do,
{
}

/// A window of the log ends where it is scrolled to, and shows the lines in order.
pub proof fn window_ends_where_scrolled(lines: Seq<Seq<char>>, count: nat, offset: nat, i: int)
    requires
        offset < lines.len(),
        count > 0,
        0 <= i < window(lines, count, offset).len(),
    ensures
        window(lines, count, offset).len() <= count,
        window(lines, count, offset).last() == lines[lines.len() - 1 - offset],
        window(lines, count, offset)[i] == lines[lines.len() - offset - window(
            lines,
            count,
            offset,
        ).len() + i],
{
}

/// A line without a stamp is shown whole.
pub proof fn unstamped_lines_are_whole(line: Seq<char>)
    requires
        forall|i: int| 0 <= i < line.len() ==> line[i] != ']',
    ensures
        message_of(line) == line,
{
    lemma_no_bracket(line, 0);
}

proof fn lemma_no_bracket(line: Seq<char>, from: int)
    requires
        0 <= from <= line.len(),
        forall|i: int| 0 <= i < line.len() ==> line[i] != ']',
    ensures
        crate::boxes::first_of(line, ']', from) == line.len(),
    decreases line.len() - from,
{
    if from < line.len() {
        lemma_no_bracket(line, from + 1);
    }
}

/// Beats and bars are reported deck by deck, A before B.
pub proof fn beats_are_reported_deck_by_deck(a: Alignment)
    ensures
        ({
            let beats = "\nbeat_in_bar: A="@ + decimal(a.beat_in_bar_a as nat) + " B="@ + decimal(
                a.beat_in_bar_b as nat,
            );
            let bars = "\nbar_in_phrase: A="@ + decimal(a.bar_in_phrase_a as nat) + " B="@
                + decimal(a.bar_in_phrase_b as nat);
            ends_in(
                alignment_text(a),
                beats + bars + "\n"@ + crate::text::joined(alignment_notes(a), " | "@),
            )
        }),
{
    let beats = "\nbeat_in_bar: A="@ + decimal(a.beat_in_bar_a as nat) + " B="@ + decimal(
        a.beat_in_bar_b as nat,
    );
    let bars = "\nbar_in_phrase: A="@ + decimal(a.bar_in_phrase_a as nat) + " B="@ + decimal(
        a.bar_in_phrase_b as nat,
    );
    let tail = beats + bars + "\n"@ + crate::text::joined(alignment_notes(a), " | "@);
    let text = alignment_text(a);
    assert(text.skip(text.len() - tail.len()) =~= tail);
}

} // verus!
