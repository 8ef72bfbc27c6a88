//! What is found, counted and listed is the right thing.
use crate::app::App;
use crate::claude_screen::{entry_tag, LogEntryType};
use crate::clicks::{ClickAction, ClickTarget};
use crate::command::CommandWhen;
use crate::compat::signed_number;
use crate::control_places::{both_of, cue_at, cue_digit, slot_places};
use crate::controls::WaveformMode;
use crate::dashboard::text_waves;
use crate::deck::{Deck, NowPlaying, Phrase};
use crate::dispatch::{allowed, Capture};
use crate::dj_app::{key_note, playing_key, queued_text, tempo_note};
use crate::frame::{learn_content, row_places, setting_places, view_back, ContentV, DrawEnv};
use crate::help::{help_line, kept_lines, matches_filter, PairV};
use crate::key::KeyCode;
use crate::meters::{abs, energy_at, loudest, playhead, spark_cell, started};
use crate::midi_learn::Action;
use crate::mixer::overlay_head;
use crate::panels::Area;
use crate::readings::decimal_reads_back;
use crate::remote_deck::{queue_all_message, queued_message};
use crate::render::prompt_place;
use crate::report_laws::starts_with;
use crate::rules::RuleV;
use crate::rules_editor::{list_step, EditorV};
use crate::screens::{clock, full_first, full_second, now_playing};
use crate::settings::{ItemV, TextRowV};
use crate::settings_list::{focusable, starred, text_line};
use crate::style::Color;
use crate::text::{decimal, digits_value, find, joined, occurs_at, signed_decimal};
use crate::track::{bpm_whole, track_name, Track};
use vstd::prelude::*;

verus! {

/// The loudest of some peaks is one of them, and none is louder.
pub proof fn loudest_is_one_of_the_peaks(peaks: Seq<i32>, i: int)
    requires
        0 <= i < peaks.len(),
    ensures
        abs(peaks[i] as int) <= loudest(peaks),
        exists|k: int| 0 <= k < peaks.len() && abs(#[trigger] peaks[k] as int) == loudest(peaks),
    decreases peaks.len(),
{
    let n = peaks.len() - 1;
    let rest = peaks.drop_last();
    if rest.len() > 0 {
        loudest_is_one_of_the_peaks(
            rest,
            if i < n {
                i
            } else {
                0
            },
        );
        let k = choose|k: int| 0 <= k < rest.len() && abs(#[trigger] rest[k] as int) == loudest(rest);
        assert(rest[k] == peaks[k]);
        if i < n {
            assert(rest[i] == peaks[i]);
        }
    } else {
        assert(loudest(rest) == 0);
    }
    assert(peaks[n] == peaks.last());
}

/// On a sparkline the playhead and nothing else is green, and what was played is
/// dark unless the next mix starts there.
pub proof fn sparkline_is_lit_at_the_playhead(
    phrases: Seq<Phrase>,
    time: nat,
    total: nat,
    w: nat,
    mix: Option<u64>,
    col: int,
)
    ensures
        spark_cell(phrases, time, total, w, mix, col).1.fg == Some(Color::Green) <==> col
            == playhead(time, total, w),
        spark_cell(phrases, time, total, w, mix, col).1.fg == Some(Color::DarkGray) ==> col
            < playhead(time, total, w),
        spark_cell(phrases, time, total, w, mix, col).1.fg == Some(Color::White) ==> col > playhead(
            time,
            total,
            w,
        ),
        mix is None ==> spark_cell(phrases, time, total, w, mix, col).1.fg != Some(Color::Yellow),
{
}

/// A signed number that was written reads back as it was.
pub proof fn signed_numbers_read_back(n: int)
    requires
        -0x8000_0000 <= n <= 0x7fff_ffff,
    ensures
        signed_number(signed_decimal(n)) == Some(n),
{
    reveal_strlit("-");
    let s = signed_decimal(n);
    if n < 0 {
        decimal_reads_back((-n) as nat);
        assert(s.skip(1) =~= decimal((-n) as nat));
    } else {
        decimal_reads_back(n as nat);
        assert(crate::text::is_digit(decimal(n as nat)[0]));
    }
}

/// What is found is there, and nowhere before it.
pub proof fn first_place_is_found(s: Seq<char>, needle: Seq<char>, from: int, j: int)
    requires
        0 <= from <= j,
    ensures
        find(s, needle, from) matches Some(i) ==> from <= i && occurs_at(s, needle, i) && (j < i
            ==> !occurs_at(s, needle, j)),
        find(s, needle, from) is None ==> !occurs_at(s, needle, j),
    decreases s.len() + 1 - from,
{
    if from + needle.len() <= s.len() && !occurs_at(s, needle, from) {
        first_place_is_found(
            s,
            needle,
            from + 1,
            if j == from {
                j + 1
            } else {
                j
            },
        );
    }
}

/// A label that is shown for both decks is found twice, and the two places do not
/// overlap.
pub proof fn labels_of_the_decks_lie_apart(row: Seq<char>, label: Seq<char>)
    ensures
        both_of(row, label).0 matches Some(i) ==> occurs_at(row, label, i),
        both_of(row, label).1 matches Some(j) ==> occurs_at(row, label, j) && (both_of(
            row,
            label,
        ).0 matches Some(i) && i + label.len() <= j),
{
    first_place_is_found(row, label, 0, 0);
    if let Some(i) = find(row, label, 0) {
        first_place_is_found(row, label, i + label.len(), i + label.len());
    }
}

/// A hot cue is clicked where its number is shown, behind a dot.
pub proof fn hot_cues_are_clicked_at_their_number(row: Seq<char>, slot: int, from: int)
    requires
        0 <= from,
        1 <= slot <= 4,
    ensures
        cue_at(row, slot, from) matches Some(i) ==> from <= i && i + 3 <= row.len() && (row[i]
            == '●' || row[i] == '○') && row[i + 2] == cue_digit(slot),
{
    reveal_strlit("● ");
    reveal_strlit("○ ");
    let full = "● "@ + seq![cue_digit(slot)];
    let empty = "○ "@ + seq![cue_digit(slot)];
    assert("● "@.len() == 2 && "○ "@.len() == 2);
    first_place_is_found(row, full, from, from);
    first_place_is_found(row, empty, from, from);
    if let Some(i) = find(row, full, from) {
        assert(row.subrange(i, i + 3)[0] == full[0] && row.subrange(i, i + 3)[2] == full[2]);
    }
    if let Some(i) = find(row, empty, from) {
        assert(row.subrange(i, i + 3)[0] == empty[0] && row.subrange(i, i + 3)[2] == empty[2]);
    }
}

/// Of the two hot cues of a slot the first is that of deck A; both press the digit
/// of the slot.
pub proof fn hot_cues_are_of_their_deck(row: Seq<char>, slot: int, x: int, y: int, i: int)
    requires
        1 <= slot <= 4,
        0 <= i < slot_places(row, slot, x, y).len(),
    ensures
        ({
            let p = slot_places(row, slot, x, y)[i];
            &&& p.midi_action == Some((Action::Cue { is_a: i == 0, slot: (slot - 1) as u8 }))
            &&& p.action == ClickAction::SimulateKey(KeyCode::Char(cue_digit(slot)))
        }),
{
}

/// Every kind of log entry has its own tag and colour.
pub proof fn entries_are_told_apart(a: LogEntryType, b: LogEntryType)
    ensures
        a != b ==> entry_tag(a).0@ != entry_tag(b).0@ && entry_tag(a).1 != entry_tag(b).1,
        entry_tag(LogEntryType::Error).1 is Red,
{
    reveal_strlit("ACT");
    reveal_strlit("TRK");
    reveal_strlit("PHZ");
    reveal_strlit("FLO");
    reveal_strlit("USR");
    reveal_strlit("ERR");
    reveal_strlit("INF");
    assert("ACT"@[0] == 'A' && "TRK"@[0] == 'T' && "PHZ"@[0] == 'P' && "FLO"@[0] == 'F'
        && "USR"@[0] == 'U' && "ERR"@[0] == 'E' && "INF"@[0] == 'I');
}

/// Without a filter the help shows every row in its order; with one, a row that
/// matches is shown and none that does not.
pub proof fn help_shows_what_matches(rows: Seq<PairV>, filter: Seq<char>, n: nat, k: int)
    requires
        0 <= k < n <= rows.len(),
    ensures
        kept_lines(rows, filter, n).len() <= n,
        filter.len() == 0 ==> kept_lines(rows, filter, n).len() == n && kept_lines(
            rows,
            filter,
            n,
        )[k] == help_line(rows[k]),
        matches_filter(rows[k], filter) ==> kept_lines(rows, filter, n).contains(
            help_line(rows[k]),
        ),
        forall|i: int|
            filter.len() > 0 && 0 <= i < kept_lines(rows, filter, n).len() ==> exists|j: int|
                0 <= j < n && matches_filter(#[trigger] rows[j], filter)
                    && #[trigger] kept_lines(rows, filter, n)[i] == help_line(rows[j]),
    decreases n,
{
    let lines = kept_lines(rows, filter, n);
    let before = kept_lines(rows, filter, (n - 1) as nat);
    if k < n - 1 {
        help_shows_what_matches(rows, filter, (n - 1) as nat, k);
        if matches_filter(rows[k], filter) {
            let at = choose|at: int| 0 <= at < before.len() && before[at] == help_line(rows[k]);
            assert(lines[at] == help_line(rows[k]));
        }
    } else {
        if n > 1 {
            help_shows_what_matches(rows, filter, (n - 1) as nat, 0);
        }
        if matches_filter(rows[k], filter) {
            assert(lines.last() == help_line(rows[k]));
        }
    }
    assert forall|i: int| filter.len() > 0 && 0 <= i < lines.len() implies exists|j: int|
        0 <= j < n && matches_filter(#[trigger] rows[j], filter) && #[trigger] lines[i]
            == help_line(rows[j]) by {
        if i < before.len() {
            assert(lines[i] == before[i]);
            let j = choose|j: int|
                0 <= j < n - 1 && matches_filter(#[trigger] rows[j], filter) && #[trigger] before[i]
                    == help_line(rows[j]);
            assert(matches_filter(rows[j], filter));
        } else {
            assert(matches_filter(rows[n - 1], filter));
        }
    }
}

/// A text that is being edited shows what was typed so far; one that is not shows
/// what is set, marked where it differs from the default.
pub proof fn texts_show_what_is_set(row: TextRowV, selected: bool, typed: Seq<char>)
    ensures
        ({
            let edited = text_line(row, true, Some(typed));
            edited[edited.len() - 2].text == typed
        }),
        row.value.len() > 0 ==> ({
            let line = text_line(row, selected, None);
            if row.value != row.default {
                line.last() == starred() && line[line.len() - 2].text == row.value
            } else {
                line.last().text == row.value
            }
        }),
        row.value.len() == 0 ==> text_line(row, selected, None).last().text == row.placeholder@,
        text_line(row, false, Some(typed)) == text_line(row, false, None),
{
}

/// A rule that is deleted is the one selected; the others stay in their order, and
/// the selection stays on the list.
pub proof fn selected_rule_is_deleted(
    e: EditorV,
    smart: Seq<RuleV>,
    smart_default: Seq<char>,
    i: int,
)
    requires
        0 <= e.selected < e.rules.len(),
        0 <= i < e.rules.len() - 1,
    ensures
        ({
            let next = list_step(e, KeyCode::Char('D'), smart, smart_default).0;
            &&& next.rules.len() == e.rules.len() - 1
            &&& i < e.selected ==> next.rules[i] == e.rules[i]
            &&& i >= e.selected ==> next.rules[i] == e.rules[i + 1]
            &&& 0 <= next.selected < next.rules.len()
            &&& next.dirty
            &&& next.default == e.default
        }),
{
}

/// The smart rules take the place of all rules, and of the default.
pub proof fn smart_rules_replace_all(e: EditorV, smart: Seq<RuleV>, smart_default: Seq<char>)
    ensures
        ({
            let next = list_step(e, KeyCode::Char('Z'), smart, smart_default).0;
            next.rules == smart && next.default == smart_default && next.dirty
        }),
{
}

/// A place selects a row that can have the focus, and that row is on the line of the
/// place.
pub open spec fn selects(items: Seq<ItemV>, area: Area, p: ClickTarget, line: int) -> bool {
    &&& 0 <= line < items.len()
    &&& items[line] is Row
    &&& p.y == area.y + line
    &&& p.action matches ClickAction::SetSelected(k) && k < focusable(items).len() && focusable(
        items,
    )[k as int] == items[line]
}

/// A click on a setting selects the setting on that line.
pub proof fn clicked_setting_is_selected(items: Seq<ItemV>, area: Area, i: int) -> (line: int)
    requires
        0 <= i < setting_places(items, area).len(),
        area.y + area.height <= 0xffff,
        items.len() <= 0xffff,
    ensures
        selects(items, area, setting_places(items, area)[i], line),
    decreases items.len(),
{
    let rest = items.drop_last();
    let before = setting_places(rest, area);
    lemma_focusable_len(rest);
    if i < before.len() {
        let line = clicked_setting_is_selected(rest, area, i);
        assert(rest[line] == items[line]);
        let p = before[i];
        if let ClickAction::SetSelected(k) = p.action {
            assert(focusable(items)[k as int] == focusable(rest)[k as int]);
        }
        line
    } else {
        items.len() - 1
    }
}

proof fn lemma_focusable_len(items: Seq<ItemV>)
    ensures
        focusable(items).len() <= items.len(),
    decreases items.len(),
{
    if items.len() > 0 {
        lemma_focusable_len(items.drop_last());
    }
}

/// How many tracks were queued, and how many were there already, is said; together
/// they are all of them.
pub proof fn queued_tracks_are_counted(total: nat, added: nat)
    requires
        added <= total,
    ensures
        ({
            let text = queue_all_message(total, added);
            let n = decimal(added).len() as int;
            &&& digits_value(text.subrange(7, 7 + n)) == added
            &&& added < total ==> digits_value(
                text.subrange(
                    17 + n,
                    17 + n + decimal((total - added) as nat).len() as int,
                ),
            ) + added == total
        }),
{
    reveal_strlit("Queued ");
    reveal_strlit(", skipped ");
    assert("Queued "@.len() == 7 && ", skipped "@.len() == 10);
    let text = queue_all_message(total, added);
    let n = decimal(added).len() as int;
    let m = decimal((total - added) as nat).len() as int;
    decimal_reads_back(added);
    decimal_reads_back((total - added) as nat);
    assert(text.subrange(7, 7 + n) =~= decimal(added));
    if added < total {
        assert(text.subrange(17 + n, 17 + n + m) =~= decimal((total - added) as nat));
    }
}

/// A track that was there already is not said to be queued.
pub proof fn known_tracks_are_told(name: Seq<char>, tail: Seq<char>, added: bool)
    ensures
        queued_message(name, added, tail)[0] == (if added {
            'Q'
        } else {
            'A'
        }),
        crate::mixer_laws::ends_in(queued_message(name, added, tail), name + tail),
{
    reveal_strlit("Queued: ");
    reveal_strlit("Already queued: ");
    let text = queued_message(name, added, tail);
    let end = name + tail;
    assert("Queued: "@.len() == 8 && "Already queued: "@.len() == 16);
    assert(text.skip(text.len() - end.len()) =~= end);
}

/// A click on a row of a list selects the item shown there: the row scrolled to
/// stands first, and one row lower is one item further.
pub proof fn clicked_row_is_selected(area: Area, count: nat, scroll: nat, k: int)
    requires
        0 <= k < row_places(area, count, scroll).len(),
        area.y + area.height <= 0xffff,
        count <= usize::MAX,
    ensures
        ({
            let places = row_places(area, count, scroll);
            &&& places[k].action matches ClickAction::SetSelected(i) && i - scroll == places[k].y
                - area.y && i < count
            &&& area.y <= places[k].y < area.y + area.height
            &&& places[k].covers(area.x as int, places[k].y as int) || area.width == 0
        }),
{
}

/// While something else reads keys only the commands that always work fire, and
/// those of the dashboard only there.
pub proof fn commands_wait_while_keys_are_read(when: CommandWhen, c: Capture)
    ensures
        allowed(when, c) && (c.fav_picker || c.asking || c.filtering || c.prompt || c.midi_map
            || c.confirm || c.editing) ==> when is Always,
        allowed(when, c) && when is DashboardNormal ==> c.view is Dashboard,
        allowed(when, c) && when is FreeScreen ==> !(c.view is Search) && !(c.view is Settings)
            && !(c.view is Help) && !(c.view is Mixer) && !(c.view is TransitionRules),
        allowed(CommandWhen::Always, c),
{
}

/// The button that goes back does what Escape does, and lies in the top border.
pub proof fn back_button_is_escape(main: Area, i: int)
    requires
        0 <= i < view_back(main).len(),
        main.x + main.width <= 0xffff,
    ensures
        view_back(main)[i].action == ClickAction::SimulateKey(KeyCode::Esc),
        view_back(main)[i].y == main.y,
        main.x <= view_back(main)[i].x,
        view_back(main)[i].x + view_back(main)[i].w <= main.x + main.width,
{
}

/// The prompt stands on the last row of the screen, over its whole width.
pub proof fn prompt_stands_at_the_bottom(size: Area)
    requires
        size.height > 0,
    ensures
        prompt_place(size).y + prompt_place(size).height == size.height,
        prompt_place(size).width == size.width,
{
}

/// The head of the mixer lights the deck that is worked on, and no other.
pub proof fn selected_deck_is_lit(is_a: bool)
    ensures
        overlay_head(is_a)[1].style.fg == Some(Color::Yellow) <==> is_a,
        overlay_head(is_a)[3].style.fg == Some(Color::Yellow) <==> !is_a,
        overlay_head(is_a)[1].text[7] == 'A',
        overlay_head(is_a)[3].text[7] == 'B',
{
    reveal_strlit("  Deck A  ");
    reveal_strlit("  Deck B  ");
}

/// The waveforms stand one above the other, each of its own deck: the first is as
/// it is whatever the other deck holds.
pub proof fn waveforms_are_of_their_deck(
    info: NowPlaying,
    other: Deck,
    mode: WaveformMode,
    w: nat,
)
    requires
        info.deck_a.analysis is Some,
        info.deck_b.analysis is Some,
        other.analysis is Some,
        mode != WaveformMode::Off,
    ensures
        text_waves(info, mode, w).len() == 2,
        text_waves(NowPlaying { deck_b: other, ..info }, mode, w)[0] == text_waves(
            info,
            mode,
            w,
        )[0],
        text_waves(NowPlaying { deck_a: other, ..info }, mode, w)[1] == text_waves(
            info,
            mode,
            w,
        )[1],
{
}

/// A controller event that was caught stays on show whatever comes in after it, and
/// without a listener there is none.
pub proof fn caught_event_stays_on_show(a: App, env: DrawEnv, later: Option<String>)
    ensures
        a.learn.captured is Some ==> learn_content(a, DrawEnv { latest: later, ..env })
            == learn_content(a, env),
        !env.has_midi ==> learn_content(a, DrawEnv { latest: later, ..env }) == learn_content(
            a,
            env,
        ),
        learn_content(a, env) matches ContentV::Learn { actions, .. } && actions.len()
            == env.actions@.len(),
{
}

/// What plays is named with its tempo and the time that is left.
pub proof fn playing_bar_counts_down(name: Seq<char>, bpm: Option<u32>, left: nat)
    ensures
        crate::mixer_laws::ends_in(now_playing(Some(name), bpm, left).text, clock(left)),
        starts_with(now_playing(Some(name), bpm, left).text, "▶ "@ + name),
{
    let text = now_playing(Some(name), bpm, left).text;
    let head = "▶ "@ + name;
    assert(text.skip(text.len() - clock(left).len()) =~= clock(left));
    assert(text.take(head.len() as int) =~= head);
}

/// A track that is queued is compared with the one that plays: the tempo that plays
/// is said before its own.
pub proof fn queued_track_is_compared_with_what_plays(
    t: Track,
    info: NowPlaying,
    p: u32,
    q: u32,
    distance: u32,
)
    requires
        info.playing_bpm == Some(p),
        t.bpm == Some(q),
        p > 0,
        q > 0,
        100 * q <= 108 * p,
        100 * q >= 92 * p,
    ensures
        starts_with(
            queued_text(t, info, distance),
            "Queued: "@ + track_name(t) + " ["@ + "BPM "@ + bpm_whole(p) + "→"@ + bpm_whole(q)
                + " ("@,
        ),
{
    reveal_with_fuel(joined, 3);
    let notes = tempo_note(info.playing_bpm, t.bpm) + key_note(playing_key(info), t.key, distance);
    let text = queued_text(t, info, distance);
    let first = "BPM "@ + bpm_whole(p) + "→"@ + bpm_whole(q) + " ("@;
    let head = "Queued: "@ + track_name(t) + " ["@ + "BPM "@ + bpm_whole(p) + "→"@ + bpm_whole(q)
        + " ("@;
    assert(notes[0] == tempo_note(info.playing_bpm, t.bpm)[0]);
    assert(notes[0].take(first.len() as int) =~= first);
    let list = joined(notes, ", "@);
    if notes.len() == 2 {
        assert(notes.drop_last().len() == 1 && notes.drop_last()[0] == notes[0]);
        assert(list == notes[0] + ", "@ + notes[1]);
    } else {
        assert(list == notes[0]);
    }
    assert(list.take(first.len() as int) =~= first);
    assert(head =~= "Queued: "@ + track_name(t) + " ["@ + first);
    assert(text.take(head.len() as int) =~= head);
}

/// The energy of a column is that of a phrase that has started there, and the next
/// one has not.
pub proof fn energy_is_of_the_phrase_that_sounds(
    phrases: Seq<Phrase>,
    total: nat,
    w: nat,
    col: nat,
)
    requires
        phrases.len() > 0,
        phrases[0].start_ms * w <= col * total,
    ensures
        exists|k: int|
            0 <= k < phrases.len() && energy_at(phrases, total, w, col) == (
            #[trigger] phrases[k]).energy && phrases[k].start_ms * w <= col * total && (k + 1
                < phrases.len() ==> phrases[k + 1].start_ms * w > col * total),
{
    lemma_started(phrases, total, w, col);
    let k = started(phrases, total, w, col) - 1;
    assert(phrases[k].energy == energy_at(phrases, total, w, col));
}

proof fn lemma_started(phrases: Seq<Phrase>, total: nat, w: nat, col: nat)
    requires
        phrases.len() > 0,
        phrases[0].start_ms * w <= col * total,
    ensures
        ({
            let n = started(phrases, total, w, col);
            &&& 0 < n <= phrases.len()
            &&& phrases[n - 1].start_ms * w <= col * total
            &&& n < phrases.len() ==> phrases[n as int].start_ms * w > col * total
        }),
    decreases phrases.len(),
{
    reveal_with_fuel(started, 2);
    let rest = phrases.drop_first();
    if rest.len() > 0 && rest[0].start_ms * w <= col * total {
        lemma_started(rest, total, w, col);
        let n = started(rest, total, w, col);
        assert(rest[n - 1] == phrases[n as int]);
        if n < rest.len() {
            assert(rest[n as int] == phrases[n as int + 1]);
        }
    }
}

/// On the artist and on the remixers the cell of that name is underlined: the artist
/// comes first in the line.
pub proof fn column_under_the_cursor_is_underlined(t: Track, i: int, w: (int, int, int))
    ensures
        full_second(t, true, 0, w)[1].style.modifier.underlined,
        !full_second(t, true, 1, w)[1].style.modifier.underlined,
        full_second(t, true, 1, w)[2].style.modifier.underlined,
        !full_second(t, false, 0, w)[1].style.modifier.underlined,
        !full_first(t, i, true, 2, w)[1].style.modifier.underlined,
        full_first(t, i, true, 2, w)[2].style.modifier.underlined,
        !full_first(t, i, true, 3, w)[2].style.modifier.underlined,
        full_first(t, i, true, 3, w)[3].style.modifier.underlined,
        !full_first(t, i, true, 4, w)[3].style.modifier.underlined,
        full_first(t, i, true, 4, w)[4].style.modifier.underlined,
{
}

} // verus!
