//! What the panels of the dashboard, and its plain form, show of the decks.
use crate::boxes::{ctrl_row, two_col_row};
use crate::control_rows::{
    center_col, jump_label, left_one, marked, meter_width, right_one, row_one, spaced,
};
use crate::controller::{compare_head, compare_lines, compare_text};
use crate::controls::{CtrlSection, WaveformMode};
use crate::dashboard::{
    dashboard_text, text_controller, text_queue_item, text_state, text_track,
};
use crate::deck::{Deck, NowPlaying};
use crate::deck_lines::{deck_line, deck_text, natural_line, tempo_text};
use crate::meter_laws::{fit_is_mutual, ranks_read_back};
use crate::meters::{crossfader_bar, cue_dots};
use crate::mixer_laws::ends_in;
use crate::panels::{browse_text, history_item, log_rows, rank_text};
use crate::readings::{clock_reads_back, clock_value, decimal_reads_back};
use crate::report_laws::starts_with;
use crate::rules::ActionV;
use crate::rules_view::preview_lines;
use crate::style::{Color, Style};
use crate::text::{decimal, digits_value, fit};
use crate::track::{bpm_whole, track_name, Track};
use vstd::prelude::*;

verus! {

/// A text is the time of a deck, a slash, and the length of its track.
pub open spec fn is_time_of(text: Seq<char>, k: int, deck: Deck) -> bool {
    &&& 4 <= k && k + 3 < text.len()
    &&& text.subrange(k, k + 3) == " / "@
    &&& clock_value(text.take(k)) == deck.time_ms / 1000
    &&& clock_value(text.skip(k + 3)) == deck.duration_ms / 1000
}

/// The plain form of a deck names it, and shows where it is before how long its track
/// is.
pub proof fn plain_deck_shows_time_before_length(deck: Deck, is_a: bool, w: nat, t: Track)
    requires
        deck.track == Some(t),
    ensures
        deck_text(deck, is_a, w).len() == 3,
        deck_text(deck, is_a, w)[0][5] == (if is_a {
            'A'
        } else {
            'B'
        }),
        ends_in(deck_text(deck, is_a, w)[0], tempo_text(deck.bpm) + " BPM"@),
        exists|k: int| is_time_of(deck_text(deck, is_a, w)[2], k, deck),
{
    reveal_strlit("DECK A");
    reveal_strlit("DECK B");
    reveal_strlit(" / ");
    reveal_strlit(" ");
    let at = crate::screens::clock(deck.time_ms as nat / 1000);
    let of = crate::screens::clock(deck.duration_ms as nat / 1000);
    clock_reads_back(deck.time_ms as nat / 1000);
    clock_reads_back(deck.duration_ms as nat / 1000);
    let text = deck_text(deck, is_a, w)[2];
    let k = at.len() as int;
    assert(" / "@.len() == 3);
    assert(text == at + " / "@ + of);
    assert(text.subrange(k, k + 3) =~= " / "@);
    assert(text.take(k) =~= at);
    assert(text.skip(k + 3) =~= of);
    assert(is_time_of(text, k, deck));
    let head = deck_text(deck, is_a, w)[0];
    let tail = tempo_text(deck.bpm) + " BPM"@;
    assert("DECK A"@.len() == 6 && "DECK B"@.len() == 6);
    assert(head.skip(head.len() - tail.len()) =~= tail);
}

/// The plain dashboard shows deck A before deck B on every row.
pub proof fn plain_dashboard_shows_a_before_b(info: NowPlaying, mode: WaveformMode, w: nat, i: int)
    requires
        0 <= i < 3,
    ensures
        ({
            let half = crate::dashboard::text_half(w);
            text_controller(info, mode, w)[2 + i] == crate::dashboard::text_row(
                fit(deck_text(info.deck_a, true, half)[i], half) + "  "@ + fit(
                    deck_text(info.deck_b, false, half)[i],
                    half,
                ),
                w,
            )
        }),
        dashboard_text(info, mode, w).len() >= 5,
{
}

/// The state names what plays as playing and what comes as incoming, with their
/// tempos.
pub proof fn state_names_playing_and_incoming(info: NowPlaying)
    ensures
        text_state(info).len() == 3,
        starts_with(text_state(info)[1], "Playing:  "@),
        ends_in(text_state(info)[1], text_track(info.playing_bpm, info.playing_track)),
        starts_with(text_state(info)[2], "Incoming: "@),
        ends_in(text_state(info)[2], text_track(info.incoming_bpm, info.incoming_track)),
{
    let p = text_track(info.playing_bpm, info.playing_track);
    let i = text_track(info.incoming_bpm, info.incoming_track);
    let a = text_state(info)[1];
    let b = text_state(info)[2];
    assert(a.take("Playing:  "@.len() as int) =~= "Playing:  "@);
    assert(b.take("Incoming: "@.len() as int) =~= "Incoming: "@);
    assert(a.skip(a.len() - p.len()) =~= p);
    assert(b.skip(b.len() - i.len()) =~= i);
}

/// A track of the plain queue is ranked from one and shown by its own name.
pub proof fn plain_queue_is_ranked(info: NowPlaying, i: int)
    requires
        0 <= i < info.queue@.len(),
        i < 99,
    ensures
        ({
            let text = text_queue_item(info, i);
            &&& digits_value(
                text.subrange(
                    if i < 9 {
                        1
                    } else {
                        0
                    },
                    2,
                ),
            ) == i + 1
            &&& starts_with(text.skip(4), track_name(info.queue@[i]))
        }),
{
    reveal_strlit("  ");
    decimal_reads_back((i + 1) as nat);
    let text = text_queue_item(info, i);
    let name = track_name(info.queue@[i]);
    assert("  "@.len() == 2);
    assert(text.subrange(
        if i < 9 {
            1
        } else {
            0
        },
        2,
    ) =~= decimal((i + 1) as nat));
    assert(text.skip(4).take(name.len() as int) =~= name);
}

/// A row of a box of two columns shows the item of that row on the left, and on the
/// right the one half the list further down.
pub proof fn columns_share_the_items(
    items: Seq<(Color, Seq<char>)>,
    row: int,
    w: nat,
    border: Style,
)
    requires
        0 <= row < (items.len() + 1) / 2,
    ensures
        ({
            let half = (items.len() + 1) as int / 2;
            let line = two_col_row(items, row, w, border);
            &&& line[1].style == Style::of(items[row].0)
            &&& line[2].text == fit(items[row].1, crate::boxes::left_width(w))
            &&& row + half < items.len() ==> line[4].style == Style::of(items[row + half].0)
                && line[5].text == fit(items[row + half].1, crate::boxes::right_width(w))
        }),
{
}

/// A row of the history is of the track at its place: its rank counts from one, and
/// its percentage says how well it followed the track before it.
pub proof fn history_rows_are_of_their_track(info: NowPlaying, i: int, cw: nat)
    requires
        0 < i < info.history@.len(),
        i < 99,
    ensures
        ({
            let (color, text) = history_item(info, i, cw);
            let p = info.history@[i - 1].track;
            let t = info.history@[i].track;
            let percent = crate::compat::compat_percent(
                p.bpm,
                crate::compat::key_view(p.key),
                t.bpm,
                crate::compat::key_view(t.key),
            );
            &&& color == crate::compat::compat_color(percent)
            &&& starts_with(text, rank_text((i + 1) as nat, percent as nat))
            &&& info.history@[i].mix_score matches Some(s) ==> ends_in(
                text,
                " m"@ + decimal(s as nat),
            )
        }),
{
    let (color, text) = history_item(info, i, cw);
    let p = info.history@[i - 1].track;
    let t = info.history@[i].track;
    fit_is_mutual(
        p.bpm,
        crate::compat::key_view(p.key),
        t.bpm,
        crate::compat::key_view(t.key),
    );
    let percent = crate::compat::compat_percent(
        p.bpm,
        crate::compat::key_view(p.key),
        t.bpm,
        crate::compat::key_view(t.key),
    );
    ranks_read_back((i + 1) as nat, percent as nat);
    let rank = rank_text((i + 1) as nat, percent as nat);
    assert(text.take(rank.len() as int) =~= rank);
    if let Some(s) = info.history@[i].mix_score {
        let tail = " m"@ + decimal(s as nat);
        assert(text.skip(text.len() - tail.len()) =~= tail);
    }
}

/// A row of the mini-browser ends in its item, is marked where it is selected, and
/// tracks are numbered from one.
pub proof fn browse_rows_are_their_items(item: Seq<char>, i: int, selected: bool, tracks: bool)
    requires
        0 <= i < 99,
    ensures
        ({
            let text = browse_text(item, i, selected, tracks);
            &&& ends_in(text, item)
            &&& text[0] == '▸' <==> selected
            &&& tracks ==> digits_value(
                text.subrange(
                    if i < 9 {
                        3
                    } else {
                        2
                    },
                    4,
                ),
            ) == i + 1
        }),
{
    reveal_strlit("▸");
    reveal_strlit(" ");
    reveal_strlit(". ");
    decimal_reads_back((i + 1) as nat);
    let text = browse_text(item, i, selected, tracks);
    assert("▸"@.len() == 1 && " "@.len() == 1 && ". "@.len() == 2);
    assert(text.skip(text.len() - item.len()) =~= item);
    if tracks {
        assert(text.subrange(
            if i < 9 {
                3
            } else {
                2
            },
            4,
        ) =~= decimal((i + 1) as nat));
    }
}

/// A log has more room on a higher screen, and always some.
pub proof fn log_grows_with_the_screen(h: nat, higher: nat, top: nat)
    requires
        h <= higher,
    ensures
        3 <= log_rows(h, top) <= log_rows(higher, top) <= 7,
{
}

/// The natural tempo of a track stands before its key.
pub proof fn natural_tempo_stands_before_the_key(t: Track, bpm: u32)
    requires
        t.bpm == Some(bpm),
    ensures
        starts_with(natural_line(t), bpm_whole(bpm) + " BPM / "@),
        t.key matches Some(k) ==> ends_in(natural_line(t), " BPM / "@ + k@),
{
    let head = bpm_whole(bpm) + " BPM / "@;
    assert(natural_line(t).take(head.len() as int) =~= head);
    if let Some(k) = t.key {
        let tail = " BPM / "@ + k@;
        assert(natural_line(t).skip(natural_line(t).len() - tail.len()) =~= tail);
    }
}

/// The second line of a deck is the name of its track, the third its natural tempo
/// and key.
pub proof fn deck_lines_are_of_the_track(deck: Deck, is_a: bool, w: nat, mix: Option<u64>, t: Track)
    requires
        deck.track == Some(t),
        track_name(t).len() <= w,
        w > 2,
    ensures
        deck_line(deck, is_a, w, mix, 1)[0].text == track_name(t),
        deck_line(deck, is_a, w, mix, 2)[0].text == natural_line(t),
{
}

proof fn lemma_spaced(a: Seq<char>, b: Seq<char>, c: Seq<char>)
    ensures
        starts_with(spaced(a, b, c), a),
        ends_in(spaced(a, b, c), c),
{
    let s = spaced(a, b, c);
    assert(s.take(a.len() as int) =~= a);
    assert(s.skip(s.len() - c.len()) =~= c);
}

proof fn lemma_ctrl_row(
    left: Seq<char>,
    center: Seq<char>,
    right: Seq<char>,
    total: nat,
    mid: nat,
)
    ensures
        starts_with(ctrl_row(left, center, right, total, mid), left),
        ends_in(ctrl_row(left, center, right, total, mid), right),
{
    let s = ctrl_row(left, center, right, total, mid);
    assert(s.take(left.len() as int) =~= left);
    assert(s.skip(s.len() - right.len()) =~= right);
}

/// The row of the crossfader shows the hot cues of deck A on its left and those of
/// deck B on its right.
pub proof fn hot_cues_stand_on_their_side(info: NowPlaying, sel: Option<CtrlSection>, w: nat)
    ensures
        ends_in(left_one(info, sel), cue_dots(info.deck_a.cues)),
        starts_with(right_one(info, sel), cue_dots(info.deck_b.cues)),
        starts_with(row_one(info, sel, w), left_one(info, sel)),
        ends_in(row_one(info, sel, w), right_one(info, sel)),
{
    let jump = jump_label(info.jump_bars as nat);
    lemma_spaced(
        marked(sel, CtrlSection::CueA, "CUE"@),
        marked(sel, CtrlSection::JumpA, jump),
        cue_dots(info.deck_a.cues),
    );
    lemma_spaced(
        cue_dots(info.deck_b.cues),
        marked(sel, CtrlSection::JumpB, jump),
        marked(sel, CtrlSection::CueB, "CUE"@),
    );
    lemma_ctrl_row(
        left_one(info, sel),
        "A "@ + crossfader_bar(info.crossfader_visual as int, meter_width(w)) + " B"@,
        right_one(info, sel),
        crate::text::minus(crate::text::minus(w as int, 2) as int, 2),
        center_col(w),
    );
}

/// The label of a jump reads how many bars it takes.
pub proof fn jump_label_reads_the_bars(bars: nat)
    ensures
        digits_value(jump_label(bars).subrange(7, jump_label(bars).len() - 2)) == bars,
{
    reveal_strlit("◀ JUMP ");
    reveal_strlit(" ▶");
    decimal_reads_back(bars);
    assert("◀ JUMP "@.len() == 7 && " ▶"@.len() == 2);
    assert(jump_label(bars).subrange(7, jump_label(bars).len() - 2) =~= decimal(bars));
}

/// Of two waveforms deck A's stands above deck B's; a zoomed one is that of the deck
/// it was asked for.
pub proof fn waveforms_are_of_their_deck(
    info: NowPlaying,
    mode: WaveformMode,
    w: nat,
    border: Style,
    is_a: bool,
)
    requires
        info.deck_a.track is Some,
        info.deck_b.track is Some,
        mode != WaveformMode::Off,
        w >= 40,
    ensures
        ({
            let bw = (w - 2) as nat;
            let both = compare_lines(info, mode, None, w, border);
            let one = compare_lines(info, mode, Some(is_a), w, border);
            &&& both.len() == 4
            &&& both[2][1].text == fit(
                "  "@ + compare_text(info.deck_a, true, mode, (bw - 8) as nat),
                (bw - 2) as nat,
            )
            &&& both[3][1].text == fit(
                "  "@ + compare_text(info.deck_b, false, mode, (bw - 8) as nat),
                (bw - 2) as nat,
            )
            &&& one.len() == 3
            &&& one[2][1].text == fit(
                "  "@ + compare_text(
                    if is_a {
                        info.deck_a
                    } else {
                        info.deck_b
                    },
                    is_a,
                    mode,
                    (bw - 6) as nat,
                ),
                (bw - 2) as nat,
            )
        }),
{
}

/// A waveform is named after its deck.
pub proof fn waveform_is_named_after_its_deck(deck: Deck, is_a: bool, mode: WaveformMode, w: nat)
    ensures
        compare_text(deck, is_a, mode, w)[0] == (if is_a {
            'A'
        } else {
            'B'
        }),
        compare_text(deck, is_a, mode, w).len() == w + 3,
{
    reveal_strlit("A");
    reveal_strlit("B");
    reveal_strlit(": ");
    assert("A"@.len() == 1 && "B"@.len() == 1 && ": "@.len() == 2);
}

/// The line above the waveforms gives deck A's tempo as A and deck B's as B.
pub proof fn compared_tempos_are_of_their_deck(
    info: NowPlaying,
    mode: WaveformMode,
    zoom: Option<bool>,
)
    ensures
        starts_with(
            compare_head(info, mode, zoom),
            " ["@ + mode.spec_label()@ + "]  A("@ + tempo_text(info.deck_a.bpm) + ") → B("@
                + tempo_text(info.deck_b.bpm) + ")  phase: "@,
        ),
{
    let head = " ["@ + mode.spec_label()@ + "]  A("@ + tempo_text(info.deck_a.bpm) + ") → B("@
        + tempo_text(info.deck_b.bpm) + ")  phase: "@;
    assert(compare_head(info, mode, zoom).take(head.len() as int) =~= head);
}

/// The preview of a transition shows the curve of what plays above that of what comes.
pub proof fn preview_shows_playing_above_incoming(
    name: Seq<char>,
    playing: Seq<char>,
    incoming: Seq<char>,
)
    ensures
        ({
            let lines = preview_lines(ActionV::Force(name), Some((playing, incoming)));
            &&& lines.len() == 3
            &&& lines[1][0].text[8] == 'p' && lines[1][1].text == playing
            &&& lines[2][0].text[8] == 'i' && lines[2][1].text == incoming
        }),
{
    reveal_strlit("        playing  ");
    reveal_strlit("        incoming ");
}

} // verus!
