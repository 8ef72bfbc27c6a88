//! The controller box of the dashboard: both decks, their strips, the waveform
//! comparison, the crossfader, and every place in it that can be clicked.
use crate::boxes::{boxed_row, dim_row};
use crate::clicks::{coord, coord_of, ClickAction, ClickTarget, RangeControl};
use crate::controls::{CtrlSection, WaveformMode};
use crate::deck::{Deck, NowPlaying};
use crate::deck_lines::{deck_line, peaks_of, phrases_of, tempo_str, tempo_text, DECK_ROWS};
use crate::meters::{
    abs, aligned_color, bdot, beat_span, fader_ch, fader_ch_vol, fader_span, pc_aligned, phase_str,
    phase_text, render_ascii_waveform, render_sparkline, signed_whole, signed_whole_str, spark_text,
    tempo_row, volume_row, vu_cells, vu_ch, vu_span, wave_text,
};
use crate::midi_learn::Action;
use crate::panels::Area;
use crate::style::{
    add_line, add_span, add_text_line, line_width, lines_view, span, spans_view, Color, Line, Span,
    SpanV, Style,
};
use crate::text::{
    char_count, concat2, concat3, decimal, decimal_str, max_of, minus, owned, pad_left, pad_right,
    padded_left, padded_right, repeat, repeated, sat_sub,
};
use vstd::prelude::*;
use vstd::string::*;

verus! {

/// How many cells the description of a deck takes.
pub open spec fn bar_width(w: nat) -> nat {
    max_of(minus(minus(w as int, 2) as int, 33) as int / 2, 13) as nat
}

pub(crate) fn bar_width_of(w: usize) -> (b: usize)
    ensures
        b == bar_width(w as nat),
        b <= w || b == 13,
{
    let half: usize = sat_sub(sat_sub(w, 2), 33) / 2;
    if half > 13 {
        half
    } else {
        13
    }
}

/// The title bar, with the control that has the focus.
pub open spec fn title_line(sel: Option<CtrlSection>, w: nat, border: Style) -> Seq<SpanV> {
    let active = match sel {
        Some(s) => "active: "@ + s.spec_display_name()@,
        None => ""@,
    };
    let fixed = 16 + match sel {
        Some(_) => active.len() + 2,
        None => 0,
    };
    let fill = max_of(minus(w as int, 2) + 2 - fixed, 1) as nat;
    seq![span("┌─ CONTROLLER "@, border), span(repeat('─', fill), border)] + (match sel {
        Some(_) => seq![span(" "@ + active + " "@, Style::of(Color::DarkGray))],
        None => Seq::empty(),
    }) + seq![span("─┐"@, border)]
}

pub(crate) fn add_title_line(lines: &mut Vec<Line>, sel: Option<CtrlSection>, w: usize, border: Style)
    requires
        w >= 2,
    ensures
        lines_view(final(lines)@) == lines_view(old(lines)@).push(title_line(sel, w as nat, border)),
{
    let active: String = match sel {
        Some(s) => concat2("active: ", s.display_name()),
        None => owned(""),
    };
    let room: usize = match sel {
        Some(_) => sat_sub(sat_sub(w, 18), char_count(active.as_str())),
        None => sat_sub(w, 16),
    };
    let fill: usize = if room > 1 {
        room
    } else {
        1
    };
    let mut spans: Vec<Span> = Vec::new();
    add_span(&mut spans, "┌─ CONTROLLER ", border);
    let bar: String = repeated('─', fill);
    add_span(&mut spans, bar.as_str(), border);
    if sel.is_some() {
        let text: String = concat3(" ", active.as_str(), " ");
        add_span(&mut spans, text.as_str(), Style::of(Color::DarkGray));
    }
    add_span(&mut spans, "─┐", border);
    assert(spans_view(spans@) == title_line(sel, w as nat, border));
    add_line(lines, spans);
}

/// A row with nothing between the borders.
pub open spec fn side_row(w: nat, border: Style) -> Seq<SpanV> {
    seq![span("│"@ + repeat(' ', minus(w as int, 2)) + "│"@, border)]
}

pub(crate) fn add_side_row(lines: &mut Vec<Line>, w: usize, border: Style)
    ensures
        lines_view(final(lines)@) == lines_view(old(lines)@).push(side_row(w as nat, border)),
{
    let inner: String = repeated(' ', sat_sub(w, 2));
    let text: String = concat3("│", inner.as_str(), "│");
    add_text_line(lines, text.as_str(), border);
}

/// A filter setting on a scale of -9 to 9.
pub open spec fn filter_steps(filter: int) -> int {
    let n = (18 * abs(filter) + 1000) as int / 2000;
    if filter < 0 {
        -n
    } else {
        n
    }
}

/// A whole number with its sign.
pub open spec fn signed_int(n: int) -> Seq<char> {
    (if n < 0 {
        "-"@
    } else {
        "+"@
    }) + decimal(abs(n))
}

fn filter_str(filter: i32) -> (s: String)
    ensures
        s@ == signed_int(filter_steps(filter as int)),
{
    let m: u64 = if filter < 0 {
        (-(filter as i64)) as u64
    } else {
        filter as u64
    };
    let n: u64 = (18 * m + 1000) / 2000;
    if filter < 0 && n > 0 {
        concat2("-", decimal_str(n).as_str())
    } else {
        concat2("+", decimal_str(n).as_str())
    }
}

/// The equaliser and filter of a deck, one reading on every other row.
pub open spec fn eq_reading(deck: Deck, row: int) -> Seq<char> {
    if row == 0 {
        "H"@ + signed_whole(deck.eq_high as int)
    } else if row == 2 {
        "M"@ + signed_whole(deck.eq_mid as int)
    } else if row == 4 {
        "L"@ + signed_whole(deck.eq_low as int)
    } else if row == 6 {
        "F"@ + signed_int(filter_steps(deck.filter as int))
    } else {
        ""@
    }
}

fn eq_reading_str(deck: &Deck, row: usize) -> (s: String)
    ensures
        s@ == eq_reading(*deck, row as int),
{
    if row == 0 {
        concat2("H", signed_whole_str(deck.eq_high).as_str())
    } else if row == 2 {
        concat2("M", signed_whole_str(deck.eq_mid).as_str())
    } else if row == 4 {
        concat2("L", signed_whole_str(deck.eq_low).as_str())
    } else if row == 6 {
        concat2("F", filter_str(deck.filter).as_str())
    } else {
        owned("")
    }
}

/// The control that a reading belongs to.
pub open spec fn eq_section(is_a: bool, row: int) -> Option<CtrlSection> {
    if row == 0 {
        Some(
            if is_a {
                CtrlSection::EqHighA
            } else {
                CtrlSection::EqHighB
            },
        )
    } else if row == 2 {
        Some(
            if is_a {
                CtrlSection::EqMidA
            } else {
                CtrlSection::EqMidB
            },
        )
    } else if row == 4 {
        Some(
            if is_a {
                CtrlSection::EqLowA
            } else {
                CtrlSection::EqLowB
            },
        )
    } else if row == 6 {
        Some(
            if is_a {
                CtrlSection::FilterA
            } else {
                CtrlSection::FilterB
            },
        )
    } else {
        None
    }
}

fn eq_section_of(is_a: bool, row: usize) -> (s: Option<CtrlSection>)
    ensures
        s == eq_section(is_a, row as int),
{
    if row == 0 {
        Some(
            if is_a {
                CtrlSection::EqHighA
            } else {
                CtrlSection::EqHighB
            },
        )
    } else if row == 2 {
        Some(
            if is_a {
                CtrlSection::EqMidA
            } else {
                CtrlSection::EqMidB
            },
        )
    } else if row == 4 {
        Some(
            if is_a {
                CtrlSection::EqLowA
            } else {
                CtrlSection::EqLowB
            },
        )
    } else if row == 6 {
        Some(
            if is_a {
                CtrlSection::FilterA
            } else {
                CtrlSection::FilterB
            },
        )
    } else {
        None
    }
}

/// A reading, four cells wide, next to the channel fader; the one that has the
/// focus is underlined.
pub open spec fn eq_span(deck: Deck, is_a: bool, row: int, sel: Option<CtrlSection>) -> SpanV {
    let gray = Style::of(Color::Gray);
    span(
        if is_a {
            pad_right(eq_reading(deck, row), 4)
        } else {
            pad_left(eq_reading(deck, row), 4)
        },
        if sel is Some && eq_section(is_a, row) == sel {
            gray.underlined()
        } else {
            gray
        },
    )
}

fn eq_cell(deck: &Deck, is_a: bool, row: usize, sel: Option<CtrlSection>) -> (s: Span)
    ensures
        s@ == eq_span(*deck, is_a, row as int, sel),
{
    let gray: Style = Style::of(Color::Gray);
    let raw: String = eq_reading_str(deck, row);
    let text: String = if is_a {
        padded_right(raw.as_str(), 4)
    } else {
        padded_left(raw.as_str(), 4)
    };
    let lit: bool = match (eq_section_of(is_a, row), sel) {
        (Some(a), Some(b)) => a == b,
        _ => false,
    };
    Span::owned(
        text,
        if lit {
            gray.underlined()
        } else {
            gray
        },
    )
}

/// A cell, underlined where its control has the focus.
pub open spec fn lit(cell: SpanV, section: CtrlSection, sel: Option<CtrlSection>) -> SpanV {
    if sel == Some(section) {
        span(cell.text, cell.style.underlined())
    } else {
        cell
    }
}

fn with_underline(cell: Span, section: CtrlSection, sel: Option<CtrlSection>) -> (s: Span)
    ensures
        s@ == lit(cell@, section, sel),
{
    let focused: bool = match sel {
        Some(x) => x == section,
        None => false,
    };
    if focused {
        Span { text: cell.text, style: cell.style.underlined() }
    } else {
        cell
    }
}

/// Blank cells, where there are any.
pub open spec fn gap(n: nat) -> Seq<SpanV> {
    if n > 0 {
        seq![span(repeat(' ', n), Style::plain())]
    } else {
        Seq::empty()
    }
}

fn add_gap(spans: &mut Vec<Span>, n: usize)
    ensures
        spans_view(final(spans)@) == spans_view(old(spans)@) + gap(n as nat),
{
    if n > 0 {
        let text: String = repeated(' ', n);
        add_span(spans, text.as_str(), Style::plain());
    }
    assert(spans_view(spans@) == spans_view(old(spans)@) + gap(n as nat));
}

fn add_cell(spans: &mut Vec<Span>, cell: Span)
    ensures
        spans_view(final(spans)@) == spans_view(old(spans)@).push(cell@),
{
    spans.push(cell);
    assert(spans_view(spans@) == spans_view(old(spans)@).push(cell@));
}

/// What a line leaves free of `w` cells.
fn room_after(spans: &Vec<Span>, w: usize) -> (r: usize)
    ensures
        r == minus(w as int, line_width(spans_view(spans@)) as int),
{
    let ghost all = spans_view(spans@);
    let mut r: usize = w;
    let mut i: usize = 0;
    assert(all.take(0) == Seq::<SpanV>::empty());
    while i < spans.len()
        invariant
            i <= spans.len(),
            all == spans_view(spans@),
            r == minus(w as int, line_width(all.take(i as int)) as int),
        decreases spans.len() - i,
    {
        assert(all.take(i + 1).drop_last() == all.take(i as int));
        r = sat_sub(r, char_count(spans[i].text.as_str()));
        i += 1;
    }
    assert(all.take(i as int) == all);
    r
}

fn add_all(spans: &mut Vec<Span>, more: &Vec<Span>)
    ensures
        spans_view(final(spans)@) == spans_view(old(spans)@) + spans_view(more@),
{
    let ghost start = spans_view(spans@);
    let ghost all = spans_view(more@);
    let mut i: usize = 0;
    assert(spans_view(spans@) == start + all.take(0));
    while i < more.len()
        invariant
            i <= more.len(),
            all == spans_view(more@),
            spans_view(spans@) == start + all.take(i as int),
        decreases more.len() - i,
    {
        add_span(spans, more[i].text.as_str(), more[i].style);
        i += 1;
        assert(spans_view(spans@) == start + all.take(i as int));
    }
    assert(all.take(i as int) == all);
}

/// The line between the beat dots, on the middle row.
pub open spec fn link_span(row: int, both: bool, us: int, aligned: bool) -> SpanV {
    if row == 3 {
        span(
            "─"@,
            Style::of(
                if both {
                    aligned_color(us, aligned)
                } else {
                    Color::DarkGray
                },
            ),
        )
    } else {
        span(" "@, Style::plain())
    }
}

fn link_cell(row: usize, both: bool, us: i64, aligned: bool) -> (s: Span)
    ensures
        s@ == link_span(row as int, both, us as int, aligned),
{
    if row == 3 {
        if both {
            Span::styled("─", Style::of(pc_aligned(us, aligned)))
        } else {
            Span::styled("─", Style::of(Color::DarkGray))
        }
    } else {
        Span::styled(" ", Style::plain())
    }
}

pub open spec fn is_on(deck: Deck) -> bool {
    deck.track is Some && deck.is_playing
}

/// The strips between the two decks: equaliser, fader, level and beats of each.
pub open spec fn strips(info: NowPlaying, sel: Option<CtrlSection>, i: int) -> Seq<SpanV> {
    let a = info.deck_a;
    let b = info.deck_b;
    let both = is_on(a) && is_on(b);
    let us = info.phase_us as int;
    let n = DECK_ROWS as nat;
    let sp = span(" "@, Style::plain());
    seq![
        span("  "@, Style::plain()),
        eq_span(a, true, i, sel),
        sp,
        lit(fader_span(i == volume_row(a.fader as int, n)), CtrlSection::VolumeA, sel),
        sp,
        vu_span(6 - i, vu_cells(a.level as nat, n), n as int),
        sp,
        beat_span(i, 3, is_on(a), a.track is Some, both, us, a.beat as int, info.downbeat_aligned),
        link_span(i, both, us, info.downbeat_aligned),
        beat_span(i, 3, is_on(b), b.track is Some, both, us, b.beat as int, info.downbeat_aligned),
        sp,
        vu_span(6 - i, vu_cells(b.level as nat, n), n as int),
        sp,
        lit(fader_span(i == volume_row(b.fader as int, n)), CtrlSection::VolumeB, sel),
        sp,
        eq_span(b, false, i, sel),
        span("  "@, Style::plain()),
    ]
}

fn strip_spans(info: &NowPlaying, sel: Option<CtrlSection>, i: usize) -> (s: Vec<Span>)
    requires
        i < DECK_ROWS,
    ensures
        spans_view(s@) == strips(*info, sel, i as int),
{
    let a: &Deck = &info.deck_a;
    let b: &Deck = &info.deck_b;
    let a_on: bool = a.track.is_some() && a.is_playing;
    let b_on: bool = b.track.is_some() && b.is_playing;
    let both: bool = a_on && b_on;
    let us: i64 = info.phase_us;
    let aligned: bool = info.downbeat_aligned;
    let mut s: Vec<Span> = Vec::new();
    add_span(&mut s, "  ", Style::plain());
    add_cell(&mut s, eq_cell(a, true, i, sel));
    add_span(&mut s, " ", Style::plain());
    add_cell(
        &mut s,
        with_underline(fader_ch_vol(i, DECK_ROWS, a.fader), CtrlSection::VolumeA, sel),
    );
    add_span(&mut s, " ", Style::plain());
    add_cell(&mut s, vu_ch(6 - i, a.level, DECK_ROWS));
    add_span(&mut s, " ", Style::plain());
    add_cell(&mut s, bdot(i, 3, a_on, a.track.is_some(), both, us, a.beat, aligned));
    add_cell(&mut s, link_cell(i, both, us, aligned));
    add_cell(&mut s, bdot(i, 3, b_on, b.track.is_some(), both, us, b.beat, aligned));
    add_span(&mut s, " ", Style::plain());
    add_cell(&mut s, vu_ch(6 - i, b.level, DECK_ROWS));
    add_span(&mut s, " ", Style::plain());
    add_cell(
        &mut s,
        with_underline(fader_ch_vol(i, DECK_ROWS, b.fader), CtrlSection::VolumeB, sel),
    );
    add_span(&mut s, " ", Style::plain());
    add_cell(&mut s, eq_cell(b, false, i, sel));
    add_span(&mut s, "  ", Style::plain());
    assert(spans_view(s@) =~= strips(*info, sel, i as int));
    s
}

/// What the fixed parts of a controller row leave to the right.
pub open spec fn end_gap(w: nat) -> nat {
    minus(w as int, 35 + 2 * (bar_width(w) as int))
}

/// A row of the controller: tempo fader, deck A, the strips, deck B, tempo fader.
pub open spec fn deck_row(
    info: NowPlaying,
    sel: Option<CtrlSection>,
    w: nat,
    border: Style,
    i: int,
) -> Seq<SpanV> {
    let n = DECK_ROWS as nat;
    let bar = bar_width(w);
    let left = deck_line(info.deck_a, true, bar, info.mix_point_ms, i);
    let right = deck_line(info.deck_b, false, bar, info.mix_point_ms, i);
    seq![
        span("│ "@, border),
        lit(fader_span(i == tempo_row(info.deck_a.rate as int, n)), CtrlSection::TempoA, sel),
        span("  "@, Style::plain()),
    ] + left + gap(minus(bar as int, line_width(left) as int)) + strips(info, sel, i) + right + gap(
        minus(bar as int, line_width(right) as int),
    ) + gap(end_gap(w)) + seq![
        span("  "@, Style::plain()),
        lit(fader_span(i == tempo_row(info.deck_b.rate as int, n)), CtrlSection::TempoB, sel),
        span(" │"@, border),
    ]
}

pub(crate) fn add_deck_row(
    lines: &mut Vec<Line>,
    info: &NowPlaying,
    left: &Vec<Span>,
    right: &Vec<Span>,
    sel: Option<CtrlSection>,
    w: usize,
    border: Style,
    i: usize,
)
    requires
        i < DECK_ROWS,
        spans_view(left@) == deck_line(
            info.deck_a,
            true,
            bar_width(w as nat),
            info.mix_point_ms,
            i as int,
        ),
        spans_view(right@) == deck_line(
            info.deck_b,
            false,
            bar_width(w as nat),
            info.mix_point_ms,
            i as int,
        ),
        2 <= w <= 0xffff,
    ensures
        lines_view(final(lines)@) == lines_view(old(lines)@).push(
            deck_row(*info, sel, w as nat, border, i as int),
        ),
{
    let bar: usize = bar_width_of(w);
    let mut s: Vec<Span> = Vec::new();
    add_span(&mut s, "│ ", border);
    add_cell(&mut s, with_underline(fader_ch(i, DECK_ROWS, info.deck_a.rate), CtrlSection::TempoA, sel));
    add_span(&mut s, "  ", Style::plain());
    let ghost head = spans_view(s@);
    assert(head =~= seq![
        span("│ "@, border),
        lit(
            fader_span(i == tempo_row(info.deck_a.rate as int, DECK_ROWS as nat)),
            CtrlSection::TempoA,
            sel,
        ),
        span("  "@, Style::plain()),
    ]);
    add_all(&mut s, left);
    add_gap(&mut s, room_after(left, bar));
    let mid: Vec<Span> = strip_spans(info, sel, i);
    add_all(&mut s, &mid);
    add_all(&mut s, right);
    add_gap(&mut s, room_after(right, bar));
    let end: usize = sat_sub(w, 35 + 2 * bar);
    add_gap(&mut s, end);
    let ghost most = spans_view(s@);
    add_span(&mut s, "  ", Style::plain());
    add_cell(&mut s, with_underline(fader_ch(i, DECK_ROWS, info.deck_b.rate), CtrlSection::TempoB, sel));
    add_span(&mut s, " │", border);
    assert(spans_view(s@) =~= most + seq![
        span("  "@, Style::plain()),
        lit(
            fader_span(i == tempo_row(info.deck_b.rate as int, DECK_ROWS as nat)),
            CtrlSection::TempoB,
            sel,
        ),
        span(" │"@, border),
    ]);
    assert(spans_view(s@) == deck_row(*info, sel, w as nat, border, i as int));
    add_line(lines, s);
}

/// A place to click, with its name and the MIDI action that it can be bound to.
pub open spec fn place(
    x: int,
    y: int,
    w: u16,
    h: u16,
    action: ClickAction,
    label: &'static str,
    midi: Option<Action>,
) -> ClickTarget {
    ClickTarget { x: coord(x), y: coord(y), w, h, action, label: Some(label), midi_action: midi }
}

pub(crate) fn add_place(
    targets: &mut Vec<ClickTarget>,
    x: u128,
    y: u128,
    w: u16,
    h: u16,
    action: ClickAction,
    label: &'static str,
    midi: Option<Action>,
)
    ensures
        final(targets)@ == old(targets)@.push(
            place(x as int, y as int, w, h, action, label, midi),
        ),
{
    targets.push(
        ClickTarget {
            x: coord_of(x),
            y: coord_of(y),
            w,
            h,
            action,
            label: Some(label),
            midi_action: midi,
        },
    );
}

/// A strip that can be clicked and dragged over all the rows of the decks.
pub open spec fn strip_place(
    x: int,
    y: int,
    control: RangeControl,
    label: &'static str,
    midi: Action,
) -> ClickTarget {
    place(
        x,
        y,
        1,
        7,
        ClickAction::SetVerticalRange { control, y_min: coord(y), y_max: coord(y + 7) },
        label,
        Some(midi),
    )
}

fn add_strip(
    targets: &mut Vec<ClickTarget>,
    x: u128,
    y: u128,
    control: RangeControl,
    label: &'static str,
    midi: Action,
)
    requires
        y <= 0xffff_ffff,
    ensures
        final(targets)@ == old(targets)@.push(strip_place(x as int, y as int, control, label, midi)),
{
    add_place(
        targets,
        x,
        y,
        1,
        7,
        ClickAction::SetVerticalRange { control, y_min: coord_of(y), y_max: coord_of(y + 7) },
        label,
        Some(midi),
    );
}

/// A reading of the equaliser or the filter.
pub open spec fn reading_place(
    x: int,
    y: int,
    h: u16,
    section: CtrlSection,
    label: &'static str,
    midi: Action,
) -> ClickTarget {
    place(x, y, 4, h, ClickAction::FocusDashSection(section), label, Some(midi))
}

/// The places to click on the rows of the decks; `y` is the first of the rows.
pub open spec fn strip_places(area: Area, y: int) -> Seq<ClickTarget> {
    let bar = bar_width(area.width as nat);
    let left = area.x + 7 + bar;
    let right = area.x + area.width - 11 - bar;
    seq![
        strip_place(area.x + 2, y, RangeControl::TempoA, "tempo_a", Action::Tempo { is_a: true }),
        strip_place(
            left + 5,
            y,
            RangeControl::VolumeA,
            "volume_a",
            Action::ChannelFader { is_a: true },
        ),
        strip_place(
            right - 2,
            y,
            RangeControl::VolumeB,
            "volume_b",
            Action::ChannelFader { is_a: false },
        ),
        strip_place(
            area.x + area.width - 3,
            y,
            RangeControl::TempoB,
            "tempo_b",
            Action::Tempo { is_a: false },
        ),
        reading_place(left, y, 2, CtrlSection::EqHighA, "eq_high_a", Action::EqHigh { is_a: true }),
        reading_place(left, y + 2, 2, CtrlSection::EqMidA, "eq_mid_a", Action::EqMid { is_a: true }),
        reading_place(left, y + 4, 2, CtrlSection::EqLowA, "eq_low_a", Action::EqLow { is_a: true }),
        reading_place(left, y + 6, 1, CtrlSection::FilterA, "filter_a", Action::Filter { is_a: true }),
        reading_place(right, y, 2, CtrlSection::EqHighB, "eq_high_b", Action::EqHigh { is_a: false }),
        reading_place(
            right,
            y + 2,
            2,
            CtrlSection::EqMidB,
            "eq_mid_b",
            Action::EqMid { is_a: false },
        ),
        reading_place(
            right,
            y + 4,
            2,
            CtrlSection::EqLowB,
            "eq_low_b",
            Action::EqLow { is_a: false },
        ),
        reading_place(
            right,
            y + 6,
            1,
            CtrlSection::FilterB,
            "filter_b",
            Action::Filter { is_a: false },
        ),
    ]
}

fn add_reading(
    targets: &mut Vec<ClickTarget>,
    x: u128,
    y: u128,
    h: u16,
    section: CtrlSection,
    label: &'static str,
    midi: Action,
)
    ensures
        final(targets)@ == old(targets)@.push(
            reading_place(x as int, y as int, h, section, label, midi),
        ),
{
    add_place(targets, x, y, 4, h, ClickAction::FocusDashSection(section), label, Some(midi));
}

pub(crate) fn add_strip_places(targets: &mut Vec<ClickTarget>, area: Area, y: u128)
    requires
        area.width >= 40,
        y <= 0xffff_ffff,
    ensures
        final(targets)@ == old(targets)@ + strip_places(area, y as int),
{
    let ghost start = targets@;
    let bar: u128 = bar_width_of(area.width as usize) as u128;
    let x: u128 = area.x as u128;
    let w: u128 = area.width as u128;
    let left: u128 = x + 7 + bar;
    let right: u128 = x + w - 11 - bar;
    add_strip(targets, x + 2, y, RangeControl::TempoA, "tempo_a", Action::Tempo { is_a: true });
    add_strip(
        targets,
        left + 5,
        y,
        RangeControl::VolumeA,
        "volume_a",
        Action::ChannelFader { is_a: true },
    );
    add_strip(
        targets,
        right - 2,
        y,
        RangeControl::VolumeB,
        "volume_b",
        Action::ChannelFader { is_a: false },
    );
    add_strip(targets, x + w - 3, y, RangeControl::TempoB, "tempo_b", Action::Tempo { is_a: false });
    let h: CtrlSection = CtrlSection::EqHighA;
    add_reading(targets, left, y, 2, h, "eq_high_a", Action::EqHigh { is_a: true });
    let m: CtrlSection = CtrlSection::EqMidA;
    add_reading(targets, left, y + 2, 2, m, "eq_mid_a", Action::EqMid { is_a: true });
    let l: CtrlSection = CtrlSection::EqLowA;
    add_reading(targets, left, y + 4, 2, l, "eq_low_a", Action::EqLow { is_a: true });
    let f: CtrlSection = CtrlSection::FilterA;
    add_reading(targets, left, y + 6, 1, f, "filter_a", Action::Filter { is_a: true });
    let h: CtrlSection = CtrlSection::EqHighB;
    add_reading(targets, right, y, 2, h, "eq_high_b", Action::EqHigh { is_a: false });
    let m: CtrlSection = CtrlSection::EqMidB;
    add_reading(targets, right, y + 2, 2, m, "eq_mid_b", Action::EqMid { is_a: false });
    let l: CtrlSection = CtrlSection::EqLowB;
    add_reading(targets, right, y + 4, 2, l, "eq_low_b", Action::EqLow { is_a: false });
    let f: CtrlSection = CtrlSection::FilterB;
    add_reading(targets, right, y + 6, 1, f, "filter_b", Action::Filter { is_a: false });
    assert(targets@ =~= start + strip_places(area, y as int));
}

/// Both decks are loaded and the comparison is on.
pub open spec fn compares(info: NowPlaying, mode: WaveformMode) -> bool {
    info.deck_a.track is Some && info.deck_b.track is Some && mode != WaveformMode::Off
}

pub open spec fn zoom_text(zoom: Option<bool>) -> Seq<char> {
    match zoom {
        Some(true) => "  [zoomed A — click/Esc to close]"@,
        Some(false) => "  [zoomed B — click/Esc to close]"@,
        None => ""@,
    }
}

/// The line above the waveforms.
pub open spec fn compare_head(info: NowPlaying, mode: WaveformMode, zoom: Option<bool>) -> Seq<char> {
    " ["@ + mode.spec_label()@ + "]  A("@ + tempo_text(info.deck_a.bpm) + ") → B("@ + tempo_text(
        info.deck_b.bpm,
    ) + ")  phase: "@ + phase_text(info.phase_us as int) + "  [w] mode"@ + zoom_text(zoom)
}

/// The waveform or the sparkline of a deck as text.
pub open spec fn compare_text(deck: Deck, is_a: bool, mode: WaveformMode, w: nat) -> Seq<char> {
    let label = if is_a {
        "A"@
    } else {
        "B"@
    };
    if mode == WaveformMode::Phrase {
        spark_text(phrases_of(deck), deck.time_ms as nat, deck.duration_ms as nat, w, label)
    } else {
        wave_text(peaks_of(deck), deck.time_ms as nat, deck.duration_ms as nat, w, label)
    }
}

/// The waveforms of both decks above each other, or one of them wider.
pub open spec fn compare_lines(
    info: NowPlaying,
    mode: WaveformMode,
    zoom: Option<bool>,
    w: nat,
    border: Style,
) -> Seq<Seq<SpanV>> {
    let bw = minus(w as int, 2);
    let wide = max_of(minus(bw as int, 6) as int, 10) as nat;
    let half = max_of(minus(bw as int, 8) as int, 10) as nat;
    if !compares(info, mode) {
        Seq::empty()
    } else {
        seq![dim_row(""@, bw, border), dim_row(compare_head(info, mode, zoom), bw, border)] + (
        match zoom {
            Some(is_a) => seq![
                dim_row(
                    "  "@ + compare_text(*info.spec_deck(is_a), is_a, mode, wide),
                    bw,
                    border,
                ),
            ],
            None => seq![
                dim_row("  "@ + compare_text(info.deck_a, true, mode, half), bw, border),
                dim_row("  "@ + compare_text(info.deck_b, false, mode, half), bw, border),
            ],
        })
    }
}

/// A click on a waveform zooms it; a click on the zoomed one closes the zoom.
pub open spec fn compare_places(
    info: NowPlaying,
    mode: WaveformMode,
    zoom: Option<bool>,
    area: Area,
    top: nat,
) -> Seq<ClickTarget> {
    let y = area.y + top + 2;
    let x = area.x as int;
    let a = ClickAction::WaveformZoom(true);
    let b = ClickAction::WaveformZoom(false);
    if !compares(info, mode) {
        Seq::empty()
    } else {
        match zoom {
            Some(true) => seq![place(x, y, area.width, 1, a, "waveform_zoom_a", None)],
            Some(false) => seq![place(x, y, area.width, 1, b, "waveform_zoom_b", None)],
            None => seq![
                place(x, y, area.width, 1, a, "waveform_zoom_a", None),
                place(x, y + 1, area.width, 1, b, "waveform_zoom_b", None),
            ],
        }
    }
}

fn compare_head_str(info: &NowPlaying, mode: WaveformMode, zoom: Option<bool>) -> (s: String)
    ensures
        s@ == compare_head(*info, mode, zoom),
{
    let a: String = concat3(" [", mode.label(), "]  A(");
    let b: String = concat3(a.as_str(), tempo_str(info.deck_a.bpm).as_str(), ") → B(");
    let c: String = concat3(b.as_str(), tempo_str(info.deck_b.bpm).as_str(), ")  phase: ");
    let d: String = concat3(c.as_str(), phase_str(info.phase_us).as_str(), "  [w] mode");
    let z: &str = match zoom {
        Some(is_a) => if is_a {
            "  [zoomed A — click/Esc to close]"
        } else {
            "  [zoomed B — click/Esc to close]"
        },
        None => "",
    };
    concat2(d.as_str(), z)
}

pub(crate) fn compare_str(deck: &Deck, is_a: bool, mode: WaveformMode, w: usize) -> (s: String)
    ensures
        s@ == compare_text(*deck, is_a, mode, w as nat),
{
    let label: &str = if is_a {
        "A"
    } else {
        "B"
    };
    match mode {
        WaveformMode::Phrase => match &deck.analysis {
            Some(an) => render_sparkline(&an.phrases, deck.time_ms, deck.duration_ms, w, label),
            None => {
                let none: Vec<crate::deck::Phrase> = Vec::new();
                assert(none@ == Seq::<crate::deck::Phrase>::empty());
                render_sparkline(&none, deck.time_ms, deck.duration_ms, w, label)
            },
        },
        _ => match &deck.analysis {
            Some(an) => render_ascii_waveform(&an.peaks, deck.time_ms, deck.duration_ms, w, label),
            None => {
                let none: Vec<i32> = Vec::new();
                assert(none@ == Seq::<i32>::empty());
                render_ascii_waveform(&none, deck.time_ms, deck.duration_ms, w, label)
            },
        },
    }
}

pub(crate) fn add_compare(
    lines: &mut Vec<Line>,
    targets: &mut Vec<ClickTarget>,
    info: &NowPlaying,
    mode: WaveformMode,
    zoom: Option<bool>,
    area: Area,
    border: Style,
)
    ensures
        lines_view(final(lines)@) == lines_view(old(lines)@) + compare_lines(
            *info,
            mode,
            zoom,
            area.width as nat,
            border,
        ),
        final(targets)@ == old(targets)@ + compare_places(
            *info,
            mode,
            zoom,
            area,
            old(lines)@.len(),
        ),
{
    let ghost l0 = lines_view(lines@);
    let ghost t0 = targets@;
    let top: usize = lines.len();
    if !(info.deck_a.track.is_some() && info.deck_b.track.is_some() && mode != WaveformMode::Off) {
        assert(lines_view(lines@) =~= l0 + Seq::<Seq<SpanV>>::empty());
        assert(targets@ =~= t0 + Seq::<ClickTarget>::empty());
        return;
    }
    let w: usize = area.width as usize;
    let bw: usize = sat_sub(w, 2);
    boxed_row(lines, "", bw, border);
    let head: String = compare_head_str(info, mode, zoom);
    boxed_row(lines, head.as_str(), bw, border);
    let y: u128 = area.y as u128 + top as u128 + 2;
    let x: u128 = area.x as u128;
    match zoom {
        Some(is_a) => {
            let room: usize = sat_sub(bw, 6);
            let wide: usize = if room > 10 {
                room
            } else {
                10
            };
            let text: String = compare_str(info.deck(is_a), is_a, mode, wide);
            boxed_row(lines, concat2("  ", text.as_str()).as_str(), bw, border);
            add_place(
                targets,
                x,
                y,
                area.width,
                1,
                ClickAction::WaveformZoom(is_a),
                if is_a {
                    "waveform_zoom_a"
                } else {
                    "waveform_zoom_b"
                },
                None,
            );
        },
        None => {
            let room: usize = sat_sub(bw, 8);
            let half: usize = if room > 10 {
                room
            } else {
                10
            };
            let a: String = compare_str(&info.deck_a, true, mode, half);
            boxed_row(lines, concat2("  ", a.as_str()).as_str(), bw, border);
            let b: String = compare_str(&info.deck_b, false, mode, half);
            boxed_row(lines, concat2("  ", b.as_str()).as_str(), bw, border);
            let za: ClickAction = ClickAction::WaveformZoom(true);
            add_place(targets, x, y, area.width, 1, za, "waveform_zoom_a", None);
            let zb: ClickAction = ClickAction::WaveformZoom(false);
            add_place(targets, x, y + 1, area.width, 1, zb, "waveform_zoom_b", None);
        },
    }
    assert(lines_view(lines@) =~= l0 + compare_lines(*info, mode, zoom, w as nat, border));
    assert(targets@ =~= t0 + compare_places(*info, mode, zoom, area, top as nat));
}

proof fn lemma_strip_width(info: NowPlaying, sel: Option<CtrlSection>, i: int)
    requires
        eq_reading(info.deck_a, i).len() <= 4,
        eq_reading(info.deck_b, i).len() <= 4,
    ensures
        line_width(strips(info, sel, i)) == 25,
{
    reveal_strlit("  ");
    reveal_strlit(" ");
    reveal_strlit("═");
    reveal_strlit("│");
    reveal_strlit("█");
    reveal_strlit("░");
    reveal_strlit("●");
    reveal_strlit("○");
    reveal_strlit("─");
    assert("  "@.len() == 2 && " "@.len() == 1 && "═"@.len() == 1 && "│"@.len() == 1
        && "█"@.len() == 1 && "░"@.len() == 1 && "●"@.len() == 1 && "○"@.len() == 1
        && "─"@.len() == 1);
    let s = strips(info, sel, i);
    assert(s.len() == 17);
    assert(s[1].text.len() == 4);
    assert(s[15].text.len() == 4);
    assert(s[0].text.len() == 2 && s[16].text.len() == 2);
    assert(forall|k: int| 2 <= k < 15 ==> (#[trigger] s[k]).text.len() == 1);
    lemma_sum_of_widths(s, 17);
    reveal_with_fuel(sum_of_widths, 18);
}

/// The widths of the first `n` spans, added up.
pub open spec fn sum_of_widths(line: Seq<SpanV>, n: nat) -> nat
    decreases n,
{
    if n == 0 {
        0
    } else {
        sum_of_widths(line, (n - 1) as nat) + line[n - 1].text.len()
    }
}

proof fn lemma_sum_of_widths(line: Seq<SpanV>, n: nat)
    requires
        n <= line.len(),
    ensures
        line_width(line.take(n as int)) == sum_of_widths(line, n),
        n == line.len() ==> line_width(line) == sum_of_widths(line, n),
    decreases n,
{
    if n > 0 {
        lemma_sum_of_widths(line, (n - 1) as nat);
        assert(line.take(n as int).drop_last() =~= line.take(n - 1));
    }
    if n == line.len() {
        assert(line.take(n as int) =~= line);
    }
}

proof fn lemma_gap_width(n: nat)
    ensures
        line_width(gap(n)) == n,
{
    reveal_with_fuel(line_width, 2);
}

/// A row of the controller is exactly `w` cells wide, as long as the screen has
/// room for both decks, what describes them fits their columns, and the
/// equaliser readings fit their cells.
pub proof fn controller_row_is_square(
    info: NowPlaying,
    sel: Option<CtrlSection>,
    w: nat,
    border: Style,
    i: int,
)
    requires
        w >= 61,
        line_width(deck_line(info.deck_a, true, bar_width(w), info.mix_point_ms, i)) <= bar_width(w),
        line_width(deck_line(info.deck_b, false, bar_width(w), info.mix_point_ms, i)) <= bar_width(w),
        eq_reading(info.deck_a, i).len() <= 4,
        eq_reading(info.deck_b, i).len() <= 4,
    ensures
        line_width(deck_row(info, sel, w, border, i)) == w,
{
    let n = DECK_ROWS as nat;
    let bar = bar_width(w);
    let left = deck_line(info.deck_a, true, bar, info.mix_point_ms, i);
    let right = deck_line(info.deck_b, false, bar, info.mix_point_ms, i);
    let head = seq![
        span("│ "@, border),
        lit(fader_span(i == tempo_row(info.deck_a.rate as int, n)), CtrlSection::TempoA, sel),
        span("  "@, Style::plain()),
    ];
    let tail = seq![
        span("  "@, Style::plain()),
        lit(fader_span(i == tempo_row(info.deck_b.rate as int, n)), CtrlSection::TempoB, sel),
        span(" │"@, border),
    ];
    reveal_strlit("│ ");
    reveal_strlit(" │");
    reveal_strlit("  ");
    reveal_strlit("═");
    reveal_strlit("│");
    assert("│ "@.len() == 2 && " │"@.len() == 2 && "  "@.len() == 2 && "═"@.len() == 1
        && "│"@.len() == 1);
    assert(head[1].text.len() == 1 && tail[1].text.len() == 1);
    lemma_sum_of_widths(head, 3);
    lemma_sum_of_widths(tail, 3);
    reveal_with_fuel(sum_of_widths, 4);
    let g1 = gap(minus(bar as int, line_width(left) as int));
    let g2 = gap(minus(bar as int, line_width(right) as int));
    let g3 = gap(end_gap(w));
    lemma_gap_width(minus(bar as int, line_width(left) as int));
    lemma_gap_width(minus(bar as int, line_width(right) as int));
    lemma_gap_width(end_gap(w));
    lemma_strip_width(info, sel, i);
    let s = strips(info, sel, i);
    crate::boxes::lemma_width_of_sum(head, left);
    crate::boxes::lemma_width_of_sum(head + left, g1);
    crate::boxes::lemma_width_of_sum(head + left + g1, s);
    crate::boxes::lemma_width_of_sum(head + left + g1 + s, right);
    crate::boxes::lemma_width_of_sum(head + left + g1 + s + right, g2);
    crate::boxes::lemma_width_of_sum(head + left + g1 + s + right + g2, g3);
    crate::boxes::lemma_width_of_sum(head + left + g1 + s + right + g2 + g3, tail);
}

} // verus!
