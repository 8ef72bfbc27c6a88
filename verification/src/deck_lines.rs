//! The lines that describe one deck.
use crate::boxes::ts;
use crate::deck::{Deck, Phrase};
use crate::meters::{
    abs, render_sparkline_spans, render_waveform_spans, signed_tenths, signed_tenths_str,
    spark_line, wave_line, wide_mul,
};
use crate::screens::{clock, clock_str};
use crate::style::{add_span, span, spans_view, Color, Span, SpanV, Style};
use crate::text::{
    concat2, concat3, decimal, ellipsis, minus, owned, repeat, repeated, round_div, rounded_div,
    sat_sub, wide_decimal_str,
};
use crate::track::{
    bpm_tenths, bpm_tenths_str, bpm_whole, bpm_whole_str, track_name, Track,
};
use vstd::prelude::*;
use vstd::string::*;

verus! {

/// How many lines describe a deck.
pub const DECK_ROWS: usize = 7;

pub open spec fn deck_label(is_a: bool) -> Seq<char> {
    if is_a {
        "DECK A"@
    } else {
        "DECK B"@
    }
}

/// A tempo with one decimal, or a dash.
pub open spec fn tempo_text(bpm: Option<u32>) -> Seq<char> {
    match bpm {
        Some(b) => bpm_tenths(b),
        None => "—"@,
    }
}

pub fn tempo_str(bpm: Option<u32>) -> (s: String)
    ensures
        s@ == tempo_text(bpm),
{
    match bpm {
        Some(b) => bpm_tenths_str(b),
        None => owned("—"),
    }
}

/// How far a tempo is off the natural one, in percent.
pub open spec fn pitch_text(bpm: Option<u32>, natural: u32) -> Seq<char> {
    match bpm {
        Some(b) => if natural == 0 {
            if b == 0 {
                "(NaN%)"@
            } else {
                "(+inf%)"@
            }
        } else {
            "("@ + signed_tenths(
                b < natural,
                round_div(1000 * abs(b - natural), natural as nat),
            ) + "%)"@
        },
        None => ""@,
    }
}

fn pitch_str(bpm: Option<u32>, natural: u32) -> (s: String)
    ensures
        s@ == pitch_text(bpm, natural),
{
    match bpm {
        Some(b) => {
            if natural == 0 {
                if b == 0 {
                    owned("(NaN%)")
                } else {
                    owned("(+inf%)")
                }
            } else {
                let d: u64 = if b < natural {
                    (natural - b) as u64
                } else {
                    (b - natural) as u64
                };
                let t: u128 = rounded_div((1000 * d) as u128, natural as u128);
                concat3("(", signed_tenths_str(b < natural, t).as_str(), "%)")
            }
        },
        None => owned(""),
    }
}

/// How many whole bars of four beats a time holds.
pub open spec fn bars_in(ms: nat, bpm: nat) -> nat {
    (ms * bpm) / 240_000_000
}

fn bars_of(ms: u64, bpm: u32) -> (n: u128)
    ensures
        n == bars_in(ms as nat, bpm as nat),
{
    wide_mul(ms, bpm as u64) / 240_000_000
}

/// The bar being played, and how many there are.
pub open spec fn bar_text(deck: Deck) -> Seq<char> {
    "  bar "@ + (match deck.bpm {
        Some(b) => decimal(bars_in(deck.time_ms as nat, b as nat) + 1) + "/"@ + decimal(
            bars_in(deck.duration_ms as nat, b as nat),
        ),
        None => "0/0"@,
    })
}

fn bar_str(deck: &Deck) -> (s: String)
    ensures
        s@ == bar_text(*deck),
{
    let n: String = match deck.bpm {
        Some(b) => {
            let at: u128 = bars_of(deck.time_ms, b);
            proof {
                let p = deck.time_ms * b;
                assert(p <= 0xffff_ffff_ffff_ffff * 0xffff_ffff) by (nonlinear_arith)
                    requires
                        p == deck.time_ms * b,
                        deck.time_ms <= 0xffff_ffff_ffff_ffff,
                        b <= 0xffff_ffff,
                ;
            }
            concat3(
                wide_decimal_str(at + 1).as_str(),
                "/",
                wide_decimal_str(bars_of(deck.duration_ms, b)).as_str(),
            )
        },
        None => owned("0/0"),
    };
    concat2("  bar ", n.as_str())
}

/// Time, length and bar of a deck that plays; else that it is ready.
pub open spec fn time_line(deck: Deck) -> Seq<SpanV> {
    let dark = Style::of(Color::DarkGray);
    if deck.is_playing && deck.duration_ms > 0 {
        seq![
            span(clock(deck.time_ms as nat / 1000), Style::of(Color::White)),
            span(" / "@ + clock(deck.duration_ms as nat / 1000), dark),
            span(bar_text(deck), dark),
        ]
    } else if deck.duration_ms > 0 {
        seq![span("ready  "@ + clock(deck.duration_ms as nat / 1000), dark)]
    } else {
        seq![span("ready"@, dark)]
    }
}

/// The first line of a deck: its name, whether it plays, the beat and the tempo.
pub open spec fn head_line(deck: Deck, t: Track, is_a: bool) -> Seq<SpanV> {
    seq![
        span(deck_label(is_a) + " "@, Style::plain().bold()),
        if deck.is_playing {
            span("▶"@, Style::of(Color::Green))
        } else {
            span("⏸"@, Style::of(Color::DarkGray))
        },
        span(
            "  "@ + (if deck.kick {
                "●"@
            } else {
                "○"@
            }) + " "@ + tempo_text(deck.bpm) + " "@,
            Style::of(Color::Yellow),
        ),
        span(
            pitch_text(
                deck.bpm,
                match t.bpm {
                    Some(n) => n,
                    None => 128_000,
                },
            ),
            Style::of(Color::DarkGray),
        ),
    ]
}

pub open spec fn natural_line(t: Track) -> Seq<char> {
    (match t.bpm {
        Some(b) => bpm_whole(b),
        None => "?"@,
    }) + " BPM / "@ + (match t.key {
        Some(k) => k@,
        None => "?"@,
    })
}

pub open spec fn peaks_of(deck: Deck) -> Seq<i32> {
    match deck.analysis {
        Some(a) => a.peaks@,
        None => Seq::empty(),
    }
}

pub open spec fn phrases_of(deck: Deck) -> Seq<Phrase> {
    match deck.analysis {
        Some(a) => a.phrases@,
        None => Seq::empty(),
    }
}

/// A bar of an empty deck, with a label in its middle.
pub open spec fn empty_bar(label: Seq<char>, w: nat) -> Seq<SpanV> {
    let dark = Style::of(Color::DarkGray);
    let left = minus(w as int, label.len() as int) / 2;
    seq![
        span(repeat('░', left), dark),
        span(label, Style::of(Color::Gray)),
        span(repeat('░', minus(w as int, (left + label.len()) as int)), dark),
    ]
}

/// One of the lines that describe a deck, `w` cells wide at most.
pub open spec fn deck_line(deck: Deck, is_a: bool, w: nat, mix: Option<u64>, i: int) -> Seq<SpanV> {
    let dark = Style::of(Color::DarkGray);
    match deck.track {
        Some(t) => if i == 0 {
            head_line(deck, t, is_a)
        } else if i == 1 {
            seq![span(ellipsis(track_name(t), w), Style::of(Color::White))]
        } else if i == 2 {
            seq![span(natural_line(t), dark)]
        } else if i == 3 {
            time_line(deck)
        } else if i == 4 {
            Seq::empty()
        } else if i == 5 {
            wave_line(peaks_of(deck), deck.time_ms as nat, deck.duration_ms as nat, w)
        } else {
            spark_line(
                phrases_of(deck),
                deck.time_ms as nat,
                deck.duration_ms as nat,
                w,
                if deck.is_playing {
                    mix
                } else {
                    None
                },
            )
        },
        None => if i == 0 {
            seq![
                span(deck_label(is_a) + " "@, Style::plain().bold()),
                span(
                    if deck.is_playing {
                        "▶"@
                    } else {
                        "⏸"@
                    },
                    dark,
                ),
            ]
        } else if i == 1 {
            seq![span("—"@, dark)]
        } else if i == 2 {
            seq![span("— BPM / —"@, dark)]
        } else if i == 3 {
            seq![span("—:— / —:—"@, dark)]
        } else if i == 4 {
            Seq::empty()
        } else if i == 5 {
            empty_bar("waveform"@, w)
        } else {
            empty_bar("phrase"@, w)
        },
    }
}

/// All the lines that describe a deck.
pub open spec fn deck_lines(deck: Deck, is_a: bool, w: nat, mix: Option<u64>) -> Seq<Seq<SpanV>> {
    Seq::new(DECK_ROWS as nat, |i: int| deck_line(deck, is_a, w, mix, i))
}

/// The spans of each line.
pub open spec fn rows_view(rows: Seq<Vec<Span>>) -> Seq<Seq<SpanV>> {
    Seq::new(rows.len(), |i: int| spans_view(rows[i]@))
}

fn one_span(text: &str, style: Style) -> (spans: Vec<Span>)
    ensures
        spans_view(spans@) == seq![span(text@, style)],
{
    let mut spans: Vec<Span> = Vec::new();
    add_span(&mut spans, text, style);
    assert(spans_view(spans@) == seq![span(text@, style)]);
    spans
}

fn head_spans(deck: &Deck, t: &Track, is_a: bool) -> (spans: Vec<Span>)
    ensures
        spans_view(spans@) == head_line(*deck, *t, is_a),
{
    let mut spans: Vec<Span> = Vec::new();
    let label: String = concat2(
        if is_a {
            "DECK A"
        } else {
            "DECK B"
        },
        " ",
    );
    add_span(&mut spans, label.as_str(), Style::plain().bold());
    if deck.is_playing {
        add_span(&mut spans, "▶", Style::of(Color::Green));
    } else {
        add_span(&mut spans, "⏸", Style::of(Color::DarkGray));
    }
    let dot: &str = if deck.kick {
        "●"
    } else {
        "○"
    };
    let lead: String = concat3("  ", dot, " ");
    let beat: String = concat3(lead.as_str(), tempo_str(deck.bpm).as_str(), " ");
    add_span(&mut spans, beat.as_str(), Style::of(Color::Yellow));
    let natural: u32 = match t.bpm {
        Some(n) => n,
        None => 128_000,
    };
    let pitch: String = pitch_str(deck.bpm, natural);
    add_span(&mut spans, pitch.as_str(), Style::of(Color::DarkGray));
    assert(spans_view(spans@) == head_line(*deck, *t, is_a));
    spans
}

fn natural_str(t: &Track) -> (s: String)
    ensures
        s@ == natural_line(*t),
{
    let b: String = match t.bpm {
        Some(n) => bpm_whole_str(n),
        None => owned("?"),
    };
    match &t.key {
        Some(k) => concat3(b.as_str(), " BPM / ", k.as_str()),
        None => concat3(b.as_str(), " BPM / ", "?"),
    }
}

fn time_spans(deck: &Deck) -> (spans: Vec<Span>)
    ensures
        spans_view(spans@) == time_line(*deck),
{
    let dark: Style = Style::of(Color::DarkGray);
    if deck.is_playing && deck.duration_ms > 0 {
        let mut spans: Vec<Span> = Vec::new();
        let at: String = clock_str(deck.time_ms / 1000);
        add_span(&mut spans, at.as_str(), Style::of(Color::White));
        let len: String = concat2(" / ", clock_str(deck.duration_ms / 1000).as_str());
        add_span(&mut spans, len.as_str(), dark);
        let bar: String = bar_str(deck);
        add_span(&mut spans, bar.as_str(), dark);
        assert(spans_view(spans@) == time_line(*deck));
        spans
    } else if deck.duration_ms > 0 {
        one_span(concat2("ready  ", clock_str(deck.duration_ms / 1000).as_str()).as_str(), dark)
    } else {
        one_span("ready", dark)
    }
}

fn empty_bar_spans(label: &str, w: usize) -> (spans: Vec<Span>)
    ensures
        spans_view(spans@) == empty_bar(label@, w as nat),
{
    let dark: Style = Style::of(Color::DarkGray);
    let n: usize = crate::text::char_count(label);
    let left: usize = sat_sub(w, n) / 2;
    let mut spans: Vec<Span> = Vec::new();
    let a: String = repeated('░', left);
    add_span(&mut spans, a.as_str(), dark);
    add_span(&mut spans, label, Style::of(Color::Gray));
    let b: String = repeated('░', sat_sub(sat_sub(w, left), n));
    add_span(&mut spans, b.as_str(), dark);
    assert(spans_view(spans@) == empty_bar(label@, w as nat));
    spans
}

fn wave_spans(deck: &Deck, w: usize) -> (spans: Vec<Span>)
    ensures
        spans_view(spans@) == wave_line(
            peaks_of(*deck),
            deck.time_ms as nat,
            deck.duration_ms as nat,
            w as nat,
        ),
{
    match &deck.analysis {
        Some(a) => render_waveform_spans(&a.peaks, deck.time_ms, deck.duration_ms, w),
        None => {
            let none: Vec<i32> = Vec::new();
            assert(none@ == Seq::<i32>::empty());
            render_waveform_spans(&none, deck.time_ms, deck.duration_ms, w)
        },
    }
}

fn spark_spans(deck: &Deck, w: usize, mix: Option<u64>) -> (spans: Vec<Span>)
    ensures
        spans_view(spans@) == spark_line(
            phrases_of(*deck),
            deck.time_ms as nat,
            deck.duration_ms as nat,
            w as nat,
            mix,
        ),
{
    match &deck.analysis {
        Some(a) => render_sparkline_spans(&a.phrases, deck.time_ms, deck.duration_ms, w, mix),
        None => {
            let none: Vec<Phrase> = Vec::new();
            assert(none@ == Seq::<Phrase>::empty());
            render_sparkline_spans(&none, deck.time_ms, deck.duration_ms, w, mix)
        },
    }
}

fn deck_line_of(deck: &Deck, is_a: bool, w: usize, mix: Option<u64>, i: usize) -> (spans: Vec<Span>)
    ensures
        spans_view(spans@) == deck_line(*deck, is_a, w as nat, mix, i as int),
{
    let dark: Style = Style::of(Color::DarkGray);
    match &deck.track {
        Some(t) => if i == 0 {
            head_spans(deck, t, is_a)
        } else if i == 1 {
            one_span(ts(t.name().as_str(), w).as_str(), Style::of(Color::White))
        } else if i == 2 {
            one_span(natural_str(t).as_str(), dark)
        } else if i == 3 {
            time_spans(deck)
        } else if i == 4 {
            let none: Vec<Span> = Vec::new();
            assert(spans_view(none@) == Seq::<SpanV>::empty());
            none
        } else if i == 5 {
            wave_spans(deck, w)
        } else {
            spark_spans(
                deck,
                w,
                if deck.is_playing {
                    mix
                } else {
                    None
                },
            )
        },
        None => if i == 0 {
            let mut spans: Vec<Span> = Vec::new();
            let label: String = concat2(
                if is_a {
                    "DECK A"
                } else {
                    "DECK B"
                },
                " ",
            );
            add_span(&mut spans, label.as_str(), Style::plain().bold());
            add_span(
                &mut spans,
                if deck.is_playing {
                    "▶"
                } else {
                    "⏸"
                },
                dark,
            );
            assert(spans_view(spans@) == deck_line(*deck, is_a, w as nat, mix, 0));
            spans
        } else if i == 1 {
            one_span("—", dark)
        } else if i == 2 {
            one_span("— BPM / —", dark)
        } else if i == 3 {
            one_span("—:— / —:—", dark)
        } else if i == 4 {
            let none: Vec<Span> = Vec::new();
            assert(spans_view(none@) == Seq::<SpanV>::empty());
            none
        } else if i == 5 {
            empty_bar_spans("waveform", w)
        } else {
            empty_bar_spans("phrase", w)
        },
    }
}

/// The lines that describe a deck.
pub fn deck_lines_styled(deck: &Deck, is_a: bool, w: usize, mix: Option<u64>) -> (rows: Vec<
    Vec<Span>,
>)
    ensures
        rows_view(rows@) == deck_lines(*deck, is_a, w as nat, mix),
{
    let mut rows: Vec<Vec<Span>> = Vec::new();
    let mut i: usize = 0;
    while i < DECK_ROWS
        invariant
            i <= DECK_ROWS,
            rows_view(rows@) == Seq::new(
                i as nat,
                |k: int| deck_line(*deck, is_a, w as nat, mix, k),
            ),
        decreases DECK_ROWS - i,
    {
        let ghost before = rows_view(rows@);
        let spans: Vec<Span> = deck_line_of(deck, is_a, w, mix, i);
        let ghost v = spans_view(spans@);
        rows.push(spans);
        assert(rows_view(rows@) == before.push(v));
        i += 1;
        assert(rows_view(rows@) == Seq::new(
            i as nat,
            |k: int| deck_line(*deck, is_a, w as nat, mix, k),
        ));
    }
    rows
}

/// The deck as three lines of plain text.
pub open spec fn deck_text(deck: Deck, is_a: bool, w: nat) -> Seq<Seq<char>> {
    match deck.track {
        Some(t) => seq![
            deck_label(is_a) + " "@ + tempo_text(deck.bpm) + " BPM"@,
            ellipsis(track_name(t), w),
            clock(deck.time_ms as nat / 1000) + " / "@ + clock(deck.duration_ms as nat / 1000),
        ],
        None => seq![deck_label(is_a) + " —"@, "No track"@, "—:— / —:—"@],
    }
}

pub fn deck_text_line(deck: &Deck, is_a: bool, w: usize) -> (lines: Vec<String>)
    ensures
        crate::text::strs(lines@) == deck_text(*deck, is_a, w as nat),
{
    let label: &str = if is_a {
        "DECK A"
    } else {
        "DECK B"
    };
    let mut lines: Vec<String> = Vec::new();
    match &deck.track {
        Some(t) => {
            let head: String = concat3(label, " ", tempo_str(deck.bpm).as_str());
            lines.push(concat2(head.as_str(), " BPM"));
            lines.push(ts(t.name().as_str(), w));
            lines.push(
                concat3(
                    clock_str(deck.time_ms / 1000).as_str(),
                    " / ",
                    clock_str(deck.duration_ms / 1000).as_str(),
                ),
            );
        },
        None => {
            lines.push(concat2(label, " —"));
            lines.push(owned("No track"));
            lines.push(owned("—:— / —:—"));
        },
    }
    assert(crate::text::strs(lines@) == deck_text(*deck, is_a, w as nat));
    lines
}

} // verus!
