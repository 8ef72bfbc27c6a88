//! Meters, faders, waveforms and the other small pictures of the dashboard.
use crate::deck::Phrase;
use crate::style::{
    add_span, line_text, line_width, line_width_is_text_len, span, spans_view, Color, Span, SpanV,
    Style,
};
use crate::text::{
    concat2, concat3, decimal, max_of, min_of, minus, push_repeat, repeat, repeated, round_div,
    rounded_div, wide_decimal_str,
};
use vstd::prelude::*;
use vstd::string::*;

verus! {

pub(crate) fn wide_mul(a: u64, b: u64) -> (r: u128)
    ensures
        r == a * b,
{
    assert(a * b <= 0xffff_ffff_ffff_ffff * 0xffff_ffff_ffff_ffff) by (nonlinear_arith)
        requires
            a <= 0xffff_ffff_ffff_ffff,
            b <= 0xffff_ffff_ffff_ffff,
    ;
    assert(a * b >= 0) by (nonlinear_arith);
    a as u128 * b as u128
}

pub open spec fn abs(n: int) -> nat {
    if n < 0 {
        (-n) as nat
    } else {
        n as nat
    }
}

fn magnitude(n: i64) -> (r: u64)
    ensures
        r == abs(n as int),
{
    if n < 0 {
        (-(n as i128)) as u64
    } else {
        n as u64
    }
}

/// How well two beats sit on each other: green under 5 ms, yellow under 15 ms,
/// else red.
pub open spec fn phase_color(us: int) -> Color {
    if abs(us) < 5000 {
        Color::Green
    } else if abs(us) < 15000 {
        Color::Yellow
    } else {
        Color::Red
    }
}

fn pc(us: i64) -> (c: Color)
    ensures
        c == phase_color(us as int),
{
    let a: u64 = magnitude(us);
    if a < 5000 {
        Color::Green
    } else if a < 15000 {
        Color::Yellow
    } else {
        Color::Red
    }
}

/// As [`phase_color`], but never green where the first beats of the bars do not
/// fall together.
pub open spec fn aligned_color(us: int, downbeat_aligned: bool) -> Color {
    if downbeat_aligned {
        phase_color(us)
    } else if abs(us) < 15000 {
        Color::Yellow
    } else {
        Color::Red
    }
}

pub fn pc_aligned(us: i64, downbeat_aligned: bool) -> (c: Color)
    ensures
        c == aligned_color(us as int, downbeat_aligned),
{
    if !downbeat_aligned {
        if magnitude(us) < 15000 {
            Color::Yellow
        } else {
            Color::Red
        }
    } else {
        pc(us)
    }
}

/// Green asks for both: a phase under 5 ms and the first beats together.
pub proof fn green_is_tight_and_aligned(us: int, downbeat_aligned: bool)
    ensures
        aligned_color(us, downbeat_aligned) == Color::Green <==> abs(us) < 5000 && downbeat_aligned,
{
}

/// A number of tenths, with its sign and one decimal.
pub open spec fn signed_tenths(negative: bool, tenths: nat) -> Seq<char> {
    (if negative {
        "-"@
    } else {
        "+"@
    }) + decimal(tenths / 10) + "."@ + decimal(tenths % 10)
}

pub fn signed_tenths_str(negative: bool, tenths: u128) -> (s: String)
    ensures
        s@ == signed_tenths(negative, tenths as nat),
{
    let sign: &str = if negative {
        "-"
    } else {
        "+"
    };
    let whole: String = concat2(sign, wide_decimal_str(tenths / 10).as_str());
    concat3(whole.as_str(), ".", wide_decimal_str(tenths % 10).as_str())
}

/// A number of hundredths as a signed whole number; what rounds to nothing
/// keeps its sign.
pub open spec fn signed_whole(hundredths: int) -> Seq<char> {
    (if hundredths < 0 {
        "-"@
    } else {
        "+"@
    }) + decimal(round_div(abs(hundredths), 100))
}

pub fn signed_whole_str(hundredths: i32) -> (s: String)
    ensures
        s@ == signed_whole(hundredths as int),
{
    let m: u64 = magnitude(hundredths as i64);
    let n: String = wide_decimal_str(rounded_div(m as u128, 100));
    if hundredths < 0 {
        concat2("-", n.as_str())
    } else {
        concat2("+", n.as_str())
    }
}

/// The phase, such as `+3.2ms`.
pub open spec fn phase_text(us: int) -> Seq<char> {
    signed_tenths(us < 0, round_div(abs(us), 100)) + "ms"@
}

pub fn phase_str(us: i64) -> (s: String)
    ensures
        s@ == phase_text(us as int),
{
    let t: u128 = rounded_div(magnitude(us) as u128, 100);
    concat2(signed_tenths_str(us < 0, t).as_str(), "ms")
}

/// The row a tempo fader stands on: the top row is a tenth faster, the bottom
/// row a tenth slower.
pub open spec fn tempo_row(rate: int, rows: nat) -> int {
    let d = max_of(min_of(rate, 100_000), -100_000);
    (2 * (100_000 - d) * minus(rows as int, 1) + 200_000) / 400_000
}

/// The row a channel fader stands on: full at the top.
pub open spec fn volume_row(value: int, rows: nat) -> int {
    let v = max_of(min_of(value, 1000), 0);
    (2 * (1000 - v) * minus(rows as int, 1) + 1000) / 2000
}

/// A fader at one row of its strip.
pub open spec fn fader_span(at: bool) -> SpanV {
    if at {
        span("═"@, Style::of(Color::White))
    } else {
        span("│"@, Style::of(Color::DarkGray))
    }
}

fn fader_cell(at: bool) -> (s: Span)
    ensures
        s@ == fader_span(at),
{
    if at {
        Span::styled("═", Style::of(Color::White))
    } else {
        Span::styled("│", Style::of(Color::DarkGray))
    }
}

/// Tempo fader cell.
pub fn fader_ch(row: usize, rows: usize, rate: i64) -> (s: Span)
    ensures
        s@ == fader_span(row == tempo_row(rate as int, rows as nat)),
{
    let d: i64 = if rate > 100_000 {
        100_000
    } else if rate < -100_000 {
        -100_000
    } else {
        rate
    };
    let k: u64 = (2 * (100_000 - d)) as u64;
    let last: u64 = if rows == 0 {
        0
    } else {
        (rows - 1) as u64
    };
    let m: u128 = wide_mul(k, last);
    assert(m <= 400_000 * 0xffff_ffff_ffff_ffff) by (nonlinear_arith)
        requires
            m == k * last,
            k <= 400_000,
            last <= 0xffff_ffff_ffff_ffff,
    ;
    let pos: u128 = (m + 200_000) / 400_000;
    fader_cell(row as u128 == pos)
}

/// Channel fader cell.
pub fn fader_ch_vol(row: usize, rows: usize, value: i32) -> (s: Span)
    ensures
        s@ == fader_span(row == volume_row(value as int, rows as nat)),
{
    let v: i64 = if value > 1000 {
        1000
    } else if value < 0 {
        0
    } else {
        value as i64
    };
    let k: u64 = (2 * (1000 - v)) as u64;
    let last: u64 = if rows == 0 {
        0
    } else {
        (rows - 1) as u64
    };
    let m: u128 = wide_mul(k, last);
    assert(m <= 2000 * 0xffff_ffff_ffff_ffff) by (nonlinear_arith)
        requires
            m == k * last,
            k <= 2000,
            last <= 0xffff_ffff_ffff_ffff,
    ;
    let pos: u128 = (m + 1000) / 2000;
    fader_cell(row as u128 == pos)
}

/// A fader stands on one of the rows of its strip, at the top for the largest
/// value and at the bottom for the smallest.
pub proof fn faders_stand_on_their_strip(rate: int, value: int, rows: nat)
    requires
        rows > 0,
    ensures
        0 <= tempo_row(rate, rows) < rows,
        0 <= volume_row(value, rows) < rows,
        rate >= 100_000 ==> tempo_row(rate, rows) == 0,
        rate <= -100_000 ==> tempo_row(rate, rows) == rows - 1,
        value >= 1000 ==> volume_row(value, rows) == 0,
        value <= 0 ==> volume_row(value, rows) == rows - 1,
{
    let last = rows - 1;
    let d = max_of(min_of(rate, 100_000), -100_000);
    let v = max_of(min_of(value, 1000), 0);
    assert(0 <= 2 * (100_000 - d) * last <= 400_000 * last) by (nonlinear_arith)
        requires
            -100_000 <= d <= 100_000,
            last >= 0,
    ;
    assert(0 <= 2 * (1000 - v) * last <= 2000 * last) by (nonlinear_arith)
        requires
            0 <= v <= 1000,
            last >= 0,
    ;
    assert(d == 100_000 ==> 2 * (100_000 - d) * last == 0) by (nonlinear_arith);
    assert(d == -100_000 ==> 2 * (100_000 - d) * last == 400_000 * last) by (nonlinear_arith);
    assert(v == 1000 ==> 2 * (1000 - v) * last == 0) by (nonlinear_arith);
    assert(v == 0 ==> 2 * (1000 - v) * last == 2000 * last) by (nonlinear_arith);
}

/// How many cells of a level meter light up; the level is boosted by a fifth.
pub open spec fn vu_cells(level: nat, rows: nat) -> int {
    min_of((12 * level * rows) as int / 10_000, rows as int)
}

/// A level meter at a row counted from the bottom.
pub open spec fn vu_span(row: int, lit: int, rows: int) -> SpanV {
    if row < lit {
        span(
            "█"@,
            Style::of(
                if row == minus(rows, 1) {
                    Color::Red
                } else if row == minus(rows, 2) {
                    Color::Yellow
                } else {
                    Color::White
                },
            ),
        )
    } else {
        span("░"@, Style::of(Color::DarkGray))
    }
}

/// Level meter cell.
pub fn vu_ch(row: usize, level: u32, rows: usize) -> (s: Span)
    ensures
        s@ == vu_span(row as int, vu_cells(level as nat, rows as nat), rows as int),
{
    let k: u64 = 12 * (level as u64);
    let m: u128 = wide_mul(k, rows as u64);
    assert(12 * (level as nat) * (rows as nat) == m) by (nonlinear_arith)
        requires
            m == k * (rows as u64),
            k == 12 * level,
    ;
    let n: u128 = m / 10_000;
    let lit: u128 = if n > rows as u128 {
        rows as u128
    } else {
        n
    };
    let top: usize = if rows == 0 {
        0
    } else {
        rows - 1
    };
    let yellow: usize = if rows < 2 {
        0
    } else {
        rows - 2
    };
    if (row as u128) < lit {
        if row == top {
            Span::styled("█", Style::of(Color::Red))
        } else if row == yellow {
            Span::styled("█", Style::of(Color::Yellow))
        } else {
            Span::styled("█", Style::of(Color::White))
        }
    } else {
        Span::styled("░", Style::of(Color::DarkGray))
    }
}

/// The dot that stands for the beat at a row: the first beat of the bar is
/// filled. A stopped deck shows the rows as they stand; a playing one scrolls
/// with its beats, and is coloured by the phase when both decks play.
pub open spec fn beat_span(
    row: int,
    center: int,
    playing: bool,
    loaded: bool,
    both: bool,
    us: int,
    beat: int,
    downbeat_aligned: bool,
) -> SpanV {
    let at = if playing {
        row - center + beat
    } else {
        row - center
    };
    let dot = if at % 4 == 0 {
        "●"@
    } else {
        "○"@
    };
    if !loaded {
        span(" "@, Style::plain())
    } else if playing && both {
        span(dot, Style::of(aligned_color(us, downbeat_aligned)))
    } else {
        span(dot, Style::of(Color::DarkGray))
    }
}

/// Beat dot cell.
pub fn bdot(
    row: usize,
    center: usize,
    playing: bool,
    loaded: bool,
    both: bool,
    us: i64,
    beat: i32,
    downbeat_aligned: bool,
) -> (s: Span)
    ensures
        s@ == beat_span(
            row as int,
            center as int,
            playing,
            loaded,
            both,
            us as int,
            beat as int,
            downbeat_aligned,
        ),
{
    if !loaded {
        return Span::styled(" ", Style::plain());
    }
    let diff: i128 = row as i128 - center as i128;
    let at: i128 = if playing {
        diff + beat as i128
    } else {
        diff
    };
    let first: bool = at % 4 == 0;
    assert(first == ((at as int) % 4 == 0));
    let dot: &str = if first {
        "●"
    } else {
        "○"
    };
    if playing && both {
        Span::styled(dot, Style::of(pc_aligned(us, downbeat_aligned)))
    } else {
        Span::styled(dot, Style::of(Color::DarkGray))
    }
}

/// One picture column: a character and its style.
pub type Cell = (char, Style);

/// Columns as spans: neighbours of one style are drawn together.
pub open spec fn runs(cells: Seq<Cell>) -> Seq<SpanV>
    decreases cells.len(),
{
    if cells.len() == 0 {
        Seq::empty()
    } else {
        let before = runs(cells.drop_last());
        let (c, style) = cells.last();
        if before.len() > 0 && before.last().style == style {
            before.drop_last().push(span(before.last().text.push(c), style))
        } else {
            before.push(span(seq![c], style))
        }
    }
}

/// Grouping columns into spans changes no character, and neighbouring spans
/// differ in style.
pub proof fn runs_keep_the_columns(cells: Seq<Cell>)
    ensures
        line_text(runs(cells)) == Seq::new(cells.len(), |i: int| cells[i].0),
        line_width(runs(cells)) == cells.len(),
        forall|i: int|
            0 < i < runs(cells).len() ==> (#[trigger] runs(cells)[i]).style != runs(cells)[i
                - 1].style,
    decreases cells.len(),
{
    line_width_is_text_len(runs(cells));
    if cells.len() > 0 {
        let front = cells.drop_last();
        runs_keep_the_columns(front);
        let before = runs(front);
        let (c, style) = cells.last();
        let after = runs(cells);
        let want = Seq::new(cells.len(), |i: int| cells[i].0);
        let had = Seq::new(front.len(), |i: int| front[i].0);
        assert(want == had.push(c));
        if before.len() > 0 && before.last().style == style {
            assert(after.drop_last() == before.drop_last());
            assert(line_text(before) == line_text(before.drop_last()) + before.last().text);
            assert(line_text(after) == line_text(before.drop_last()) + before.last().text.push(c));
            assert(line_text(after) == line_text(before).push(c));
            assert forall|i: int| 0 < i < after.len() implies (#[trigger] after[i]).style != after[i
                - 1].style by {
                assert(before[i].style != before[i - 1].style);
            }
        } else {
            assert(after.drop_last() == before);
            assert(line_text(after) == line_text(before) + seq![c]);
            assert(line_text(after) == line_text(before).push(c));
            assert forall|i: int| 0 < i < after.len() implies (#[trigger] after[i]).style != after[i
                - 1].style by {
                if i < before.len() {
                    assert(before[i].style != before[i - 1].style);
                }
            }
        }
    } else {
        assert(line_text(runs(cells)) == Seq::new(cells.len(), |i: int| cells[i].0));
    }
}

fn group_runs(cells: &Vec<Cell>) -> (spans: Vec<Span>)
    ensures
        spans_view(spans@) == runs(cells@),
{
    let mut spans: Vec<Span> = Vec::new();
    let mut text: String = String::new();
    let mut style: Style = Style::plain();
    let mut i: usize = 0;
    assert(runs(cells@.take(0)) == spans_view(spans@));
    while i < cells.len()
        invariant
            i <= cells.len(),
            i == 0 ==> text@.len() == 0,
            i > 0 ==> text@.len() > 0,
            runs(cells@.take(i as int)) == if text@.len() == 0 {
                spans_view(spans@)
            } else {
                spans_view(spans@).push(span(text@, style))
            },
            i == 0 ==> spans@.len() == 0,
        decreases cells.len() - i,
    {
        let cell: Cell = cells[i];
        let ghost before = runs(cells@.take(i as int));
        assert(cells@.take(i + 1).drop_last() == cells@.take(i as int));
        assert(cells@.take(i + 1).last() == cell);
        let c: char = cell.0;
        if i > 0 && cell.1 == style {
            assert(before.drop_last() == spans_view(spans@));
            text.push(c);
        } else {
            if i > 0 {
                add_span(&mut spans, text.as_str(), style);
            }
            text = String::new();
            text.push(c);
            assert(text@ == seq![c]);
            style = cell.1;
        }
        i += 1;
    }
    assert(cells@.take(i as int) == cells@);
    if i > 0 {
        add_span(&mut spans, text.as_str(), style);
    }
    spans
}

/// Heights of a waveform column.
pub const WAVE: [char; 9] = [' ', '▁', '▂', '▃', '▄', '▅', '▆', '▇', '█'];

/// Heights of a sparkline column.
pub const SPARK: [char; 8] = ['▁', '▂', '▃', '▄', '▅', '▆', '▇', '█'];

/// Heights of a plain-text waveform column.
pub const ASCII_WAVE: [char; 8] = ['_', '.', '-', '~', '^', '/', '\\', '|'];

/// The step of a scale of `steps` that a number of thousandths falls on.
pub open spec fn step_of(thousandths: int, steps: int) -> int {
    max_of(0, min_of(thousandths * steps / 1000, steps - 1))
}

fn step_index(thousandths: i32, steps: usize) -> (i: usize)
    requires
        0 < steps <= 9,
    ensures
        i == step_of(thousandths as int, steps as int),
        i < steps,
{
    if thousandths <= 0 {
        assert(thousandths as int * steps as int <= 0) by (nonlinear_arith)
            requires
                thousandths <= 0,
                steps > 0,
        ;
        return 0;
    }
    let k: u64 = thousandths as u64;
    assert(k * steps <= 0x7fff_ffff * 9) by (nonlinear_arith)
        requires
            k <= 0x7fff_ffff,
            steps <= 9,
    ;
    assert(0 <= k * steps) by (nonlinear_arith)
        requires
            k >= 0,
            steps > 0,
    ;
    let n: u64 = k * steps as u64 / 1000;
    if n >= steps as u64 {
        steps - 1
    } else {
        n as usize
    }
}

/// The column of `w` that a time falls on.
pub open spec fn column_of(time: nat, total: nat, w: nat) -> nat {
    (time * w) / total
}

fn column(time: u64, total: u64, w: usize) -> (c: u128)
    requires
        total > 0,
    ensures
        c == column_of(time as nat, total as nat, w as nat),
{
    wide_mul(time, w as u64) / total as u128
}

/// Where the playhead stands; at the left while the length is unknown.
pub open spec fn playhead(time: nat, total: nat, w: nat) -> nat {
    if total > 0 {
        column_of(time, total, w)
    } else {
        0
    }
}

fn playhead_at(time: u64, total: u64, w: usize) -> (c: u128)
    ensures
        c == playhead(time as nat, total as nat, w as nat),
{
    if total > 0 {
        column(time, total, w)
    } else {
        0
    }
}

/// A column of the coloured waveform: dark before the playhead, cyan on it,
/// white after it.
pub open spec fn wave_cell(peaks: Seq<i32>, time: nat, total: nat, w: nat, col: int) -> Cell {
    let at = playhead(time, total, w);
    (
        WAVE@[step_of(peaks[col * peaks.len() / w as int] as int, 9)],
        Style::of(
            if col == at {
                Color::Cyan
            } else if col < at {
                Color::DarkGray
            } else {
                Color::White
            },
        ),
    )
}

pub open spec fn wave_line(peaks: Seq<i32>, time: nat, total: nat, w: nat) -> Seq<SpanV> {
    if peaks.len() == 0 {
        seq![span(repeat('░', w), Style::of(Color::DarkGray))]
    } else {
        runs(Seq::new(w, |col: int| wave_cell(peaks, time, total, w, col)))
    }
}

/// The coloured waveform of a deck, `w` columns wide.
pub fn render_waveform_spans(peaks: &Vec<i32>, time: u64, total: u64, w: usize) -> (spans: Vec<Span>)
    ensures
        spans_view(spans@) == wave_line(peaks@, time as nat, total as nat, w as nat),
{
    if peaks.len() == 0 {
        let mut spans: Vec<Span> = Vec::new();
        let bar: String = repeated('░', w);
        add_span(&mut spans, bar.as_str(), Style::of(Color::DarkGray));
        assert(spans_view(spans@) == wave_line(peaks@, time as nat, total as nat, w as nat));
        return spans;
    }
    let at: u128 = playhead_at(time, total, w);
    let mut cells: Vec<Cell> = Vec::new();
    let mut col: usize = 0;
    while col < w
        invariant
            col <= w,
            peaks.len() > 0,
            at == playhead(time as nat, total as nat, w as nat),
            cells@ == Seq::new(
                col as nat,
                |c: int| wave_cell(peaks@, time as nat, total as nat, w as nat, c),
            ),
        decreases w - col,
    {
        let n: u64 = peaks.len() as u64;
        let m: u128 = wide_mul(col as u64, n);
        let pi: u128 = m / w as u128;
        assert(pi < n) by (nonlinear_arith)
            requires
                m == col * n,
                col < w,
                n > 0,
                pi == m / w as u128,
        ;
        let ch: char = WAVE[step_index(peaks[pi as usize], 9)];
        let color: Color = if col as u128 == at {
            Color::Cyan
        } else if (col as u128) < at {
            Color::DarkGray
        } else {
            Color::White
        };
        cells.push((ch, Style::of(color)));
        col += 1;
    }
    group_runs(&cells)
}

/// How many of the phrases, from the first on, have started at a column.
pub open spec fn started(phrases: Seq<Phrase>, total: nat, w: nat, col: nat) -> nat
    decreases phrases.len(),
{
    if phrases.len() == 0 || phrases[0].start_ms * w > col * total {
        0
    } else {
        1 + started(phrases.drop_first(), total, w, col)
    }
}

/// The energy at a column: that of the last phrase that has started, or of the
/// first one.
pub open spec fn energy_at(phrases: Seq<Phrase>, total: nat, w: nat, col: nat) -> int {
    phrases[minus(started(phrases, total, w, col) as int, 1) as int].energy as int
}

fn spark_char(phrases: &Vec<Phrase>, total: u64, w: usize, col: usize) -> (c: char)
    requires
        phrases@.len() > 0,
    ensures
        c == SPARK@[step_of(energy_at(phrases@, total as nat, w as nat, col as nat), 8)],
{
    let limit: u128 = wide_mul(col as u64, total);
    let mut i: usize = 0;
    assert(phrases@.skip(0) == phrases@);
    while i < phrases.len() && wide_mul(phrases[i].start_ms, w as u64) <= limit
        invariant
            i <= phrases.len(),
            limit == col * total,
            started(phrases@, total as nat, w as nat, col as nat) == i + started(
                phrases@.skip(i as int),
                total as nat,
                w as nat,
                col as nat,
            ),
        decreases phrases.len() - i,
    {
        assert(phrases@.skip(i as int).drop_first() == phrases@.skip(i + 1));
        i += 1;
    }
    let pi: usize = if i == 0 {
        0
    } else {
        i - 1
    };
    SPARK[step_index(phrases[pi].energy, 8)]
}

/// A column of the coloured sparkline: green on the playhead, yellow where the
/// next mix starts.
pub open spec fn spark_cell(
    phrases: Seq<Phrase>,
    time: nat,
    total: nat,
    w: nat,
    mix: Option<u64>,
    col: int,
) -> Cell {
    let at = playhead(time, total, w);
    (
        SPARK@[step_of(energy_at(phrases, total, w, col as nat), 8)],
        Style::of(
            if col == at {
                Color::Green
            } else if mix is Some && total > 0 && col == column_of(mix->0 as nat, total, w) {
                Color::Yellow
            } else if col < at {
                Color::DarkGray
            } else {
                Color::White
            },
        ),
    )
}

/// How full the progress bar is.
pub open spec fn filled(time: nat, total: nat, w: nat) -> nat {
    column_of(min_of(time as int, total as int) as nat, total, w)
}

/// The column at which the next mix starts, as far as columns can be counted.
pub open spec fn mix_column(mix: u64, total: nat, w: nat) -> nat {
    min_of(column_of(mix as nat, total, w) as int, usize::MAX as int) as nat
}

/// The progress bar that stands in for a sparkline without phrases.
pub open spec fn progress_line(time: nat, total: nat, w: nat, mix: Option<u64>) -> Seq<SpanV> {
    let dark = Style::of(Color::DarkGray);
    let done = filled(time, total, w);
    let head = if done > 0 {
        seq![span(repeat('█', done), Style::of(Color::Green))]
    } else {
        Seq::empty()
    };
    let rest = if w > done {
        seq![span(repeat('░', (w - done) as nat), dark)]
    } else {
        Seq::empty()
    };
    match mix {
        Some(m) if mix_column(m, total, w) > done => {
            let mc = mix_column(m, total, w);
            let mark = head.push(span(repeat('░', (mc - done) as nat), dark)).push(
                span("░"@, Style::of(Color::Yellow)),
            );
            if w > mc + 1 {
                mark.push(span(repeat('░', (w - mc - 1) as nat), dark))
            } else {
                mark
            }
        },
        _ => head + rest,
    }
}

pub open spec fn spark_line(
    phrases: Seq<Phrase>,
    time: nat,
    total: nat,
    w: nat,
    mix: Option<u64>,
) -> Seq<SpanV> {
    if phrases.len() > 0 {
        runs(Seq::new(w, |col: int| spark_cell(phrases, time, total, w, mix, col)))
    } else if total == 0 {
        seq![span(repeat('░', w), Style::of(Color::DarkGray))]
    } else {
        progress_line(time, total, w, mix)
    }
}

proof fn lemma_filled_fits(time: nat, total: nat, w: nat)
    requires
        total > 0,
    ensures
        filled(time, total, w) <= w,
{
    let t = min_of(time as int, total as int) as nat;
    assert((t * w) / total <= w) by (nonlinear_arith)
        requires
            t <= total,
            total > 0,
    ;
}

fn progress_spans(time: u64, total: u64, w: usize, mix: Option<u64>) -> (spans: Vec<Span>)
    requires
        total > 0,
    ensures
        spans_view(spans@) == progress_line(time as nat, total as nat, w as nat, mix),
{
    let dark: Style = Style::of(Color::DarkGray);
    let t: u64 = if time < total {
        time
    } else {
        total
    };
    let full: u128 = column(t, total, w);
    proof {
        lemma_filled_fits(time as nat, total as nat, w as nat);
    }
    let done: usize = full as usize;
    let mut spans: Vec<Span> = Vec::new();
    if done > 0 {
        let bar: String = repeated('█', done);
        add_span(&mut spans, bar.as_str(), Style::of(Color::Green));
    }
    let ghost head = spans_view(spans@);
    assert(head == (if done > 0 {
        seq![span(repeat('█', done as nat), Style::of(Color::Green))]
    } else {
        Seq::empty()
    }));
    let mc: usize = match mix {
        Some(m) => {
            let c: u128 = column(m, total, w);
            if c > usize::MAX as u128 {
                usize::MAX
            } else {
                c as usize
            }
        },
        None => 0,
    };
    if mix.is_some() && mc > done {
        let before: String = repeated('░', mc - done);
        add_span(&mut spans, before.as_str(), dark);
        add_span(&mut spans, "░", Style::of(Color::Yellow));
        if w > mc && w - mc > 1 {
            let after: String = repeated('░', w - mc - 1);
            add_span(&mut spans, after.as_str(), dark);
        }
    } else if w > done {
        let rest: String = repeated('░', w - done);
        add_span(&mut spans, rest.as_str(), dark);
        assert(spans_view(spans@) == head + seq![span(repeat('░', (w - done) as nat), dark)]);
    } else {
        assert(spans_view(spans@) == head + Seq::<SpanV>::empty());
    }
    spans
}

/// The coloured sparkline of a deck, with the playhead and the mix point.
pub fn render_sparkline_spans(
    phrases: &Vec<Phrase>,
    time: u64,
    total: u64,
    w: usize,
    mix: Option<u64>,
) -> (spans: Vec<Span>)
    ensures
        spans_view(spans@) == spark_line(phrases@, time as nat, total as nat, w as nat, mix),
{
    if phrases.len() == 0 {
        if total == 0 {
            let mut spans: Vec<Span> = Vec::new();
            let bar: String = repeated('░', w);
            add_span(&mut spans, bar.as_str(), Style::of(Color::DarkGray));
            assert(spans_view(spans@) == seq![
                span(repeat('░', w as nat), Style::of(Color::DarkGray)),
            ]);
            return spans;
        }
        return progress_spans(time, total, w, mix);
    }
    let at: u128 = playhead_at(time, total, w);
    let marked: bool = mix.is_some() && total > 0;
    let mc: u128 = match mix {
        Some(m) if total > 0 => column(m, total, w),
        _ => 0,
    };
    let mut cells: Vec<Cell> = Vec::new();
    let mut col: usize = 0;
    while col < w
        invariant
            col <= w,
            phrases@.len() > 0,
            at == playhead(time as nat, total as nat, w as nat),
            marked == (mix is Some && total > 0),
            marked ==> mc == column_of(mix->0 as nat, total as nat, w as nat),
            cells@ == Seq::new(
                col as nat,
                |c: int| spark_cell(phrases@, time as nat, total as nat, w as nat, mix, c),
            ),
        decreases w - col,
    {
        let ch: char = spark_char(phrases, total, w, col);
        let color: Color = if col as u128 == at {
            Color::Green
        } else if marked && col as u128 == mc {
            Color::Yellow
        } else if (col as u128) < at {
            Color::DarkGray
        } else {
            Color::White
        };
        cells.push((ch, Style::of(color)));
        col += 1;
    }
    group_runs(&cells)
}

/// A column of the plain sparkline.
pub open spec fn plain_spark(phrases: Seq<Phrase>, time: nat, total: nat, w: nat, col: int) -> char {
    if total > 0 && col == column_of(time, total, w) {
        '▎'
    } else {
        SPARK@[step_of(energy_at(phrases, total, w, col as nat), 8)]
    }
}

pub open spec fn spark_text(
    phrases: Seq<Phrase>,
    time: nat,
    total: nat,
    w: nat,
    label: Seq<char>,
) -> Seq<char> {
    label + ": "@ + if phrases.len() == 0 {
        repeat('░', w)
    } else {
        Seq::new(w, |col: int| plain_spark(phrases, time, total, w, col))
    }
}

/// The sparkline of a deck as plain text, with its label.
pub fn render_sparkline(
    phrases: &Vec<Phrase>,
    time: u64,
    total: u64,
    w: usize,
    label: &str,
) -> (s: String)
    ensures
        s@ == spark_text(phrases@, time as nat, total as nat, w as nat, label@),
{
    let mut s: String = concat2(label, ": ");
    if phrases.len() == 0 {
        push_repeat(&mut s, '░', w);
        return s;
    }
    let ghost head = s@;
    let at: u128 = playhead_at(time, total, w);
    let mut col: usize = 0;
    assert(s@ == head + Seq::new(
        0,
        |c: int| plain_spark(phrases@, time as nat, total as nat, w as nat, c),
    ));
    while col < w
        invariant
            col <= w,
            phrases@.len() > 0,
            at == playhead(time as nat, total as nat, w as nat),
            s@ == head + Seq::new(
                col as nat,
                |c: int| plain_spark(phrases@, time as nat, total as nat, w as nat, c),
            ),
        decreases w - col,
    {
        let ch: char = if total > 0 && col as u128 == at {
            '▎'
        } else {
            spark_char(phrases, total, w, col)
        };
        s.push(ch);
        col += 1;
        assert(s@ == head + Seq::new(
            col as nat,
            |c: int| plain_spark(phrases@, time as nat, total as nat, w as nat, c),
        ));
    }
    s
}

/// The loudest of some peaks.
pub open spec fn loudest(peaks: Seq<i32>) -> int
    decreases peaks.len(),
{
    if peaks.len() == 0 {
        0
    } else {
        max_of(loudest(peaks.drop_last()), abs(peaks.last() as int) as int)
    }
}

/// How many peaks share a column.
pub open spec fn peaks_per_column(peaks: Seq<i32>, w: int) -> int {
    max_of(peaks.len() as int / w, 1)
}

/// A column of the plain waveform.
pub open spec fn plain_wave(peaks: Seq<i32>, time: nat, total: nat, w: nat, col: int) -> char {
    let step = peaks_per_column(peaks, w as int);
    let from = col * step;
    let to = min_of(from + step, peaks.len() as int);
    if total > 0 && col == column_of(time, total, w) {
        '▎'
    } else if from >= to {
        '_'
    } else {
        ASCII_WAVE@[step_of(loudest(peaks.subrange(from, to)), 8)]
    }
}

pub open spec fn wave_text(
    peaks: Seq<i32>,
    time: nat,
    total: nat,
    w: nat,
    label: Seq<char>,
) -> Seq<char> {
    label + ": "@ + if peaks.len() == 0 {
        repeat('_', w)
    } else {
        Seq::new(w, |col: int| plain_wave(peaks, time, total, w, col))
    }
}

fn loudest_of(peaks: &Vec<i32>, from: usize, to: usize) -> (r: i64)
    requires
        from <= to <= peaks.len(),
    ensures
        r == loudest(peaks@.subrange(from as int, to as int)),
        0 <= r <= 0x8000_0000,
{
    let mut r: i64 = 0;
    let mut i: usize = from;
    while i < to
        invariant
            from <= i <= to <= peaks.len(),
            r == loudest(peaks@.subrange(from as int, i as int)),
            0 <= r <= 0x8000_0000,
        decreases to - i,
    {
        let m: u64 = magnitude(peaks[i] as i64);
        let a: i64 = m as i64;
        assert(peaks@.subrange(from as int, i + 1).drop_last() == peaks@.subrange(
            from as int,
            i as int,
        ));
        if a > r {
            r = a;
        }
        i += 1;
    }
    r
}

/// The waveform of a deck as plain text, with its label and the playhead.
pub fn render_ascii_waveform(
    peaks: &Vec<i32>,
    time: u64,
    total: u64,
    w: usize,
    label: &str,
) -> (s: String)
    ensures
        s@ == wave_text(peaks@, time as nat, total as nat, w as nat, label@),
{
    let mut s: String = concat2(label, ": ");
    if peaks.len() == 0 {
        push_repeat(&mut s, '_', w);
        return s;
    }
    let ghost head = s@;
    let at: u128 = playhead_at(time, total, w);
    let share: usize = if w == 0 {
        1
    } else {
        peaks.len() / w
    };
    let step: usize = if share > 1 {
        share
    } else {
        1
    };
    let mut col: usize = 0;
    assert(s@ == head + Seq::new(
        0,
        |c: int| plain_wave(peaks@, time as nat, total as nat, w as nat, c),
    ));
    while col < w
        invariant
            col <= w,
            peaks.len() > 0,
            step >= 1,
            w > 0 ==> step == peaks_per_column(peaks@, w as int),
            at == playhead(time as nat, total as nat, w as nat),
            s@ == head + Seq::new(
                col as nat,
                |c: int| plain_wave(peaks@, time as nat, total as nat, w as nat, c),
            ),
        decreases w - col,
    {
        let n: u128 = peaks.len() as u128;
        let from: u128 = wide_mul(col as u64, step as u64);
        let ch: char = if total > 0 && col as u128 == at {
            '▎'
        } else if from >= n {
            '_'
        } else {
            let end: u128 = from + step as u128;
            let to: usize = if end < n {
                end as usize
            } else {
                peaks.len()
            };
            let m: i64 = loudest_of(peaks, from as usize, to);
            let p: i32 = if m > 1000 {
                1000
            } else {
                m as i32
            };
            ASCII_WAVE[step_index(p, 8)]
        };
        s.push(ch);
        col += 1;
        assert(s@ == head + Seq::new(
            col as nat,
            |c: int| plain_wave(peaks@, time as nat, total as nat, w as nat, c),
        ));
    }
    s
}

/// Where the crossfader stands on a meter of `w` columns.
pub open spec fn crossfader_column(visual: int, w: nat) -> int {
    max_of(0, min_of(w * visual / 1_000_000, minus(w as int, 1) as int))
}

/// A meter of `w` columns with a handle on one of them.
pub open spec fn crossfader_bar(visual: int, w: nat) -> Seq<char> {
    Seq::new(
        w,
        |j: int|
            if j == crossfader_column(visual, w) {
                '║'
            } else {
                '─'
            },
    )
}

/// The crossfader meter.
pub fn crossfader_meter(visual: i64, w: usize) -> (s: String)
    ensures
        s@ == crossfader_bar(visual as int, w as nat),
{
    let pos: u128 = if visual <= 0 || w == 0 {
        assert(w * visual <= 0) by (nonlinear_arith)
            requires
                visual <= 0 || w == 0,
                w >= 0,
        ;
        0
    } else {
        let m: u128 = wide_mul(w as u64, visual as u64);
        let n: u128 = m / 1_000_000;
        if n > (w - 1) as u128 {
            (w - 1) as u128
        } else {
            n
        }
    };
    assert(w > 0 ==> pos == crossfader_column(visual as int, w as nat));
    let mut s: String = String::new();
    let mut j: usize = 0;
    while j < w
        invariant
            j <= w,
            w > 0 ==> pos == crossfader_column(visual as int, w as nat),
            s@ == crossfader_bar(visual as int, w as nat).take(j as int),
        decreases w - j,
    {
        s.push(
            if j as u128 == pos {
                '║'
            } else {
                '─'
            },
        );
        j += 1;
        assert(s@ == crossfader_bar(visual as int, w as nat).take(j as int));
    }
    assert(s@ == crossfader_bar(visual as int, w as nat));
    s
}

/// Where the phase needle stands on a meter of `w` columns; 30 ms is the edge.
pub open spec fn needle_column(us: int, w: nat) -> int {
    let c = w as int / 2;
    let d = max_of(min_of(us, 30_000), -30_000);
    min_of((c * 30_000 + d * c) / 30_000, minus(w as int, 1) as int)
}

/// The phase meter: its middle is marked, and the needle shows over 3 ms.
pub open spec fn phase_bar(us: int, w: nat) -> Seq<char> {
    Seq::new(
        w,
        |j: int|
            if j == w as int / 2 {
                '│'
            } else if j == needle_column(us, w) && abs(us) > 3000 {
                '▼'
            } else {
                '─'
            },
    )
}

/// The phase meter.
pub fn phase_meter(us: i64, w: usize) -> (s: String)
    ensures
        s@ == phase_bar(us as int, w as nat),
{
    let c: usize = w / 2;
    let d: i64 = if us > 30_000 {
        30_000
    } else if us < -30_000 {
        -30_000
    } else {
        us
    };
    let k: u64 = (30_000 + d) as u64;
    let m: u128 = wide_mul(k, c as u64);
    assert(m == c * 30_000 + d * c) by (nonlinear_arith)
        requires
            m == k * c,
            k == 30_000 + d,
    ;
    let n: u128 = m / 30_000;
    let last: u128 = if w == 0 {
        0
    } else {
        (w - 1) as u128
    };
    let needle: u128 = if n > last {
        last
    } else {
        n
    };
    let shown: bool = magnitude(us) > 3000;
    let mut s: String = String::new();
    let mut j: usize = 0;
    while j < w
        invariant
            j <= w,
            c == w / 2,
            needle == needle_column(us as int, w as nat),
            shown == (abs(us as int) > 3000),
            s@ == phase_bar(us as int, w as nat).take(j as int),
        decreases w - j,
    {
        s.push(
            if j == c {
                '│'
            } else if j as u128 == needle && shown {
                '▼'
            } else {
                '─'
            },
        );
        j += 1;
        assert(s@ == phase_bar(us as int, w as nat).take(j as int));
    }
    assert(s@ == phase_bar(us as int, w as nat));
    s
}

/// The handle and the needle stand on their meters.
pub proof fn handles_stand_on_their_meters(visual: int, us: int, w: nat)
    requires
        w > 0,
    ensures
        0 <= crossfader_column(visual, w) < w,
        0 <= needle_column(us, w) < w,
{
    let c = w as int / 2;
    let d = max_of(min_of(us, 30_000), -30_000);
    assert(c * 30_000 + d * c >= 0) by (nonlinear_arith)
        requires
            c >= 0,
            d >= -30_000,
    ;
}

/// A hot cue: filled when it is set.
pub open spec fn cue_dot(set: bool) -> Seq<char> {
    if set {
        "● "@
    } else {
        "○ "@
    }
}

/// The four hot cues of a deck.
pub open spec fn cue_dots(cues: [bool; 4]) -> Seq<char> {
    cue_dot(cues@[0]) + "1"@ + "  "@ + cue_dot(cues@[1]) + "2"@ + "  "@ + cue_dot(cues@[2])
        + "3"@ + "  "@ + cue_dot(cues@[3]) + "4"@
}

fn cue_dot_str(set: bool) -> (s: &'static str)
    ensures
        s@ == cue_dot(set),
{
    if set {
        "● "
    } else {
        "○ "
    }
}

pub fn cue_dots_str(cues: &[bool; 4]) -> (s: String)
    ensures
        s@ == cue_dots(*cues),
{
    let a: String = concat3(cue_dot_str(cues[0]), "1", "  ");
    let b: String = concat3(cue_dot_str(cues[1]), "2", "  ");
    let c: String = concat3(cue_dot_str(cues[2]), "3", "  ");
    let d: String = concat2(cue_dot_str(cues[3]), "4");
    let ab: String = concat2(a.as_str(), b.as_str());
    let s: String = concat3(ab.as_str(), c.as_str(), d.as_str());
    assert(s@ == cue_dots(*cues));
    s
}

} // verus!
