//! Frames for a host that draws the cell grid itself: colours resolved to
//! RGBA, attributes to bits, and each frame reduced to the runs of cells that
//! changed since the one before.
use crate::style::{Color, Modifier};
use crate::text::first_char;
use vstd::prelude::*;

verus! {

/// An RGBA colour, one byte per channel.
#[derive(Debug, Clone, Copy, PartialEq, Eq, Structural)]
pub struct Rgba {
    pub r: u8,
    pub g: u8,
    pub b: u8,
    pub a: u8,
}

/// The opaque colour with the given channels.
pub open spec fn opaque(r: u8, g: u8, b: u8) -> Rgba {
    Rgba { r, g, b, a: 0xff }
}

/// The opaque colour with the given channels.
pub fn rgb(r: u8, g: u8, b: u8) -> (c: Rgba)
    ensures
        c == opaque(r, g, b),
{
    Rgba { r, g, b, a: 0xff }
}

/// Theme colours handed over by the host. Role colours are mapped onto these
/// so the panel blends into its container.
#[derive(Debug, Clone, Copy, PartialEq, Eq, Structural)]
pub struct HostPalette {
    pub bg: Rgba,
    pub fg: Rgba,
    pub accent: Rgba,
}

/// The sixteen base colours, in ANSI order.
pub open spec fn base_color(i: int) -> Rgba {
    if i == 0 {
        opaque(0x10, 0x11, 0x1c)
    } else if i == 1 {
        opaque(0xe0, 0x60, 0x60)
    } else if i == 2 {
        opaque(0x84, 0xc8, 0x6f)
    } else if i == 3 {
        opaque(0xee, 0xbb, 0x57)
    } else if i == 4 {
        opaque(0x6e, 0xa2, 0xe7)
    } else if i == 5 {
        opaque(0xc9, 0x7a, 0xea)
    } else if i == 6 {
        opaque(0x5f, 0xb3, 0xa1)
    } else if i == 7 {
        opaque(0xab, 0xb2, 0xbf)
    } else if i == 8 {
        opaque(0x42, 0x46, 0x4e)
    } else if i == 9 {
        opaque(0xff, 0x82, 0x82)
    } else if i == 10 {
        opaque(0xa6, 0xe2, 0x8c)
    } else if i == 11 {
        opaque(0xff, 0xd7, 0x71)
    } else if i == 12 {
        opaque(0x82, 0xb3, 0xff)
    } else if i == 13 {
        opaque(0xdc, 0xa5, 0xff)
    } else if i == 14 {
        opaque(0x84, 0xd6, 0xc5)
    } else {
        opaque(0xff, 0xff, 0xff)
    }
}

/// The 256-colour palette: sixteen base colours, a 6×6×6 cube in steps of 51,
/// then 24 greys from 8 in steps of 10.
pub open spec fn ansi256(i: u8) -> Rgba {
    if i < 16 {
        base_color(i as int)
    } else if i < 232 {
        opaque(
            (((i - 16) / 36) * 51) as u8,
            ((((i - 16) / 6) % 6) * 51) as u8,
            (((i - 16) % 6) * 51) as u8,
        )
    } else {
        opaque((8 + (i - 232) * 10) as u8, (8 + (i - 232) * 10) as u8, (8 + (i - 232) * 10) as u8)
    }
}

/// The position of a named colour among the sixteen base colours.
pub open spec fn base_index(c: Color) -> Option<int> {
    match c {
        Color::Black => Some(0),
        Color::Red => Some(1),
        Color::Green => Some(2),
        Color::Yellow => Some(3),
        Color::Blue => Some(4),
        Color::Magenta => Some(5),
        Color::Cyan => Some(6),
        Color::Gray => Some(7),
        Color::DarkGray => Some(8),
        Color::LightRed => Some(9),
        Color::LightGreen => Some(10),
        Color::LightYellow => Some(11),
        Color::LightBlue => Some(12),
        Color::LightMagenta => Some(13),
        Color::LightCyan => Some(14),
        Color::White => Some(15),
        _ => None,
    }
}

/// The colour shown without a host palette.
pub open spec fn own_color(c: Color, is_bg: bool) -> Rgba {
    match c {
        Color::Rgb(r, g, b) => opaque(r, g, b),
        Color::Indexed(i) => ansi256(i),
        Color::Reset => if is_bg {
            base_color(0)
        } else {
            base_color(7)
        },
        _ => base_color(base_index(c)->0),
    }
}

/// The colour shown: role colours follow the host palette when there is one,
/// every other colour keeps its own.
pub open spec fn shown_color(c: Color, is_bg: bool, palette: Option<HostPalette>) -> Rgba {
    match (palette, c) {
        (Some(p), Color::Reset) => if is_bg {
            p.bg
        } else {
            p.fg
        },
        (Some(p), Color::Black) => p.bg,
        (Some(p), Color::White) => p.fg,
        (Some(p), Color::Gray) => p.fg,
        (Some(p), Color::Green) => p.accent,
        _ => own_color(c, is_bg),
    }
}

pub fn ansi256_to_rgba(i: u8) -> (c: Rgba)
    ensures
        c == ansi256(i),
{
    if i < 16 {
        match i {
            0 => rgb(0x10, 0x11, 0x1c),
            1 => rgb(0xe0, 0x60, 0x60),
            2 => rgb(0x84, 0xc8, 0x6f),
            3 => rgb(0xee, 0xbb, 0x57),
            4 => rgb(0x6e, 0xa2, 0xe7),
            5 => rgb(0xc9, 0x7a, 0xea),
            6 => rgb(0x5f, 0xb3, 0xa1),
            7 => rgb(0xab, 0xb2, 0xbf),
            8 => rgb(0x42, 0x46, 0x4e),
            9 => rgb(0xff, 0x82, 0x82),
            10 => rgb(0xa6, 0xe2, 0x8c),
            11 => rgb(0xff, 0xd7, 0x71),
            12 => rgb(0x82, 0xb3, 0xff),
            13 => rgb(0xdc, 0xa5, 0xff),
            14 => rgb(0x84, 0xd6, 0xc5),
            _ => rgb(0xff, 0xff, 0xff),
        }
    } else if i < 232 {
        let n: u8 = i - 16;
        let r: u8 = (n / 36) * 51;
        let g: u8 = ((n / 6) % 6) * 51;
        let b: u8 = (n % 6) * 51;
        rgb(r, g, b)
    } else {
        let v: u8 = 8 + (i - 232) * 10;
        rgb(v, v, v)
    }
}

pub fn color_to_rgba(c: Color, is_bg: bool, palette: Option<HostPalette>) -> (out: Rgba)
    ensures
        out == shown_color(c, is_bg, palette),
{
    if let Some(p) = palette {
        match c {
            Color::Reset => {
                return if is_bg {
                    p.bg
                } else {
                    p.fg
                };
            },
            Color::Black => {
                return p.bg;
            },
            Color::White | Color::Gray => {
                return p.fg;
            },
            Color::Green => {
                return p.accent;
            },
            _ => {},
        }
    }
    match c {
        Color::Rgb(r, g, b) => rgb(r, g, b),
        Color::Reset => if is_bg {
            ansi256_to_rgba(0)
        } else {
            ansi256_to_rgba(7)
        },
        Color::Black => ansi256_to_rgba(0),
        Color::Red => ansi256_to_rgba(1),
        Color::Green => ansi256_to_rgba(2),
        Color::Yellow => ansi256_to_rgba(3),
        Color::Blue => ansi256_to_rgba(4),
        Color::Magenta => ansi256_to_rgba(5),
        Color::Cyan => ansi256_to_rgba(6),
        Color::Gray => ansi256_to_rgba(7),
        Color::DarkGray => ansi256_to_rgba(8),
        Color::LightRed => ansi256_to_rgba(9),
        Color::LightGreen => ansi256_to_rgba(10),
        Color::LightYellow => ansi256_to_rgba(11),
        Color::LightBlue => ansi256_to_rgba(12),
        Color::LightMagenta => ansi256_to_rgba(13),
        Color::LightCyan => ansi256_to_rgba(14),
        Color::White => ansi256_to_rgba(15),
        Color::Indexed(i) => ansi256_to_rgba(i),
    }
}

/// Attribute bits on the wire: bold 1, dim 2, italic 4, underline 8,
/// reversed 16, crossed out 32.
pub open spec fn attr_bits(m: Modifier) -> int {
    (if m.bold {
        1int
    } else {
        0
    }) + (if m.dim {
        2int
    } else {
        0
    }) + (if m.italic {
        4int
    } else {
        0
    }) + (if m.underlined {
        8int
    } else {
        0
    }) + (if m.reversed {
        16int
    } else {
        0
    }) + (if m.crossed_out {
        32int
    } else {
        0
    })
}

pub fn modifier_to_bits(m: Modifier) -> (bits: u32)
    ensures
        bits == attr_bits(m),
{
    let mut a: u32 = 0;
    if m.bold {
        a = a + 1;
    }
    if m.dim {
        a = a + 2;
    }
    if m.italic {
        a = a + 4;
    }
    if m.underlined {
        a = a + 8;
    }
    if m.reversed {
        a = a + 16;
    }
    if m.crossed_out {
        a = a + 32;
    }
    a
}

/// One cell of the grid as the host receives it.
#[derive(Debug, Clone, Copy, PartialEq, Eq, Structural)]
pub struct WireCell {
    pub ch: u32,
    pub fg: Rgba,
    pub bg: Rgba,
    pub attrs: u32,
}

/// A stretch of consecutive cells, from index `start` on.
pub struct DiffRun {
    pub start: u32,
    pub cells: Vec<WireCell>,
}

/// Two changes are one run when at most this many unchanged cells lie between
/// them.
pub const MERGE_GAP: usize = 4;

/// Above this percentage of cells in runs the whole grid is sent instead.
pub const FULL_REPLACE_THRESHOLD: usize = 70;

pub open spec fn changed(prev: Seq<WireCell>, cur: Seq<WireCell>, i: int) -> bool {
    prev[i] != cur[i]
}

/// `spans` are the half-open intervals of the changes below `upto`: every
/// change lies in one, each begins and ends on a change, between two of them
/// lie more than `MERGE_GAP` unchanged cells, and inside one never as many.
pub open spec fn covers_changes(
    prev: Seq<WireCell>,
    cur: Seq<WireCell>,
    spans: Seq<(int, int)>,
    upto: int,
) -> bool {
    &&& forall|k: int|
        0 <= k < spans.len() ==> {
            &&& 0 <= (#[trigger] spans[k]).0 < spans[k].1 <= upto
            &&& changed(prev, cur, spans[k].0)
            &&& changed(prev, cur, spans[k].1 - 1)
        }
    &&& forall|j: int, k: int|
        0 <= j < k < spans.len() ==> (#[trigger] spans[j]).1 + MERGE_GAP < (
        #[trigger] spans[k]).0
    &&& forall|i: int|
        0 <= i < upto && #[trigger] changed(prev, cur, i) ==> in_some_span(spans, i)
    &&& forall|k: int| 0 <= k < spans.len() ==> tight(prev, cur, #[trigger] spans[k])
}

pub open spec fn in_some_span(spans: Seq<(int, int)>, i: int) -> bool {
    exists|k: int| 0 <= k < spans.len() && (#[trigger] spans[k]).0 <= i < spans[k].1
}

/// No more than `MERGE_GAP` unchanged cells follow each other in the span.
pub open spec fn tight(prev: Seq<WireCell>, cur: Seq<WireCell>, span: (int, int)) -> bool {
    forall|a: int|
        span.0 <= a && a + MERGE_GAP < span.1 ==> #[trigger] change_near(prev, cur, a)
}

/// One of the `MERGE_GAP` + 1 cells from `a` on changed.
pub open spec fn change_near(prev: Seq<WireCell>, cur: Seq<WireCell>, a: int) -> bool {
    exists|i: int| a <= i <= a + MERGE_GAP && #[trigger] changed(prev, cur, i)
}

/// How many cells the spans hold together.
pub open spec fn span_total(spans: Seq<(int, int)>) -> int
    decreases spans.len(),
{
    if spans.len() == 0 {
        0
    } else {
        span_total(spans.drop_last()) + (spans.last().1 - spans.last().0)
    }
}

/// `runs` carry the cells of `cur` on exactly these spans.
pub open spec fn carries(runs: Seq<DiffRun>, cur: Seq<WireCell>, spans: Seq<(int, int)>) -> bool {
    &&& runs.len() == spans.len()
    &&& forall|k: int|
        0 <= k < runs.len() ==> {
            &&& (#[trigger] runs[k]).start == spans[k].0
            &&& runs[k].cells@ == cur.subrange(spans[k].0, spans[k].1)
        }
}

/// The runs of a frame are one run with the whole grid.
pub open spec fn whole_grid(runs: Seq<DiffRun>, cur: Seq<WireCell>) -> bool {
    runs.len() == 1 && runs[0].start == 0 && runs[0].cells@ == cur
}

/// More than `FULL_REPLACE_THRESHOLD` percent of `n` cells are to be sent.
pub open spec fn mostly_changed(total: int, n: int) -> bool {
    n > 0 && total * 100 / n > FULL_REPLACE_THRESHOLD
}

/// `runs` are the difference between two grids of one size.
pub open spec fn is_diff(runs: Seq<DiffRun>, prev: Seq<WireCell>, cur: Seq<WireCell>) -> bool {
    exists|spans: Seq<(int, int)>|
        {
            &&& #[trigger] covers_changes(prev, cur, spans, cur.len() as int)
            &&& if mostly_changed(span_total(spans), cur.len() as int) {
                whole_grid(runs, cur)
            } else {
                carries(runs, cur, spans)
            }
        }
}

fn copy_cells(cells: &Vec<WireCell>, from: usize, to: usize) -> (out: Vec<WireCell>)
    requires
        from <= to <= cells.len(),
    ensures
        out@ == cells@.subrange(from as int, to as int),
{
    let mut out: Vec<WireCell> = Vec::new();
    let mut i: usize = from;
    while i < to
        invariant
            from <= i <= to <= cells.len(),
            out@ == cells@.subrange(from as int, i as int),
        decreases to - i,
    {
        out.push(cells[i]);
        i += 1;
        assert(out@ == cells@.subrange(from as int, i as int));
    }
    out
}

/// The end of the run that begins with the change at `start`: one past the
/// last change that no more than `MERGE_GAP` unchanged cells separate from the
/// change before it.
fn run_end(prev: &Vec<WireCell>, cur: &Vec<WireCell>, start: usize) -> (end: usize)
    requires
        prev.len() == cur.len(),
        start < cur.len(),
        changed(prev@, cur@, start as int),
    ensures
        start < end <= cur.len(),
        changed(prev@, cur@, end - 1),
        tight(prev@, cur@, (start as int, end as int)),
        forall|m: int|
            end <= m <= end + MERGE_GAP && m < cur.len() ==> !#[trigger] changed(prev@, cur@, m),
{
    let n: usize = cur.len();
    let mut last_change: usize = start + 1;
    let mut j: usize = start + 1;
    while j < n
        invariant_except_break
            last_change <= j,
            j - last_change <= MERGE_GAP,
        invariant
            n == cur.len(),
            prev.len() == cur.len(),
            start < last_change <= n,
            j <= n,
            changed(prev@, cur@, last_change - 1),
            tight(prev@, cur@, (start as int, last_change as int)),
            forall|m: int| last_change <= m < j ==> !#[trigger] changed(prev@, cur@, m),
        ensures
            forall|m: int|
                last_change <= m <= last_change + MERGE_GAP && m < n
                    ==> !#[trigger] changed(prev@, cur@, m),
        decreases n - j,
    {
        if prev[j] == cur[j] {
            assert(!changed(prev@, cur@, j as int));
            if j - last_change >= MERGE_GAP {
                break;
            }
        } else {
            assert(changed(prev@, cur@, j as int));
            let ghost old_end = last_change as int;
            last_change = j + 1;
            assert forall|a: int|
                start <= a && a + MERGE_GAP < last_change implies #[trigger] change_near(
                prev@,
                cur@,
                a,
            ) by {
                if a < old_end {
                    assert(changed(prev@, cur@, old_end - 1));
                } else {
                    assert(changed(prev@, cur@, j as int));
                }
            }
        }
        j += 1;
    }
    last_change
}

/// The runs of cells that turn `prev` into `cur`.
pub fn compute_runs(prev: &Vec<WireCell>, cur: &Vec<WireCell>) -> (runs: Vec<DiffRun>)
    requires
        prev.len() == cur.len(),
        cur.len() <= u32::MAX,
    ensures
        is_diff(runs@, prev@, cur@),
{
    let n: usize = cur.len();
    let mut runs: Vec<DiffRun> = Vec::new();
    let mut changed_total: usize = 0;
    let mut i: usize = 0;
    let ghost mut spans: Seq<(int, int)> = Seq::empty();
    while i < n
        invariant
            n == cur.len(),
            n <= u32::MAX,
            prev.len() == cur.len(),
            i <= n,
            covers_changes(prev@, cur@, spans, i as int),
            carries(runs@, cur@, spans),
            changed_total == span_total(spans),
            changed_total <= i,
            spans.len() > 0 ==> forall|m: int|
                spans.last().1 <= m <= spans.last().1 + MERGE_GAP && m < n ==> !#[trigger] changed(
                    prev@,
                    cur@,
                    m,
                ),
        decreases n - i,
    {
        if prev[i] == cur[i] {
            i += 1;
            continue;
        }
        let start: usize = i;
        assert(changed(prev@, cur@, start as int));
        let end: usize = run_end(prev, cur, start);
        let run_cells: Vec<WireCell> = copy_cells(cur, start, end);
        changed_total += run_cells.len();
        let ghost old_spans = spans;
        proof {
            spans = spans.push((start as int, end as int));
            assert(spans.drop_last() == old_spans);
            assert forall|m: int| 0 <= m < end && #[trigger] changed(prev@, cur@, m) implies
                in_some_span(spans, m) by {
                if m < start {
                    let k = choose|k: int|
                        0 <= k < old_spans.len() && (#[trigger] old_spans[k]).0 <= m
                            < old_spans[k].1;
                    assert(spans[k] == old_spans[k]);
                } else {
                    assert(spans[spans.len() - 1].0 <= m < spans[spans.len() - 1].1);
                }
            }
            if old_spans.len() > 0 {
                assert(old_spans[old_spans.len() - 1] == old_spans.last());
            }
            assert forall|j: int, k: int| 0 <= j < k < spans.len() implies (
            #[trigger] spans[j]).1 + MERGE_GAP < (#[trigger] spans[k]).0 by {
                assert(spans[j] == old_spans[j]);
                if k < old_spans.len() {
                    assert(spans[k] == old_spans[k]);
                } else if j < old_spans.len() - 1 {
                    assert(old_spans[j].1 + MERGE_GAP < old_spans[old_spans.len() - 1].0);
                }
            }
        }
        runs.push(DiffRun { start: start as u32, cells: run_cells });
        i = end;
    }
    if n > 0 && (changed_total as u128 * 100 / n as u128) > FULL_REPLACE_THRESHOLD as u128 {
        let mut all: Vec<DiffRun> = Vec::new();
        all.push(DiffRun { start: 0, cells: copy_cells(cur, 0, n) });
        assert(all[0].cells@ == cur@);
        return all;
    }
    runs
}

/// A grid with the cells of one run written over it.
pub open spec fn overlay(grid: Seq<WireCell>, start: int, cells: Seq<WireCell>) -> Seq<WireCell> {
    Seq::new(
        grid.len(),
        |i: int|
            if start <= i < start + cells.len() {
                cells[i - start]
            } else {
                grid[i]
            },
    )
}

/// The grid a host shows after it applied the runs in order.
pub open spec fn patch(grid: Seq<WireCell>, runs: Seq<DiffRun>) -> Seq<WireCell>
    decreases runs.len(),
{
    if runs.len() == 0 {
        grid
    } else {
        overlay(patch(grid, runs.drop_last()), runs.last().start as int, runs.last().cells@)
    }
}

proof fn lemma_patch_spans(
    prev: Seq<WireCell>,
    cur: Seq<WireCell>,
    runs: Seq<DiffRun>,
    spans: Seq<(int, int)>,
)
    requires
        prev.len() == cur.len(),
        carries(runs, cur, spans),
        forall|k: int|
            0 <= k < spans.len() ==> 0 <= (#[trigger] spans[k]).0 < spans[k].1 <= cur.len(),
    ensures
        patch(prev, runs).len() == cur.len(),
        forall|i: int|
            0 <= i < cur.len() ==> #[trigger] patch(prev, runs)[i] == (if in_some_span(spans, i) {
                cur[i]
            } else {
                prev[i]
            }),
    decreases runs.len(),
{
    if runs.len() > 0 {
        let r0 = runs.drop_last();
        let s0 = spans.drop_last();
        assert(carries(r0, cur, s0)) by {
            assert forall|k: int| 0 <= k < r0.len() implies {
                &&& (#[trigger] r0[k]).start == s0[k].0
                &&& r0[k].cells@ == cur.subrange(s0[k].0, s0[k].1)
            } by {
                assert(r0[k] == runs[k]);
            }
        }
        assert forall|k: int| 0 <= k < s0.len() implies 0 <= (#[trigger] s0[k]).0 < s0[k].1
            <= cur.len() by {
            assert(s0[k] == spans[k]);
        }
        lemma_patch_spans(prev, cur, r0, s0);
        let last = spans.len() - 1;
        assert(runs[last] == runs.last() && spans[last] == spans.last());
        assert forall|i: int| 0 <= i < cur.len() implies #[trigger] patch(prev, runs)[i] == (
        if in_some_span(spans, i) {
            cur[i]
        } else {
            prev[i]
        }) by {
            let before = patch(prev, r0)[i];
            if spans[last].0 <= i < spans[last].1 {
                assert(in_some_span(spans, i));
            } else if in_some_span(s0, i) {
                let k = choose|k: int|
                    0 <= k < s0.len() && (#[trigger] s0[k]).0 <= i < s0[k].1;
                assert(spans[k] == s0[k]);
                assert(in_some_span(spans, i));
            } else if in_some_span(spans, i) {
                let k = choose|k: int|
                    0 <= k < spans.len() && (#[trigger] spans[k]).0 <= i < spans[k].1;
                assert(s0[k] == spans[k]);
            }
        }
    }
}

/// The difference of two grids of one size, applied to the first, gives the
/// second: a host that saw every frame shows exactly the current grid.
pub proof fn diff_rebuilds_grid(runs: Seq<DiffRun>, prev: Seq<WireCell>, cur: Seq<WireCell>)
    requires
        prev.len() == cur.len(),
        is_diff(runs, prev, cur),
    ensures
        patch(prev, runs) == cur,
{
    let spans = choose|spans: Seq<(int, int)>|
        {
            &&& #[trigger] covers_changes(prev, cur, spans, cur.len() as int)
            &&& if mostly_changed(span_total(spans), cur.len() as int) {
                whole_grid(runs, cur)
            } else {
                carries(runs, cur, spans)
            }
        };
    if mostly_changed(span_total(spans), cur.len() as int) {
        whole_grid_rebuilds_any(runs, prev, cur);
    } else {
        lemma_patch_spans(prev, cur, runs, spans);
        assert forall|i: int| 0 <= i < cur.len() implies patch(prev, runs)[i] == cur[i] by {
            assert(changed(prev, cur, i) || prev[i] == cur[i]);
        }
        assert(patch(prev, runs) == cur);
    }
}

/// A run with the whole grid replaces whatever grid of that size was shown.
pub proof fn whole_grid_rebuilds_any(runs: Seq<DiffRun>, shown: Seq<WireCell>, cur: Seq<WireCell>)
    requires
        shown.len() == cur.len(),
        whole_grid(runs, cur),
    ensures
        patch(shown, runs) == cur,
{
    reveal_with_fuel(patch, 2);
    assert(runs.drop_last().len() == 0);
    assert(runs.last() == runs[0]);
    assert(patch(shown, runs) == cur);
}

/// Equal grids differ in no run.
pub proof fn no_change_no_runs(runs: Seq<DiffRun>, grid: Seq<WireCell>)
    requires
        is_diff(runs, grid, grid),
    ensures
        runs.len() == 0,
{
    let spans = choose|spans: Seq<(int, int)>|
        {
            &&& #[trigger] covers_changes(grid, grid, spans, grid.len() as int)
            &&& if mostly_changed(span_total(spans), grid.len() as int) {
                whole_grid(runs, grid)
            } else {
                carries(runs, grid, spans)
            }
        };
    if spans.len() > 0 {
        assert(changed(grid, grid, spans[0].0));
    }
}

/// The cell for one grid position: the first character of its symbol, or a
/// space, with its colours and attributes resolved.
pub fn wire_cell(
    symbol: &str,
    fg: Color,
    bg: Color,
    modifier: Modifier,
    palette: Option<HostPalette>,
) -> (cell: WireCell)
    ensures
        cell.ch == (if symbol@.len() > 0 {
            symbol@[0]
        } else {
            ' '
        }) as u32,
        cell.fg == shown_color(fg, false, palette),
        cell.bg == shown_color(bg, true, palette),
        cell.attrs == attr_bits(modifier),
{
    let ch: char = match first_char(symbol) {
        Some(c) => c,
        None => ' ',
    };
    WireCell {
        ch: ch as u32,
        fg: color_to_rgba(fg, false, palette),
        bg: color_to_rgba(bg, true, palette),
        attrs: modifier_to_bits(modifier),
    }
}

/// The cursor to report: `None` when no widget moved it off the out-of-band
/// position it was parked at before the draw.
pub fn reported_cursor(pos: Option<(u16, u16)>) -> (r: Option<(u16, u16)>)
    ensures
        r == (if pos == Some((u16::MAX, u16::MAX)) {
            None
        } else {
            pos
        }),
{
    match pos {
        Some((x, y)) => if x == u16::MAX && y == u16::MAX {
            None
        } else {
            Some((x, y))
        },
        None => None,
    }
}

/// One frame on the wire.
pub struct Frame {
    pub seq: u64,
    pub cols: u16,
    pub rows: u16,
    pub cursor_col: u16,
    pub cursor_row: u16,
    pub cursor_shape: u8,
    pub cursor_visible: u8,
    pub runs: Vec<DiffRun>,
}

/// What the frame encoder remembers between frames: the size in force, the
/// next sequence number and the grid it sent last.
pub struct BlitState {
    pub cols: u16,
    pub rows: u16,
    pub frame_seq: u64,
    pub prev_cells: Vec<WireCell>,
    pub prev_dims: (u16, u16),
}

impl BlitState {
    /// The encoder for a grid of the given size; `None` for an empty grid.
    pub fn new(cols: u16, rows: u16) -> (r: Option<BlitState>)
        ensures
            r is None <==> cols == 0 || rows == 0,
            r matches Some(b) ==> b.cols == cols && b.rows == rows && b.frame_seq == 0
                && b.prev_cells@.len() == 0 && b.prev_dims == (0u16, 0u16),
    {
        if cols == 0 || rows == 0 {
            return None;
        }
        Some(BlitState { cols, rows, frame_seq: 0, prev_cells: Vec::new(), prev_dims: (0, 0) })
    }

    /// Takes over a size the host asked for. An empty size or the size in
    /// force is ignored; a new one drops the remembered grid, so that the next
    /// frame is sent whole.
    pub fn resize(&mut self, requested: Option<(u16, u16)>) -> (done: bool)
        ensures
            done == (requested matches Some((c, r)) && (c != old(self).cols || r != old(self).rows)
                && c > 0 && r > 0),
            done ==> Some((final(self).cols, final(self).rows)) == requested
                && final(self).prev_cells@.len() == 0 && final(self).frame_seq == old(
                self,
            ).frame_seq && final(self).prev_dims == old(self).prev_dims,
            !done ==> *final(self) == *old(self),
    {
        match requested {
            Some((c, r)) => {
                if (c != self.cols || r != self.rows) && c > 0 && r > 0 {
                    self.cols = c;
                    self.rows = r;
                    self.prev_cells = Vec::new();
                    true
                } else {
                    false
                }
            },
            None => false,
        }
    }

    /// The next frame: the whole grid when its size is not the one sent last,
    /// else the difference.
    pub fn next_frame(
        &mut self,
        cells: Vec<WireCell>,
        dims: (u16, u16),
        cursor: Option<(u16, u16)>,
    ) -> (frame: Frame)
        requires
            cells.len() == dims.0 * dims.1,
        ensures
            frame.seq == old(self).frame_seq,
            frame.cols == dims.0 && frame.rows == dims.1,
            match cursor {
                Some((x, y)) => frame.cursor_col == x && frame.cursor_row == y
                    && frame.cursor_visible == 1,
                None => frame.cursor_col == 0 && frame.cursor_row == 0 && frame.cursor_visible == 0,
            },
            frame.cursor_shape == 0,
            if old(self).prev_cells@.len() != cells@.len() || old(self).prev_dims != dims {
                whole_grid(frame.runs@, cells@)
            } else {
                is_diff(frame.runs@, old(self).prev_cells@, cells@)
            },
            final(self).prev_cells@ == cells@,
            final(self).prev_dims == dims,
            final(self).frame_seq == (if old(self).frame_seq == u64::MAX {
                0
            } else {
                old(self).frame_seq + 1
            }),
            final(self).cols == old(self).cols && final(self).rows == old(self).rows,
    {
        assert(cells.len() <= u32::MAX) by (nonlinear_arith)
            requires
                cells.len() == dims.0 * dims.1,
                dims.0 <= 0xffff,
                dims.1 <= 0xffff,
        ;
        let runs: Vec<DiffRun> = if self.prev_cells.len() != cells.len() || self.prev_dims.0
            != dims.0 || self.prev_dims.1 != dims.1 {
            let mut all: Vec<DiffRun> = Vec::new();
            all.push(DiffRun { start: 0, cells: copy_cells(&cells, 0, cells.len()) });
            assert(all[0].cells@ == cells@);
            all
        } else {
            compute_runs(&self.prev_cells, &cells)
        };
        self.prev_cells = cells;
        self.prev_dims = dims;
        let seq: u64 = self.frame_seq;
        self.frame_seq = if seq == u64::MAX {
            0
        } else {
            seq + 1
        };
        let (col, row, visible): (u16, u16, u8) = match cursor {
            Some((x, y)) => (x, y, 1),
            None => (0, 0, 0),
        };
        Frame {
            seq,
            cols: dims.0,
            rows: dims.1,
            cursor_col: col,
            cursor_row: row,
            cursor_shape: 0,
            cursor_visible: visible,
            runs,
        }
    }
}

} // verus!
