//! The plain screens: track lists, menus, the now-playing bar and the help.
use crate::style::{
    add_line, add_span, add_text_line, lines_view, span, spans_view, Color, Line, Span, SpanV,
    Style,
};
use crate::text::{
    char_count, clip_text, concat2, concat3, decimal, decimal_str, ellipsis, fit, fit_text,
    join_strs, joined, max_of, min_of, minus, pad_left, padded_left, repeat, repeated, str_or_empty,
    strs, text_or_empty, trim_back, trimmed_end, wide_decimal_str,
};
use crate::track::{bpm_whole, bpm_whole_str, Track};
use vstd::prelude::*;
use vstd::string::*;

verus! {

/// Cuts a text to `max_len` characters, with `…` where something was cut off.
pub fn trunc(s: &str, max_len: usize) -> (r: String)
    ensures
        r@ == ellipsis(s@, max_len as nat),
{
    clip_text(s, max_len)
}

/// Pads or cuts a text to exactly `width` characters.
pub fn pad(s: &str, width: usize) -> (r: String)
    ensures
        r@ == fit(s@, width as nat),
{
    fit_text(s, width)
}

/// A text of at most `width` characters, then the padding behind it in a style
/// of its own, so that an underline does not run on.
pub open spec fn column(text: Seq<char>, style: Style, pad_style: Style) -> Seq<SpanV> {
    let shown = trim_back(text);
    let gap = minus(text.len() as int, shown.len() as int);
    if gap > 0 {
        seq![span(shown, style), span(repeat(' ', gap), pad_style)]
    } else {
        seq![span(shown, style)]
    }
}

fn col_spans(spans: &mut Vec<Span>, text: &str, style: Style, pad_style: Style)
    ensures
        spans_view(final(spans)@) == spans_view(old(spans)@) + column(text@, style, pad_style),
{
    let shown: String = trimmed_end(text);
    let gap: usize = crate::text::sat_sub(char_count(text), char_count(shown.as_str()));
    add_span(spans, shown.as_str(), style);
    if gap > 0 {
        add_span(spans, repeated(' ', gap).as_str(), pad_style);
    }
    assert(spans_view(spans@) == spans_view(old(spans)@) + column(text@, style, pad_style));
}

/// A cell of a row: underlined text where its column is the selected one.
pub open spec fn cell(text: Seq<char>, selected: bool, style: Style, underlined: Style) -> Seq<
    SpanV,
> {
    if selected {
        column(text, underlined, style)
    } else {
        seq![span(text, style)]
    }
}

fn add_cell(spans: &mut Vec<Span>, text: &str, selected: bool, style: Style, underlined: Style)
    ensures
        spans_view(final(spans)@) == spans_view(old(spans)@) + cell(
            text@,
            selected,
            style,
            underlined,
        ),
{
    if selected {
        col_spans(spans, text, underlined, style);
    } else {
        add_span(spans, text, style);
        assert(spans_view(spans@) == spans_view(old(spans)@) + cell(
            text@,
            selected,
            style,
            underlined,
        ));
    }
}

/// Tempo and key of a track, as far as they are known.
pub open spec fn bpm_key(t: Track) -> Seq<char> {
    match (t.bpm, t.key) {
        (Some(b), Some(k)) => bpm_whole(b) + " / "@ + k@,
        (Some(b), None) => bpm_whole(b),
        (None, Some(k)) => k@,
        (None, None) => Seq::empty(),
    }
}

pub fn format_bpm_key(track: &Track) -> (s: String)
    ensures
        s@ == bpm_key(*track),
{
    match (track.bpm, &track.key) {
        (Some(b), Some(k)) => concat3(bpm_whole_str(b).as_str(), " / ", k.as_str()),
        (Some(b), None) => bpm_whole_str(b),
        (None, Some(k)) => k.clone(),
        (None, None) => String::new(),
    }
}

/// The column widths of the compact list.
pub struct CompactCols {
    pub title: usize,
    pub artist: usize,
    pub label: usize,
    pub genre: usize,
    pub date: usize,
}

pub open spec fn share(usable: int, percent: int, least: int) -> int {
    max_of(usable * percent / 100, least)
}

/// A share of the width for each column, never less than it needs; the date
/// takes what is left.
pub open spec fn compact_widths(width: int) -> CompactCols {
    let u = minus(width, 5) as int;
    let used = share(u, 24, 10) + share(u, 16, 8) + 6 + 10 + share(u, 12, 6) + share(u, 12, 6);
    CompactCols {
        title: share(u, 24, 10) as usize,
        artist: share(u, 16, 8) as usize,
        label: share(u, 12, 6) as usize,
        genre: share(u, 12, 6) as usize,
        date: max_of(minus(u, used) as int, 10) as usize,
    }
}

fn share_of(usable: usize, percent: usize, least: usize) -> (r: usize)
    requires
        usable <= 0xffff,
        percent <= 100,
        least <= 100,
    ensures
        r == share(usable as int, percent as int, least as int),
        r <= 0xffff,
        r >= least,
{
    assert(usable * percent <= 0xffff * 100) by (nonlinear_arith)
        requires
            usable <= 0xffff,
            percent <= 100,
    ;
    let n: usize = usable * percent / 100;
    if n > least {
        n
    } else {
        least
    }
}

fn compact_cols(width: u16) -> (c: CompactCols)
    ensures
        c == compact_widths(width as int),
        c.title >= 10 && c.artist >= 8 && c.label >= 6 && c.genre >= 6 && c.date >= 10,
{
    let u: usize = crate::text::sat_sub(width as usize, 5);
    let title: usize = share_of(u, 24, 10);
    let artist: usize = share_of(u, 16, 8);
    let label: usize = share_of(u, 12, 6);
    let genre: usize = share_of(u, 12, 6);
    let left: usize = crate::text::sat_sub(u, title + artist + 16 + label + genre);
    let date: usize = if left > 10 {
        left
    } else {
        10
    };
    CompactCols { title, artist, label, genre, date }
}

/// The style of a row: reversed as a whole, white with a column selected, or
/// plain.
pub open spec fn row_style(selected: bool, has_column: bool) -> Style {
    if selected && !has_column {
        Style::plain().reversed()
    } else if selected {
        Style::of(Color::White)
    } else {
        Style::of(Color::Gray)
    }
}

fn style_of_row(selected: bool, has_column: bool) -> (s: Style)
    ensures
        s == row_style(selected, has_column),
{
    if selected && !has_column {
        Style::plain().reversed()
    } else if selected {
        Style::of(Color::White)
    } else {
        Style::of(Color::Gray)
    }
}

/// The selected column of a row; -2 for none, -1 for the title.
pub open spec fn column_of(selected: bool, selected_column: i32) -> i32 {
    if selected {
        selected_column
    } else {
        (-2) as i32
    }
}

/// The row of a track in the compact list.
pub open spec fn compact_row(
    t: Track,
    i: int,
    selected: bool,
    selected_column: i32,
    c: CompactCols,
) -> Seq<SpanV> {
    let col = column_of(selected, selected_column);
    let style = row_style(selected, col >= -1);
    let ul = Style::of(Color::White).underlined();
    let head = (if selected {
        "▸"@
    } else {
        " "@
    }) + " "@ + pad_left(decimal((i + 1) as nat), 2) + "."@ + " "@;
    seq![span(head, style)] + cell(
        fit(ellipsis(t.title@, (c.title - 1) as nat), c.title as nat),
        col == -1,
        style,
        ul,
    ) + cell(
        fit(ellipsis(t.artist@, (c.artist - 1) as nat), c.artist as nat),
        col == 0,
        style,
        ul,
    ) + cell(fit(t.duration@, 6), false, style, ul) + cell(
        fit(ellipsis(bpm_key(t), 9), 10),
        false,
        style,
        ul,
    ) + cell(
        fit(ellipsis(text_or_empty(t.label_name), (c.label - 1) as nat), c.label as nat),
        col == 2,
        style,
        ul,
    ) + cell(
        fit(ellipsis(text_or_empty(t.genre_name), (c.genre - 1) as nat), c.genre as nat),
        col == 3,
        style,
        ul,
    ) + cell(fit(text_or_empty(t.release_date), c.date as nat), col == 4, style, ul)
}

fn draw_compact_row(
    t: &Track,
    i: usize,
    selected: bool,
    selected_column: i32,
    c: &CompactCols,
) -> (spans: Vec<Span>)
    requires
        c.title > 0 && c.artist > 0 && c.label > 0 && c.genre > 0,
    ensures
        spans_view(spans@) == compact_row(*t, i as int, selected, selected_column, *c),
{
    let col: i32 = if selected {
        selected_column
    } else {
        -2
    };
    let style: Style = style_of_row(selected, col >= -1);
    let ul: Style = Style::of(Color::White).underlined();
    let mut head: String = if selected {
        "▸".to_owned()
    } else {
        " ".to_owned()
    };
    head.append(" ");
    head.append(padded_left(wide_decimal_str(i as u128 + 1).as_str(), 2).as_str());
    head.append(".");
    head.append(" ");
    let mut spans: Vec<Span> = Vec::new();
    add_span(&mut spans, head.as_str(), style);
    assert(spans_view(spans@) == seq![span(head@, style)]);
    let title: String = trunc(t.title.as_str(), c.title - 1);
    add_cell(&mut spans, pad(title.as_str(), c.title).as_str(), col == -1, style, ul);
    let artist: String = trunc(t.artist.as_str(), c.artist - 1);
    add_cell(&mut spans, pad(artist.as_str(), c.artist).as_str(), col == 0, style, ul);
    add_cell(&mut spans, pad(t.duration.as_str(), 6).as_str(), false, style, ul);
    let bk: String = trunc(format_bpm_key(t).as_str(), 9);
    add_cell(&mut spans, pad(bk.as_str(), 10).as_str(), false, style, ul);
    let label: String = trunc(str_or_empty(&t.label_name).as_str(), c.label - 1);
    add_cell(&mut spans, pad(label.as_str(), c.label).as_str(), col == 2, style, ul);
    let genre: String = trunc(str_or_empty(&t.genre_name).as_str(), c.genre - 1);
    add_cell(&mut spans, pad(genre.as_str(), c.genre).as_str(), col == 3, style, ul);
    let date: String = str_or_empty(&t.release_date);
    add_cell(&mut spans, pad(date.as_str(), c.date).as_str(), col == 4, style, ul);
    spans
}

pub open spec fn compact_header(c: CompactCols) -> Seq<char> {
    repeat(' ', 5) + fit("TITLE"@, c.title as nat) + fit("ARTIST"@, c.artist as nat) + fit(
        "DUR"@,
        6,
    ) + fit("BPM/KEY"@, 10) + fit("LABEL"@, c.label as nat) + fit("GENRE"@, c.genre as nat) + fit(
        "DATE"@,
        c.date as nat,
    )
}

/// How many of `n` items are shown from `offset` on in `room` lines.
pub open spec fn visible(n: int, offset: int, room: int) -> nat {
    min_of(room, minus(n, offset) as int) as nat
}

/// The compact list: a header, then one line per visible track.
pub open spec fn compact_lines(
    tracks: Seq<Track>,
    selected: int,
    offset: int,
    selected_column: i32,
    c: CompactCols,
    height: int,
) -> Seq<Seq<SpanV>> {
    seq![seq![span(compact_header(c), Style::of(Color::DarkGray))]] + Seq::new(
        visible(tracks.len() as int, offset, minus(height, 1) as int),
        |k: int|
            compact_row(
                tracks[offset + k],
                offset + k,
                offset + k == selected,
                selected_column,
                c,
            ),
    )
}

fn render_track_list_compact(
    tracks: &Vec<Track>,
    selected: usize,
    scroll_offset: usize,
    selected_column: i32,
    width: u16,
    height: u16,
) -> (lines: Vec<Line>)
    ensures
        lines_view(lines@) == compact_lines(
            tracks@,
            selected as int,
            scroll_offset as int,
            selected_column,
            compact_widths(width as int),
            height as int,
        ),
{
    let c: CompactCols = compact_cols(width);
    let mut header: String = repeated(' ', 5);
    header.append(pad("TITLE", c.title).as_str());
    header.append(pad("ARTIST", c.artist).as_str());
    header.append(pad("DUR", 6).as_str());
    header.append(pad("BPM/KEY", 10).as_str());
    header.append(pad("LABEL", c.label).as_str());
    header.append(pad("GENRE", c.genre).as_str());
    header.append(pad("DATE", c.date).as_str());
    let mut lines: Vec<Line> = Vec::new();
    add_text_line(&mut lines, header.as_str(), Style::of(Color::DarkGray));
    let room: usize = crate::text::sat_sub(height as usize, 1);
    let ghost all = compact_lines(
        tracks@,
        selected as int,
        scroll_offset as int,
        selected_column,
        c,
        height as int,
    );
    let ghost n = visible(tracks@.len() as int, scroll_offset as int, room as int);
    assert(all.len() == n + 1);
    assert(lines_view(lines@) == all.take(1));
    let mut k: usize = 0;
    while k < room && k < tracks.len() && scroll_offset < tracks.len() - k
        invariant
            k <= n,
            n == visible(tracks@.len() as int, scroll_offset as int, room as int),
            all.len() == n + 1,
            all == compact_lines(
                tracks@,
                selected as int,
                scroll_offset as int,
                selected_column,
                c,
                height as int,
            ),
            room == minus(height as int, 1),
            c.title >= 10 && c.artist >= 8 && c.label >= 6 && c.genre >= 6 && c.date >= 10,
            lines_view(lines@) == all.take(k + 1),
        decreases room - k,
    {
        let i: usize = scroll_offset + k;
        let spans: Vec<Span> = draw_compact_row(
            &tracks[i],
            i,
            i == selected,
            selected_column,
            &c,
        );
        assert(spans_view(spans@) == all[k + 1]);
        add_line(&mut lines, spans);
        k += 1;
        assert(all.take(k + 1) == all.take(k as int).push(all[k as int]));
    }
    assert(k == n);
    assert(all.take(k + 1) == all);
    lines
}

/// The column widths of the full list: title, label and genre.
pub open spec fn full_widths(width: int) -> (int, int, int) {
    let u = minus(width, 7) as int;
    (share(u, 40, 15), share(u, 20, 8), share(u, 22, 8))
}

/// The first line of a track in the full list: number, title with playing
/// time, label, genre and date.
pub open spec fn full_first(
    t: Track,
    i: int,
    selected: bool,
    selected_column: i32,
    w: (int, int, int),
) -> Seq<SpanV> {
    let col = column_of(selected, selected_column);
    let style = row_style(selected, col >= -1);
    let ul = Style::of(Color::White).underlined();
    let head = (if selected {
        " ▸"@
    } else {
        "  "@
    }) + pad_left(decimal((i + 1) as nat), 3) + "."@ + " "@;
    let title = ellipsis(t.title@, minus(w.0, 8)) + "  "@ + t.duration@;
    seq![span(head, style)] + cell(fit(title, (w.0 + 2) as nat), col == -1, style, ul) + cell(
        fit(ellipsis(text_or_empty(t.label_name), minus(w.1, 2)), w.1 as nat),
        col == 2,
        style,
        ul,
    ) + cell(
        fit(ellipsis(text_or_empty(t.genre_name), minus(w.2, 2)), w.2 as nat),
        col == 3,
        style,
        ul,
    ) + cell(text_or_empty(t.release_date), col == 4, style, ul)
}

/// The second line: artist, remixers, tempo and key, dimmed.
pub open spec fn full_second(
    t: Track,
    selected: bool,
    selected_column: i32,
    w: (int, int, int),
) -> Seq<SpanV> {
    let col = column_of(selected, selected_column);
    let dim = Style::of(Color::DarkGray);
    let ul = Style::of(Color::DarkGray).underlined();
    let remixers = if t.remixers@.len() == 0 {
        fit(Seq::empty(), w.1 as nat)
    } else {
        fit(ellipsis(joined(strs(t.remixers@), ", "@), minus(w.1, 2)), w.1 as nat)
    };
    seq![span(repeat(' ', 7), dim)] + cell(
        fit(ellipsis(t.artist@, w.0 as nat), (w.0 + 2) as nat),
        col == 0,
        dim,
        ul,
    ) + cell(remixers, col == 1, dim, ul) + seq![span(bpm_key(t), dim)]
}

pub open spec fn blank_line() -> Seq<SpanV> {
    seq![span(""@, Style::plain())]
}

/// The lines of the first `n` tracks from `offset` on.
pub open spec fn full_rows(
    tracks: Seq<Track>,
    selected: int,
    offset: int,
    selected_column: i32,
    w: (int, int, int),
    n: nat,
) -> Seq<Seq<SpanV>>
    decreases n,
{
    if n == 0 {
        Seq::empty()
    } else {
        let i = offset + n - 1;
        full_rows(tracks, selected, offset, selected_column, w, (n - 1) as nat).push(
            full_first(tracks[i], i, i == selected, selected_column, w),
        ).push(full_second(tracks[i], i == selected, selected_column, w)).push(blank_line())
    }
}

pub open spec fn full_header(w: (int, int, int)) -> Seq<char> {
    repeat(' ', 7) + fit("TITLE / ARTISTS"@, (w.0 + 2) as nat) + fit(
        "LABEL / REMIXERS"@,
        w.1 as nat,
    ) + fit("GENRE / BPM & KEY"@, w.2 as nat) + "RELEASED"@
}

/// The full list: a header and a blank line, then three lines per track.
pub open spec fn full_lines(
    tracks: Seq<Track>,
    selected: int,
    offset: int,
    selected_column: i32,
    width: int,
    height: int,
) -> Seq<Seq<SpanV>> {
    let w = full_widths(width);
    seq![seq![span(full_header(w), Style::of(Color::DarkGray))], blank_line()] + full_rows(
        tracks,
        selected,
        offset,
        selected_column,
        w,
        visible(tracks.len() as int, offset, minus(height, 2) as int / 3 + 1),
    )
}

fn draw_full_first(
    t: &Track,
    i: usize,
    selected: bool,
    selected_column: i32,
    c1: usize,
    c2: usize,
    c3: usize,
) -> (spans: Vec<Span>)
    requires
        c1 <= 0xffff,
    ensures
        spans_view(spans@) == full_first(
            *t,
            i as int,
            selected,
            selected_column,
            (c1 as int, c2 as int, c3 as int),
        ),
{
    let col: i32 = if selected {
        selected_column
    } else {
        -2
    };
    let style: Style = style_of_row(selected, col >= -1);
    let ul: Style = Style::of(Color::White).underlined();
    let mut head: String = if selected {
        " ▸".to_owned()
    } else {
        "  ".to_owned()
    };
    head.append(padded_left(wide_decimal_str(i as u128 + 1).as_str(), 3).as_str());
    head.append(".");
    head.append(" ");
    let mut spans: Vec<Span> = Vec::new();
    add_span(&mut spans, head.as_str(), style);
    assert(spans_view(spans@) == seq![span(head@, style)]);
    let short: String = trunc(t.title.as_str(), crate::text::sat_sub(c1, 8));
    let title: String = concat3(short.as_str(), "  ", t.duration.as_str());
    add_cell(&mut spans, pad(title.as_str(), c1 + 2).as_str(), col == -1, style, ul);
    let label: String = trunc(
        str_or_empty(&t.label_name).as_str(),
        crate::text::sat_sub(c2, 2),
    );
    add_cell(&mut spans, pad(label.as_str(), c2).as_str(), col == 2, style, ul);
    let genre: String = trunc(
        str_or_empty(&t.genre_name).as_str(),
        crate::text::sat_sub(c3, 2),
    );
    add_cell(&mut spans, pad(genre.as_str(), c3).as_str(), col == 3, style, ul);
    let date: String = str_or_empty(&t.release_date);
    add_cell(&mut spans, date.as_str(), col == 4, style, ul);
    spans
}

fn draw_full_second(
    t: &Track,
    selected: bool,
    selected_column: i32,
    c1: usize,
    c2: usize,
    c3: usize,
) -> (spans: Vec<Span>)
    requires
        c1 <= 0xffff,
    ensures
        spans_view(spans@) == full_second(
            *t,
            selected,
            selected_column,
            (c1 as int, c2 as int, c3 as int),
        ),
{
    let col: i32 = if selected {
        selected_column
    } else {
        -2
    };
    let dim: Style = Style::of(Color::DarkGray);
    let ul: Style = Style::of(Color::DarkGray).underlined();
    let mut spans: Vec<Span> = Vec::new();
    let indent: String = repeated(' ', 7);
    add_span(&mut spans, indent.as_str(), dim);
    assert(spans_view(spans@) == seq![span(indent@, dim)]);
    let artist: String = trunc(t.artist.as_str(), c1);
    add_cell(&mut spans, pad(artist.as_str(), c1 + 2).as_str(), col == 0, dim, ul);
    let remixers: String = if t.remixers.len() == 0 {
        let none: String = String::new();
        pad(none.as_str(), c2)
    } else {
        let names: String = join_strs(&t.remixers, ", ");
        pad(trunc(names.as_str(), crate::text::sat_sub(c2, 2)).as_str(), c2)
    };
    add_cell(&mut spans, remixers.as_str(), col == 1, dim, ul);
    add_span(&mut spans, format_bpm_key(t).as_str(), dim);
    assert(spans_view(spans@) == full_second(
        *t,
        selected,
        selected_column,
        (c1 as int, c2 as int, c3 as int),
    ));
    spans
}

fn render_track_list_full(
    tracks: &Vec<Track>,
    selected: usize,
    scroll_offset: usize,
    selected_column: i32,
    width: u16,
    height: u16,
) -> (lines: Vec<Line>)
    ensures
        lines_view(lines@) == full_lines(
            tracks@,
            selected as int,
            scroll_offset as int,
            selected_column,
            width as int,
            height as int,
        ),
{
    let u: usize = crate::text::sat_sub(width as usize, 7);
    let c1: usize = share_of(u, 40, 15);
    let c2: usize = share_of(u, 20, 8);
    let c3: usize = share_of(u, 22, 8);
    let ghost w = full_widths(width as int);
    let mut header: String = repeated(' ', 7);
    header.append(pad("TITLE / ARTISTS", c1 + 2).as_str());
    header.append(pad("LABEL / REMIXERS", c2).as_str());
    header.append(pad("GENRE / BPM & KEY", c3).as_str());
    header.append("RELEASED");
    let mut lines: Vec<Line> = Vec::new();
    add_text_line(&mut lines, header.as_str(), Style::of(Color::DarkGray));
    add_text_line(&mut lines, "", Style::plain());
    let ghost head = lines_view(lines@);
    let room: usize = crate::text::sat_sub(height as usize, 2) / 3 + 1;
    let ghost n = visible(tracks@.len() as int, scroll_offset as int, room as int);
    let mut k: usize = 0;
    assert(head == head + full_rows(
        tracks@,
        selected as int,
        scroll_offset as int,
        selected_column,
        w,
        0,
    ));
    while k < room && k < tracks.len() && scroll_offset < tracks.len() - k
        invariant
            k <= n,
            n == visible(tracks@.len() as int, scroll_offset as int, room as int),
            w == (c1 as int, c2 as int, c3 as int),
            c1 <= 0xffff,
            lines_view(lines@) == head + full_rows(
                tracks@,
                selected as int,
                scroll_offset as int,
                selected_column,
                w,
                k as nat,
            ),
        decreases room - k,
    {
        let i: usize = scroll_offset + k;
        let is_sel: bool = i == selected;
        let ghost before = lines_view(lines@);
        add_line(
            &mut lines,
            draw_full_first(&tracks[i], i, is_sel, selected_column, c1, c2, c3),
        );
        add_line(&mut lines, draw_full_second(&tracks[i], is_sel, selected_column, c1, c2, c3));
        add_text_line(&mut lines, "", Style::plain());
        k += 1;
        assert(lines_view(lines@) == head + full_rows(
            tracks@,
            selected as int,
            scroll_offset as int,
            selected_column,
            w,
            k as nat,
        ));
    }
    lines
}

/// A track list: one line per track, or three.
pub open spec fn track_list(
    tracks: Seq<Track>,
    selected: int,
    offset: int,
    selected_column: i32,
    compact: bool,
    width: int,
    height: int,
) -> Seq<Seq<SpanV>> {
    if tracks.len() == 0 {
        seq![seq![span("  No tracks"@, Style::of(Color::DarkGray))]]
    } else if compact {
        compact_lines(
            tracks,
            selected,
            offset,
            selected_column,
            compact_widths(width),
            height,
        )
    } else {
        full_lines(tracks, selected, offset, selected_column, width, height)
    }
}

/// Draws a track list. `selected_column`: -2 the whole row, -1 title, 0 artist,
/// 1 remixer, 2 label, 3 genre, 4 date.
pub fn render_track_list(
    width: u16,
    height: u16,
    tracks: &Vec<Track>,
    selected: usize,
    scroll_offset: usize,
    selected_column: i32,
    compact: bool,
) -> (lines: Vec<Line>)
    ensures
        lines_view(lines@) == track_list(
            tracks@,
            selected as int,
            scroll_offset as int,
            selected_column,
            compact,
            width as int,
            height as int,
        ),
{
    if tracks.len() == 0 {
        let mut lines: Vec<Line> = Vec::new();
        add_text_line(&mut lines, "  No tracks", Style::of(Color::DarkGray));
        assert(lines_view(lines@) == seq![
            seq![span("  No tracks"@, Style::of(Color::DarkGray))],
        ]);
        return lines;
    }
    if compact {
        render_track_list_compact(tracks, selected, scroll_offset, selected_column, width, height)
    } else {
        render_track_list_full(tracks, selected, scroll_offset, selected_column, width, height)
    }
}

pub open spec fn menu_line(item: Seq<char>, selected: bool) -> Seq<SpanV> {
    if selected {
        seq![span("▸"@ + " "@ + item, Style::plain().reversed())]
    } else {
        seq![span(" "@ + " "@ + item, Style::of(Color::Gray))]
    }
}

/// Draws a menu, one line per visible item.
pub fn render_menu(
    height: u16,
    items: &Vec<String>,
    selected: usize,
    scroll_offset: usize,
) -> (lines: Vec<Line>)
    ensures
        lines_view(lines@) == Seq::new(
            visible(items@.len() as int, scroll_offset as int, height as int),
            |k: int| menu_line(items@[scroll_offset + k]@, scroll_offset + k == selected),
        ),
{
    let mut lines: Vec<Line> = Vec::new();
    let ghost n = visible(items@.len() as int, scroll_offset as int, height as int);
    let ghost all = Seq::new(
        n,
        |k: int| menu_line(items@[scroll_offset + k]@, scroll_offset + k == selected),
    );
    let mut k: usize = 0;
    while k < height as usize && k < items.len() && scroll_offset < items.len() - k
        invariant
            k <= n,
            n == visible(items@.len() as int, scroll_offset as int, height as int),
            all == Seq::new(
                n,
                |k: int| menu_line(items@[scroll_offset + k]@, scroll_offset + k == selected),
            ),
            lines_view(lines@) == all.take(k as int),
        decreases height - k,
    {
        let i: usize = scroll_offset + k;
        if i == selected {
            let text: String = concat3("▸", " ", items[i].as_str());
            add_text_line(&mut lines, text.as_str(), Style::plain().reversed());
        } else {
            let text: String = concat3(" ", " ", items[i].as_str());
            add_text_line(&mut lines, text.as_str(), Style::of(Color::Gray));
        }
        k += 1;
        assert(all.take(k as int) == all.take(k - 1).push(all[k - 1]));
    }
    assert(k == n);
    assert(all.take(k as int) == all);
    lines
}

/// Minutes and seconds, the seconds in two digits.
pub open spec fn clock(seconds: nat) -> Seq<char> {
    let s = seconds % 60;
    decimal(seconds / 60) + ":"@ + (if s < 10 {
        "0"@ + decimal(s)
    } else {
        decimal(s)
    })
}

pub fn clock_str(seconds: u64) -> (t: String)
    ensures
        t@ == clock(seconds as nat),
{
    let s: u64 = seconds % 60;
    let tail: String = if s < 10 {
        concat2("0", decimal_str(s).as_str())
    } else {
        decimal_str(s)
    };
    concat3(decimal_str(seconds / 60).as_str(), ":", tail.as_str())
}

/// The text and style of the now-playing bar.
pub open spec fn now_playing(name: Option<Seq<char>>, bpm: Option<u32>, remaining: nat) -> SpanV {
    match name {
        Some(n) => span(
            "▶ "@ + n + (match bpm {
                Some(b) => "  "@ + bpm_whole(b) + " BPM"@,
                None => ""@,
            }) + "  -"@ + clock(remaining),
            Style::of(Color::White),
        ),
        None => span("  No track playing"@, Style::of(Color::DarkGray)),
    }
}

/// Draws the now-playing bar; `remaining` is in seconds.
pub fn render_now_playing(track_name: &Option<String>, bpm: Option<u32>, remaining: u64) -> (s:
    Span)
    ensures
        s@ == now_playing(
            match *track_name {
                Some(n) => Some(n@),
                None => None,
            },
            bpm,
            remaining as nat,
        ),
{
    match track_name {
        Some(n) => {
            let mut text: String = concat2("▶ ", n.as_str());
            let tempo: String = match bpm {
                Some(b) => concat3("  ", bpm_whole_str(b).as_str(), " BPM"),
                None => "".to_owned(),
            };
            text.append(tempo.as_str());
            text.append("  -");
            text.append(clock_str(remaining).as_str());
            Span::owned(text, Style::of(Color::White))
        },
        None => Span::styled("  No track playing", Style::of(Color::DarkGray)),
    }
}

} // verus!
