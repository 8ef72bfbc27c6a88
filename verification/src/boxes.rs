//! Bordered boxes: rows, titles, two-column lists, and the rows of the
//! controller.
use crate::style::{
    add_line, add_span, add_text_line, line_width, lines_view, span, spans_view, Color, Line, Span,
    SpanV, Style,
};
use crate::text::{
    char_count, chars_of, clip_text, concat2, concat3, ellipsis, fit, fit_text, max_of, minus,
    owned, push_repeat, repeat, repeated, sat_sub, string_of,
};
use vstd::prelude::*;
use vstd::string::*;

verus! {

/// Text cut to `w` characters with an ellipsis; nothing where there is no room
/// for both.
pub fn ts(s: &str, w: usize) -> (r: String)
    ensures
        r@ == ellipsis(s@, w as nat),
{
    clip_text(s, w)
}

/// Text padded or cut to exactly `w` characters.
pub fn ps(s: &str, w: usize) -> (r: String)
    ensures
        r@ == fit(s@, w as nat),
{
    fit_text(s, w)
}

pub open spec fn border_style(focused: bool) -> Style {
    if focused {
        Style::of(Color::Cyan)
    } else {
        Style::of(Color::DarkGray)
    }
}

/// The colour of a border: cyan where the section is focused.
pub fn section_border(focused: bool) -> (s: Style)
    ensures
        s == border_style(focused),
{
    if focused {
        Style::of(Color::Cyan)
    } else {
        Style::of(Color::DarkGray)
    }
}

/// The top border of a box `w` cells wide, with a title in it.
pub open spec fn top_border(title: Seq<char>, w: nat) -> Seq<char> {
    "┌─ "@ + title + " "@ + repeat('─', minus(minus(w as int, 2) as int, title.len() as int + 4) + 1)
        + "┐"@
}

pub fn top_border_str(title: &str, w: usize) -> (s: String)
    ensures
        s@ == top_border(title@, w as nat),
{
    let rest: usize = sat_sub(sat_sub(w, 6), char_count(title));
    let mut s: String = concat3("┌─ ", title, " ");
    push_repeat(&mut s, '─', rest);
    s.push('─');
    let r: String = concat2(s.as_str(), "┐");
    assert(repeat('─', rest as nat).push('─') == repeat('─', rest as nat + 1));
    assert(r@ == top_border(title@, w as nat));
    r
}

/// The bottom border of a box `w` cells wide.
pub open spec fn bottom_border(w: nat) -> Seq<char> {
    "└"@ + repeat('─', minus(w as int, 2)) + "┘"@
}

pub fn bottom_border_str(w: usize) -> (s: String)
    ensures
        s@ == bottom_border(w as nat),
{
    let bar: String = repeated('─', sat_sub(w, 2));
    concat3("└", bar.as_str(), "┘")
}

/// A box `w` cells wide has borders of that width, as long as the title leaves
/// room for them.
pub proof fn borders_are_exact(title: Seq<char>, w: nat)
    requires
        title.len() + 6 <= w,
    ensures
        top_border(title, w).len() == w,
        bottom_border(w).len() == w,
{
    reveal_strlit("┌─ ");
    reveal_strlit(" ");
    reveal_strlit("┐");
    reveal_strlit("└");
    reveal_strlit("┘");
    assert("┌─ "@.len() == 3 && " "@.len() == 1 && "┐"@.len() == 1 && "└"@.len() == 1
        && "┘"@.len() == 1);
}

/// A row of a box whose inside is `bw` cells wide.
pub open spec fn framed(content: Seq<char>, bw: nat, border: Style, inner: Style) -> Seq<SpanV> {
    seq![
        span("│ "@, border),
        span(fit(content, minus(bw as int, 2)), inner),
        span(" │"@, border),
    ]
}

fn framed_spans(content: &str, bw: usize, border: Style, inner: Style) -> (spans: Vec<Span>)
    ensures
        spans_view(spans@) == framed(content@, bw as nat, border, inner),
{
    let mut spans: Vec<Span> = Vec::new();
    add_span(&mut spans, "│ ", border);
    let text: String = ps(content, sat_sub(bw, 2));
    add_span(&mut spans, text.as_str(), inner);
    add_span(&mut spans, " │", border);
    assert(spans_view(spans@) == framed(content@, bw as nat, border, inner));
    spans
}

pub fn add_framed(lines: &mut Vec<Line>, content: &str, bw: usize, border: Style, inner: Style)
    ensures
        lines_view(final(lines)@) == lines_view(old(lines)@).push(
            framed(content@, bw as nat, border, inner),
        ),
{
    add_line(lines, framed_spans(content, bw, border, inner));
}

/// A dim row of a box.
pub open spec fn dim_row(content: Seq<char>, bw: nat, border: Style) -> Seq<SpanV> {
    framed(content, bw, border, Style::of(Color::DarkGray))
}

/// Adds a dim row of a box.
pub fn boxed_row(lines: &mut Vec<Line>, content: &str, bw: usize, border: Style)
    ensures
        lines_view(final(lines)@) == lines_view(old(lines)@).push(
            dim_row(content@, bw as nat, border),
        ),
{
    add_framed(lines, content, bw, border, Style::of(Color::DarkGray));
}

/// The first place from `from` on where a character stands; the end where it
/// does not.
pub open spec fn first_of(s: Seq<char>, c: char, from: int) -> int
    decreases s.len() - from,
{
    if from >= s.len() {
        s.len() as int
    } else if s[from] == c {
        from
    } else {
        first_of(s, c, from + 1)
    }
}

proof fn lemma_first_of(s: Seq<char>, c: char, from: int)
    requires
        0 <= from <= s.len(),
    ensures
        from <= first_of(s, c, from) <= s.len(),
    decreases s.len() - from,
{
    if from < s.len() && s[from] != c {
        lemma_first_of(s, c, from + 1);
    }
}

pub fn first_of_char(v: &Vec<char>, c: char, from: usize) -> (i: usize)
    requires
        from <= v.len(),
    ensures
        i == first_of(v@, c, from as int),
        from <= i <= v.len(),
{
    let mut i: usize = from;
    while i < v.len() && v[i] != c
        invariant
            from <= i <= v.len(),
            first_of(v@, c, from as int) == first_of(v@, c, i as int),
        decreases v.len() - i,
    {
        i += 1;
    }
    i
}

/// Text from `from` on, what stands in square brackets underlined and the
/// brackets blanked, so that no column moves.
pub open spec fn lit_spans(s: Seq<char>, from: int) -> Seq<SpanV>
    decreases s.len() - from,
{
    let base = Style::of(Color::Gray);
    if from >= s.len() || from < 0 {
        Seq::empty()
    } else {
        let open = first_of(s, '[', from);
        let close = first_of(s, ']', open + 1);
        let before = if open > from {
            seq![span(s.subrange(from, open), base)]
        } else {
            Seq::empty()
        };
        if open >= s.len() {
            seq![span(s.subrange(from, s.len() as int), base)]
        } else if close >= s.len() || close < from {
            before.push(span(s.subrange(open, s.len() as int), base))
        } else {
            before + seq![
                span(" "@, base),
                span(s.subrange(open + 1, close), base.underlined()),
                span(" "@, base),
            ] + lit_spans(s, close + 1)
        }
    }
}

/// A row of a box with lit text.
pub open spec fn lit_row(content: Seq<char>, bw: nat, border: Style) -> Seq<SpanV> {
    seq![span("│ "@, border)] + lit_spans(fit(content, minus(bw as int, 2)), 0) + seq![
        span(" │"@, border),
    ]
}

/// Adds a row of a box with lit text.
pub fn lit_boxed_row(lines: &mut Vec<Line>, content: &str, bw: usize, border: Style)
    ensures
        lines_view(final(lines)@) == lines_view(old(lines)@).push(
            lit_row(content@, bw as nat, border),
        ),
{
    let padded: String = ps(content, sat_sub(bw, 2));
    let v: Vec<char> = chars_of(padded.as_str());
    let base: Style = Style::of(Color::Gray);
    let mut spans: Vec<Span> = Vec::new();
    add_span(&mut spans, "│ ", border);
    let ghost head = seq![span("│ "@, border)];
    assert(spans_view(spans@) == head);
    let mut at: usize = 0;
    while at < v.len()
        invariant
            at <= v.len(),
            base == Style::of(Color::Gray),
            head + lit_spans(v@, 0) == spans_view(spans@) + lit_spans(v@, at as int),
        decreases v.len() - at,
    {
        let ghost before = spans_view(spans@);
        let open: usize = first_of_char(&v, '[', at);
        if open == v.len() {
            let rest: String = string_of(&v, at, v.len());
            add_span(&mut spans, rest.as_str(), base);
            at = v.len();
            assert(lit_spans(v@, at as int) == Seq::<SpanV>::empty());
            assert(spans_view(spans@) + Seq::<SpanV>::empty() == before + seq![
                span(rest@, base),
            ]);
        } else {
            if open > at {
                let text: String = string_of(&v, at, open);
                add_span(&mut spans, text.as_str(), base);
            }
            let ghost mid = spans_view(spans@);
            let ghost pre = if open > at {
                seq![span(v@.subrange(at as int, open as int), base)]
            } else {
                Seq::empty()
            };
            assert(mid == before + pre);
            let close: usize = first_of_char(&v, ']', open + 1);
            if close == v.len() {
                let rest: String = string_of(&v, open, v.len());
                add_span(&mut spans, rest.as_str(), base);
                assert(spans_view(spans@) + Seq::<SpanV>::empty() == before + pre.push(
                    span(rest@, base),
                ));
                at = v.len();
                assert(lit_spans(v@, at as int) == Seq::<SpanV>::empty());
            } else {
                add_span(&mut spans, " ", base);
                let inner: String = string_of(&v, open + 1, close);
                add_span(&mut spans, inner.as_str(), base.underlined());
                add_span(&mut spans, " ", base);
                let ghost marked = seq![
                    span(" "@, base),
                    span(inner@, base.underlined()),
                    span(" "@, base),
                ];
                assert(spans_view(spans@) == mid + marked);
                assert(lit_spans(v@, at as int) == pre + marked + lit_spans(v@, close + 1));
                at = close + 1;
                assert(spans_view(spans@) + lit_spans(v@, at as int) == before + (pre + marked
                    + lit_spans(v@, at as int)));
            }
        }
    }
    assert(lit_spans(v@, at as int) == Seq::<SpanV>::empty());
    assert(spans_view(spans@) == head + lit_spans(v@, 0));
    add_span(&mut spans, " │", border);
    assert(spans_view(spans@) == lit_row(content@, bw as nat, border));
    add_line(lines, spans);
}

/// Drawing a row lit moves no column.
pub proof fn lit_row_keeps_columns(s: Seq<char>, from: int)
    requires
        0 <= from <= s.len(),
    ensures
        line_width(lit_spans(s, from)) == s.len() - from,
    decreases s.len() - from,
{
    let base = Style::of(Color::Gray);
    let spans = lit_spans(s, from);
    if from < s.len() {
        let open = first_of(s, '[', from);
        lemma_first_of(s, '[', from);
        let before = if open > from {
            seq![span(s.subrange(from, open), base)]
        } else {
            Seq::empty()
        };
        lemma_width_of_one(before);
        if open >= s.len() {
            lemma_width_of_one(spans);
        } else {
            let close = first_of(s, ']', open + 1);
            lemma_first_of(s, ']', open + 1);
            if close >= s.len() {
                assert(spans.drop_last() == before);
            } else {
                let rest = lit_spans(s, close + 1);
                lit_row_keeps_columns(s, close + 1);
                reveal_strlit(" ");
                assert(" "@.len() == 1);
                let one = before.push(span(" "@, base));
                let inner = span(s.subrange(open + 1, close), base.underlined());
                let two = one.push(inner);
                let three = two.push(span(" "@, base));
                assert(one.drop_last() == before);
                assert(two.drop_last() == one);
                assert(three.drop_last() == two);
                assert(line_width(one) == line_width(before) + 1);
                assert(line_width(two) == line_width(one) + (close - open - 1));
                assert(line_width(three) == line_width(two) + 1);
                assert(spans == three + rest);
                lemma_width_of_sum(three, rest);
            }
        }
    }
}

proof fn lemma_width_of_one(line: Seq<SpanV>)
    requires
        line.len() <= 1,
    ensures
        line.len() == 0 ==> line_width(line) == 0,
        line.len() == 1 ==> line_width(line) == line[0].text.len(),
{
    reveal_with_fuel(line_width, 2);
}

/// The width of two parts put together.
pub proof fn lemma_width_of_sum(a: Seq<SpanV>, b: Seq<SpanV>)
    ensures
        line_width(a + b) == line_width(a) + line_width(b),
    decreases b.len(),
{
    if b.len() == 0 {
        assert(a + b == a);
    } else {
        lemma_width_of_sum(a, b.drop_last());
        assert((a + b).drop_last() == a + b.drop_last());
    }
}

/// Where the middle part of a control row starts: its own middle is held on
/// `mid`, as long as the left part does not push it.
pub open spec fn ctrl_start(left: nat, center: nat, mid: nat) -> int {
    max_of(left as int, minus(mid as int, center as int / 2) as int)
}

/// A control row: a left part, a middle part, and a right part that is pushed to
/// the right edge.
pub open spec fn ctrl_row(
    left: Seq<char>,
    center: Seq<char>,
    right: Seq<char>,
    total: nat,
    mid: nat,
) -> Seq<char> {
    let start = ctrl_start(left.len(), center.len(), mid);
    left + repeat(' ', (start - left.len()) as nat) + center + repeat(
        ' ',
        max_of(total - start - center.len() - right.len(), 1) as nat,
    ) + right
}

/// The control row with its middle held on a column.
pub fn build_ctrl_row_at(
    left: &str,
    center: &str,
    right: &str,
    total_w: usize,
    mid: usize,
) -> (s: String)
    ensures
        s@ == ctrl_row(left@, center@, right@, total_w as nat, mid as nat),
{
    let ll: usize = char_count(left);
    let cl: usize = char_count(center);
    let rl: usize = char_count(right);
    let center_start: usize = sat_sub(mid, cl / 2);
    let gap_l: usize = sat_sub(center_start, ll);
    let room: usize = sat_sub(sat_sub(sat_sub(sat_sub(total_w, ll), gap_l), cl), rl);
    let gap_r: usize = if room > 1 {
        room
    } else {
        1
    };
    let mut s: String = owned(left);
    push_repeat(&mut s, ' ', gap_l);
    let mut t: String = concat2(s.as_str(), center);
    push_repeat(&mut t, ' ', gap_r);
    concat2(t.as_str(), right)
}

/// The control row with its middle held on the middle of the row.
pub fn build_ctrl_row(left: &str, center: &str, right: &str, total_w: usize) -> (s: String)
    ensures
        s@ == ctrl_row(left@, center@, right@, total_w as nat, total_w as nat / 2),
{
    build_ctrl_row_at(left, center, right, total_w, total_w / 2)
}

/// The middle of a control row stands where it is held, and the row is exactly
/// as wide as asked for, as long as the parts leave room for it.
pub proof fn ctrl_row_is_anchored(
    left: Seq<char>,
    center: Seq<char>,
    right: Seq<char>,
    total: nat,
    mid: nat,
)
    requires
        center.len() as int / 2 <= mid,
        left.len() <= mid - center.len() as int / 2,
        mid - center.len() as int / 2 + center.len() + 1 + right.len() <= total,
    ensures
        ({
            let at = mid - center.len() as int / 2;
            &&& ctrl_row(left, center, right, total, mid).len() == total
            &&& ctrl_row(left, center, right, total, mid).subrange(at, at + center.len()) == center
            &&& ctrl_row(left, center, right, total, mid).skip(total - right.len()) == right
        }),
{
    let row = ctrl_row(left, center, right, total, mid);
    let at = mid - center.len() as int / 2;
    assert(row.subrange(at, at + center.len()) == center);
    assert(row.skip(total - right.len()) == right);
}

/// A box of plain rows with a title.
pub open spec fn plain_box(title: Seq<char>, content: Seq<Seq<char>>, w: nat) -> Seq<Seq<SpanV>> {
    let dim = Style::of(Color::DarkGray);
    seq![seq![span(top_border(title, w), dim)]] + Seq::new(
        content.len(),
        |i: int| framed(content[i], minus(w as int, 2), dim, Style::of(Color::Gray)),
    ) + seq![seq![span(bottom_border(w), dim)]]
}

/// Adds a box of plain rows with a title.
pub fn boxed(lines: &mut Vec<Line>, title: &str, content: &Vec<String>, w: usize)
    ensures
        lines_view(final(lines)@) == lines_view(old(lines)@) + plain_box(
            title@,
            crate::text::strs(content@),
            w as nat,
        ),
{
    let dim: Style = Style::of(Color::DarkGray);
    let top: String = top_border_str(title, w);
    let bw: usize = sat_sub(w, 2);
    add_text_line(lines, top.as_str(), dim);
    let ghost start = lines_view(lines@);
    let ghost texts = crate::text::strs(content@);
    let mut i: usize = 0;
    while i < content.len()
        invariant
            i <= content.len(),
            bw == minus(w as int, 2),
            dim == Style::of(Color::DarkGray),
            texts == crate::text::strs(content@),
            lines_view(lines@) == start + Seq::new(
                i as nat,
                |k: int| framed(texts[k], minus(w as int, 2), dim, Style::of(Color::Gray)),
            ),
        decreases content.len() - i,
    {
        add_framed(lines, content[i].as_str(), bw, dim, Style::of(Color::Gray));
        i += 1;
        assert(lines_view(lines@) == start + Seq::new(
            i as nat,
            |k: int| framed(texts[k], minus(w as int, 2), dim, Style::of(Color::Gray)),
        ));
    }
    let bottom: String = bottom_border_str(w);
    add_text_line(lines, bottom.as_str(), dim);
    assert(lines_view(lines@) == lines_view(old(lines)@) + plain_box(title@, texts, w as nat));
}

/// The items of a two-column box: the colour of the dot and the text.
pub open spec fn items_view(items: Seq<(Color, String)>) -> Seq<(Color, Seq<char>)> {
    Seq::new(items.len(), |i: int| (items[i].0, items[i].1@))
}

/// The text columns of a two-column box take what the borders and dots leave;
/// the odd cell goes to the left.
pub open spec fn right_width(w: nat) -> nat {
    minus(w as int, 9) / 2
}

pub open spec fn left_width(w: nat) -> nat {
    (minus(w as int, 9) - right_width(w)) as nat
}

/// A row of a two-column box: the first half of the items is on the left.
pub open spec fn two_col_row(
    items: Seq<(Color, Seq<char>)>,
    row: int,
    w: nat,
    border: Style,
) -> Seq<SpanV> {
    let half = (items.len() + 1) as int / 2;
    let gray = Style::of(Color::Gray);
    seq![
        span("│ "@, border),
        span("● "@, Style::of(items[row].0)),
        span(fit(items[row].1, left_width(w)), gray),
        span("│ "@, border),
    ] + (if row + half < items.len() {
        seq![
            span("● "@, Style::of(items[row + half].0)),
            span(fit(items[row + half].1, right_width(w)), gray),
        ]
    } else {
        seq![span(repeat(' ', right_width(w) + 2), Style::plain())]
    }) + seq![span("│"@, border)]
}

pub open spec fn opt_str(s: Option<String>) -> Option<Seq<char>> {
    match s {
        Some(x) => Some(x@),
        None => None,
    }
}

/// A titled box of two columns, with a row below the items where there are more,
/// and a message where there is none.
pub open spec fn two_col_box(
    title: Seq<char>,
    items: Seq<(Color, Seq<char>)>,
    overflow: Option<Seq<char>>,
    empty: Seq<char>,
    w: nat,
    focused: bool,
) -> Seq<Seq<SpanV>> {
    let border = border_style(focused);
    let gray = Style::of(Color::Gray);
    let bw = minus(w as int, 2);
    let body = if items.len() == 0 {
        seq![framed(empty, bw, border, gray)]
    } else {
        Seq::new(
            ((items.len() + 1) as int / 2) as nat,
            |row: int| two_col_row(items, row, w, border),
        ) + match overflow {
            Some(m) => seq![framed(m, bw, border, gray)],
            None => Seq::empty(),
        }
    };
    seq![seq![span(top_border(title, w), border)]] + body + seq![
        seq![span(bottom_border(w), border)],
    ]
}

fn add_two_col_row(
    lines: &mut Vec<Line>,
    items: &Vec<(Color, String)>,
    row: usize,
    half: usize,
    w: usize,
    border: Style,
)
    requires
        row < items.len(),
        half == (items@.len() + 1) as int / 2,
        row < half,
    ensures
        lines_view(final(lines)@) == lines_view(old(lines)@).push(
            two_col_row(items_view(items@), row as int, w as nat, border),
        ),
{
    let gray: Style = Style::of(Color::Gray);
    let pair: usize = sat_sub(w, 9);
    let right: usize = pair / 2;
    let left: usize = pair - right;
    let mut spans: Vec<Span> = Vec::new();
    add_span(&mut spans, "│ ", border);
    add_span(&mut spans, "● ", Style::of(items[row].0));
    let text: String = ps(items[row].1.as_str(), left);
    add_span(&mut spans, text.as_str(), gray);
    add_span(&mut spans, "│ ", border);
    if row < items.len() - half {
        add_span(&mut spans, "● ", Style::of(items[row + half].0));
        let other: String = ps(items[row + half].1.as_str(), right);
        add_span(&mut spans, other.as_str(), gray);
    } else {
        let blank: String = repeated(' ', right + 2);
        add_span(&mut spans, blank.as_str(), Style::plain());
    }
    add_span(&mut spans, "│", border);
    assert(spans_view(spans@) == two_col_row(items_view(items@), row as int, w as nat, border));
    add_line(lines, spans);
}

/// Adds a titled box of two columns.
pub fn render_two_col_box(
    lines: &mut Vec<Line>,
    title: &str,
    items: &Vec<(Color, String)>,
    overflow: &Option<String>,
    empty_msg: &str,
    w: usize,
    focused: bool,
)
    ensures
        lines_view(final(lines)@) == lines_view(old(lines)@) + two_col_box(
            title@,
            items_view(items@),
            opt_str(*overflow),
            empty_msg@,
            w as nat,
            focused,
        ),
{
    let border: Style = section_border(focused);
    let gray: Style = Style::of(Color::Gray);
    let bw: usize = sat_sub(w, 2);
    let top: String = top_border_str(title, w);
    add_text_line(lines, top.as_str(), border);
    let ghost start = lines_view(lines@);
    let ghost its = items_view(items@);
    if items.len() == 0 {
        add_framed(lines, empty_msg, bw, border, gray);
    } else {
        let n: usize = items.len();
        let half: usize = n / 2 + n % 2;
        let mut row: usize = 0;
        while row < half
            invariant
                row <= half,
                half == (items@.len() + 1) as int / 2,
                its == items_view(items@),
                lines_view(lines@) == start + Seq::new(
                    row as nat,
                    |r: int| two_col_row(its, r, w as nat, border),
                ),
            decreases half - row,
        {
            add_two_col_row(lines, items, row, half, w, border);
            row += 1;
            assert(lines_view(lines@) == start + Seq::new(
                row as nat,
                |r: int| two_col_row(its, r, w as nat, border),
            ));
        }
        if let Some(m) = overflow {
            add_framed(lines, m.as_str(), bw, border, gray);
        }
    }
    let bottom: String = bottom_border_str(w);
    add_text_line(lines, bottom.as_str(), border);
    assert(lines_view(lines@) == lines_view(old(lines)@) + two_col_box(
        title@,
        its,
        opt_str(*overflow),
        empty_msg@,
        w as nat,
        focused,
    ));
}

proof fn lemma_literal_widths()
    ensures
        "│ "@.len() == 2,
        " │"@.len() == 2,
        "│"@.len() == 1,
        "● "@.len() == 2,
{
    reveal_strlit("│ ");
    reveal_strlit(" │");
    reveal_strlit("│");
    reveal_strlit("● ");
    assert("│ "@.len() == 2 && " │"@.len() == 2 && "│"@.len() == 1 && "● "@.len() == 2);
}

proof fn lemma_framed_width(content: Seq<char>, w: nat, border: Style, inner: Style)
    requires
        w >= 4,
    ensures
        line_width(framed(content, minus(w as int, 2), border, inner)) == w,
{
    lemma_literal_widths();
    let line = framed(content, minus(w as int, 2), border, inner);
    crate::text::fit_is_exact(content, minus(w as int - 2, 2));
    assert(line.drop_last().drop_last().drop_last() == Seq::<SpanV>::empty());
    reveal_with_fuel(line_width, 4);
}

proof fn lemma_two_col_row_width(
    items: Seq<(Color, Seq<char>)>,
    row: int,
    w: nat,
    border: Style,
)
    requires
        w >= 9,
    ensures
        line_width(two_col_row(items, row, w, border)) == w,
{
    lemma_literal_widths();
    let line = two_col_row(items, row, w, border);
    let half = (items.len() + 1) as int / 2;
    crate::text::fit_is_exact(items[row].1, left_width(w));
    crate::text::fit_is_exact(items[row + half].1, right_width(w));
    reveal_with_fuel(line_width, 8);
    if row + half < items.len() {
        assert(line.len() == 7);
    } else {
        assert(line.len() == 6);
    }
}

/// Every line of a two-column box is exactly `w` cells wide: borders, rows with
/// one item and with two, the row below them, and the empty row.
pub proof fn two_col_box_is_square(
    title: Seq<char>,
    items: Seq<(Color, Seq<char>)>,
    overflow: Option<Seq<char>>,
    empty: Seq<char>,
    w: nat,
    focused: bool,
    i: int,
)
    requires
        w >= 9,
        title.len() + 6 <= w,
        0 <= i < two_col_box(title, items, overflow, empty, w, focused).len(),
    ensures
        line_width(two_col_box(title, items, overflow, empty, w, focused)[i]) == w,
{
    let border = border_style(focused);
    let gray = Style::of(Color::Gray);
    let lines = two_col_box(title, items, overflow, empty, w, focused);
    let half = ((items.len() + 1) as int / 2) as nat;
    borders_are_exact(title, w);
    if i == 0 || i == lines.len() - 1 {
        lemma_width_of_one(lines[i]);
    } else if items.len() == 0 {
        lemma_framed_width(empty, w, border, gray);
    } else if i - 1 < half {
        assert(lines[i] == two_col_row(items, i - 1, w, border));
        lemma_two_col_row_width(items, i - 1, w, border);
    } else {
        lemma_framed_width(overflow->0, w, border, gray);
    }
}

} // verus!
