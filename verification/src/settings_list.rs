//! The settings list on the screen: its focusable rows, its lines, and the
//! window of lines that keeps the focused row in view.
use crate::config::AppConfig;
use crate::settings::{
    build_settings, items_view, setting_items, ItemV, RowV, SettingItem, SettingRow, SettingsEnv,
    TextRowV, TextSettingRow, RESET_ALL_KEY,
};
use crate::style::{
    add_line, add_span, line_width, lines_view, span, spans_view, Color, Line, Span, SpanV, Style,
};
use crate::text::{char_count, concat2, concat3, minus, str_eq, strs, take_chars};
use vstd::prelude::*;
use vstd::string::*;

verus! {

/// A row that can have the focus: a row of choices or a text row.
pub enum SettingsRowEntry {
    Choice(SettingRow),
    Text(TextSettingRow),
}

impl SettingsRowEntry {
    /// The entry, as the item it came from.
    pub open spec fn item(self) -> ItemV {
        match self {
            SettingsRowEntry::Choice(r) => ItemV::Row(r@),
            SettingsRowEntry::Text(r) => ItemV::TextRow(r@),
        }
    }

    pub fn key(&self) -> (k: &'static str)
        ensures
            k == (match self {
                SettingsRowEntry::Choice(r) => r.key,
                SettingsRowEntry::Text(r) => r.key,
            }),
    {
        match self {
            SettingsRowEntry::Choice(r) => r.key,
            SettingsRowEntry::Text(r) => r.key,
        }
    }

    pub fn modified(&self) -> (b: bool)
        ensures
            b == (match self {
                SettingsRowEntry::Choice(r) => r.current_idx != r.default_idx,
                SettingsRowEntry::Text(r) => r.value@ != r.default@,
            }),
    {
        match self {
            SettingsRowEntry::Choice(r) => r.modified(),
            SettingsRowEntry::Text(r) => r.modified(),
        }
    }
}

/// The items that can have the focus: all but the section headers.
pub open spec fn focusable(items: Seq<ItemV>) -> Seq<ItemV>
    decreases items.len(),
{
    if items.len() == 0 {
        items
    } else if items.last() is Section {
        focusable(items.drop_last())
    } else {
        focusable(items.drop_last()).push(items.last())
    }
}

proof fn lemma_focusable_prefix(items: Seq<ItemV>, n: int)
    requires
        0 <= n <= items.len(),
    ensures
        focusable(items.take(n)).len() <= focusable(items).len() <= items.len(),
        focusable(items.take(n)) == focusable(items).take(
            focusable(items.take(n)).len() as int,
        ),
    decreases items.len(),
{
    if n == items.len() {
        assert(items.take(n) == items);
        if items.len() > 0 {
            lemma_focusable_prefix(items.drop_last(), n - 1);
        }
        assert(focusable(items) == focusable(items).take(focusable(items).len() as int));
    } else {
        lemma_focusable_prefix(items.drop_last(), n);
        assert(items.drop_last().take(n) == items.take(n));
        let f = focusable(items.take(n));
        assert(focusable(items).take(f.len() as int) == focusable(items.drop_last()).take(
            f.len() as int,
        ));
    }
}

/// How many rows of the settings list can have the focus.
pub fn settings_row_count(config: &AppConfig, env: &SettingsEnv) -> (n: usize)
    ensures
        n == focusable(setting_items(*config, *env)).len(),
{
    let items: Vec<SettingItem> = build_settings(config, env);
    let ghost all = items_view(items@);
    let mut n: usize = 0;
    let mut i: usize = 0;
    assert(all.take(0) == Seq::<ItemV>::empty());
    while i < items.len()
        invariant
            i <= items.len(),
            all == items_view(items@),
            n <= i,
            n == focusable(all.take(i as int)).len(),
        decreases items.len() - i,
    {
        assert(all.take(i + 1).drop_last() == all.take(i as int));
        assert(all.take(i + 1).last() == items@[i as int]@);
        match items[i] {
            SettingItem::Section(_) => {},
            _ => {
                n += 1;
            },
        }
        i += 1;
    }
    assert(all.take(i as int) == all);
    n
}

/// The `row_idx`-th row that can have the focus.
pub fn settings_row_entry_at(config: &AppConfig, env: &SettingsEnv, row_idx: usize) -> (r: Option<
    SettingsRowEntry,
>)
    ensures
        match r {
            Some(e) => row_idx < focusable(setting_items(*config, *env)).len() && e.item()
                == focusable(setting_items(*config, *env))[row_idx as int],
            None => row_idx >= focusable(setting_items(*config, *env)).len(),
        },
{
    let mut items: Vec<SettingItem> = build_settings(config, env);
    let ghost all = items_view(items@);
    let mut n: usize = 0;
    let mut i: usize = 0;
    assert(all.take(0) == Seq::<ItemV>::empty());
    while i < items.len()
        invariant
            i <= items.len(),
            all == items_view(items@),
            all == setting_items(*config, *env),
            n <= i,
            n <= row_idx,
            n == focusable(all.take(i as int)).len(),
        decreases items.len() - i,
    {
        assert(all.take(i + 1).drop_last() == all.take(i as int));
        assert(all.take(i + 1).last() == items@[i as int]@);
        let found: bool = match items[i] {
            SettingItem::Section(_) => false,
            _ => n == row_idx,
        };
        if found {
            proof {
                lemma_focusable_prefix(all, i + 1);
                assert(focusable(all.take(i + 1))[n as int] == all[i as int]);
            }
            let item: SettingItem = items.swap_remove(i);
            return match item {
                SettingItem::Row(r) => Some(SettingsRowEntry::Choice(r)),
                SettingItem::TextRow(r) => Some(SettingsRowEntry::Text(r)),
                SettingItem::Section(_) => None,
            };
        }
        match items[i] {
            SettingItem::Section(_) => {},
            _ => {
                n += 1;
            },
        }
        i += 1;
    }
    assert(all.take(i as int) == all);
    None
}

/// The `row_idx`-th row, where it is a row of choices.
pub fn settings_row_at(config: &AppConfig, env: &SettingsEnv, row_idx: usize) -> (r: Option<
    SettingRow,
>)
    ensures
        match r {
            Some(row) => row_idx < focusable(setting_items(*config, *env)).len() && ItemV::Row(
                row@,
            ) == focusable(setting_items(*config, *env))[row_idx as int],
            None => row_idx >= focusable(setting_items(*config, *env)).len() || focusable(
                setting_items(*config, *env),
            )[row_idx as int] is TextRow,
        },
{
    match settings_row_entry_at(config, env, row_idx) {
        Some(SettingsRowEntry::Choice(r)) => Some(r),
        _ => None,
    }
}

pub open spec fn starred() -> SpanV {
    span("  *"@, Style::of(Color::Yellow).bold())
}

/// The marker and the label that every row begins with.
pub open spec fn row_head(label: Seq<char>, selected: bool) -> Seq<SpanV> {
    seq![
        span(
            if selected {
                "▸ "@
            } else {
                "  "@
            },
            Style::of(
                if selected {
                    Color::White
                } else {
                    Color::DarkGray
                },
            ),
        ),
        span(
            label + ":  "@,
            Style::of(
                if selected {
                    Color::White
                } else {
                    Color::Gray
                },
            ),
        ),
    ]
}

/// The first `n` choices, the current one in brackets.
pub open spec fn option_spans(options: Seq<Seq<char>>, current: int, n: nat) -> Seq<SpanV>
    decreases n,
{
    if n == 0 {
        Seq::empty()
    } else {
        let j = n - 1;
        let before = option_spans(options, current, j as nat);
        let parted = if j > 0 {
            before.push(span(" / "@, Style::of(Color::DarkGray)))
        } else {
            before
        };
        parted.push(
            if j == current {
                span("["@ + options[j] + "]"@, Style::of(Color::Cyan).bold())
            } else {
                span(options[j], Style::of(Color::DarkGray))
            },
        )
    }
}

/// The line of a row of choices.
pub open spec fn choice_line(row: RowV, selected: bool) -> Seq<SpanV> {
    let head = row_head(row.label@, selected);
    if row.key@ == RESET_ALL_KEY@ {
        head.push(
            span(
                "(Enter to reset)"@,
                if selected {
                    Style::of(Color::Red).bold()
                } else {
                    Style::of(Color::Red).dim()
                },
            ),
        )
    } else if row.options.len() == 0 {
        head.push(span(row.label@, Style::of(Color::Red)))
    } else {
        let all = head + option_spans(row.options, row.current_idx, row.options.len());
        if row.current_idx != row.default_idx {
            all.push(starred())
        } else {
            all
        }
    }
}

/// The line of a text row; the focused one shows the text being edited.
pub open spec fn text_line(row: TextRowV, selected: bool, editing: Option<Seq<char>>) -> Seq<
    SpanV,
> {
    let head = row_head(row.label@, selected);
    if selected && editing is Some {
        head.push(span(editing->0, Style::of(Color::Yellow).bold())).push(
            span("█"@, Style::of(Color::Yellow)),
        )
    } else if row.value.len() == 0 {
        head.push(span(row.placeholder@, Style::of(Color::DarkGray).italic()))
    } else {
        let shown = head.push(span(row.value, Style::of(Color::Cyan).bold()));
        if row.value != row.default {
            shown.push(starred())
        } else {
            shown
        }
    }
}

pub open spec fn settings_line(item: ItemV, selected: bool, editing: Option<Seq<char>>) -> Seq<
    SpanV,
> {
    match item {
        ItemV::Section(name) => seq![
            span("── "@ + name@ + " ──"@, Style::of(Color::DarkGray).bold()),
        ],
        ItemV::Row(row) => choice_line(row, selected),
        ItemV::TextRow(row) => text_line(row, selected, editing),
    }
}

/// The `i`-th item is the row with the focus.
pub open spec fn is_focused(items: Seq<ItemV>, i: int, selected: nat) -> bool {
    !(items[i] is Section) && focusable(items.take(i)).len() == selected
}

/// All lines of the list.
pub open spec fn settings_lines(items: Seq<ItemV>, selected: nat, editing: Option<Seq<char>>) -> Seq<
    Seq<SpanV>,
> {
    Seq::new(
        items.len(),
        |i: int| settings_line(items[i], is_focused(items, i, selected), editing),
    )
}

/// The line of the focused row among the first `n`; the top line when there is
/// none.
pub open spec fn focused_line(items: Seq<ItemV>, selected: nat, n: nat) -> int
    decreases n,
{
    if n == 0 {
        0
    } else if is_focused(items, n - 1, selected) {
        n - 1
    } else {
        focused_line(items, selected, (n - 1) as nat)
    }
}

/// How far the list is scrolled so that the focused line is inside `height`
/// lines.
pub open spec fn scroll_for(focused: int, height: int) -> int {
    if height > 0 && focused >= height {
        focused + 1 - height
    } else {
        0
    }
}

/// The spans of a line that fit into `budget` characters, the last one cut.
pub open spec fn cut_line(line: Seq<SpanV>, budget: nat) -> Seq<SpanV>
    decreases line.len(),
{
    if line.len() == 0 {
        Seq::empty()
    } else if line[0].text.len() <= budget {
        seq![line[0]] + cut_line(line.skip(1), (budget - line[0].text.len()) as nat)
    } else if budget > 0 {
        seq![span(line[0].text.take(budget as int), line[0].style)]
    } else {
        Seq::empty()
    }
}

/// A line of at most `w` characters: cut with `…` at the end where it was
/// longer.
pub open spec fn clip_line(line: Seq<SpanV>, w: nat) -> Seq<SpanV> {
    if line_width(line) <= w {
        line
    } else {
        cut_line(line, minus(w as int, 1)).push(span("…"@, Style::of(Color::DarkGray)))
    }
}

/// The lines on the screen.
pub open spec fn settings_window(
    items: Seq<ItemV>,
    selected: nat,
    editing: Option<Seq<char>>,
    width: nat,
    height: nat,
) -> Seq<Seq<SpanV>> {
    let lines = settings_lines(items, selected, editing);
    let scroll = scroll_for(focused_line(items, selected, items.len()), height as int);
    Seq::new(
        crate::text::min_of(height as int, minus(lines.len() as int, scroll) as int) as nat,
        |k: int| clip_line(lines[scroll + k], width),
    )
}

fn head_spans(label: &str, selected: bool) -> (spans: Vec<Span>)
    ensures
        spans_view(spans@) == row_head(label@, selected),
{
    let mut spans: Vec<Span> = Vec::new();
    if selected {
        add_span(&mut spans, "▸ ", Style::of(Color::White));
        add_span(&mut spans, concat2(label, ":  ").as_str(), Style::of(Color::White));
    } else {
        add_span(&mut spans, "  ", Style::of(Color::DarkGray));
        add_span(&mut spans, concat2(label, ":  ").as_str(), Style::of(Color::Gray));
    }
    assert(spans_view(spans@) == row_head(label@, selected));
    spans
}

fn draw_choice(row: &SettingRow, selected: bool) -> (spans: Vec<Span>)
    ensures
        spans_view(spans@) == choice_line(row@, selected),
{
    let mut spans: Vec<Span> = head_spans(row.label, selected);
    if str_eq(row.key, RESET_ALL_KEY) {
        if selected {
            add_span(&mut spans, "(Enter to reset)", Style::of(Color::Red).bold());
        } else {
            add_span(&mut spans, "(Enter to reset)", Style::of(Color::Red).dim());
        }
    } else if row.options.len() == 0 {
        add_span(&mut spans, row.label, Style::of(Color::Red));
    } else {
        let ghost head = row_head(row.label@, selected);
        let ghost options = strs(row.options@);
        let mut j: usize = 0;
        assert(spans_view(spans@) == head + option_spans(options, row.current_idx as int, 0));
        while j < row.options.len()
            invariant
                j <= row.options.len(),
                options == strs(row.options@),
                spans_view(spans@) == head + option_spans(
                    options,
                    row.current_idx as int,
                    j as nat,
                ),
            decreases row.options.len() - j,
        {
            if j > 0 {
                add_span(&mut spans, " / ", Style::of(Color::DarkGray));
            }
            if j == row.current_idx {
                let text: String = concat3("[", row.options[j].as_str(), "]");
                add_span(&mut spans, text.as_str(), Style::of(Color::Cyan).bold());
            } else {
                add_span(&mut spans, row.options[j].as_str(), Style::of(Color::DarkGray));
            }
            assert(options[j as int] == row.options@[j as int]@);
            j += 1;
            assert(spans_view(spans@) == head + option_spans(
                options,
                row.current_idx as int,
                j as nat,
            ));
        }
        if row.modified() {
            add_span(&mut spans, "  *", Style::of(Color::Yellow).bold());
        }
    }
    spans
}

fn draw_text(row: &TextSettingRow, selected: bool, editing: &Option<String>) -> (spans: Vec<Span>)
    ensures
        spans_view(spans@) == text_line(row@, selected, opt_view(*editing)),
{
    let mut spans: Vec<Span> = head_spans(row.label, selected);
    if selected {
        if let Some(text) = editing {
            add_span(&mut spans, text.as_str(), Style::of(Color::Yellow).bold());
            add_span(&mut spans, "█", Style::of(Color::Yellow));
            return spans;
        }
    }
    if row.value.as_str().is_empty() {
        add_span(&mut spans, row.placeholder, Style::of(Color::DarkGray).italic());
    } else {
        add_span(&mut spans, row.value.as_str(), Style::of(Color::Cyan).bold());
        if row.modified() {
            add_span(&mut spans, "  *", Style::of(Color::Yellow).bold());
        }
    }
    spans
}

pub open spec fn opt_view(s: Option<String>) -> Option<Seq<char>> {
    match s {
        Some(t) => Some(t@),
        None => None,
    }
}

proof fn lemma_cut_step(line: Seq<SpanV>, i: int, budget: nat, used: nat)
    requires
        0 <= i < line.len(),
        used <= budget,
    ensures
        cut_line(line.skip(i), (budget - used) as nat) == (if used + line[i].text.len() <= budget {
            seq![line[i]] + cut_line(
                line.skip(i + 1),
                (budget - (used + line[i].text.len())) as nat,
            )
        } else if budget - used > 0 {
            seq![span(line[i].text.take(budget - used), line[i].style)]
        } else {
            Seq::empty()
        }),
{
    assert(line.skip(i).skip(1) == line.skip(i + 1));
}

/// Cuts a line to `max_width` characters.
pub fn truncate_line_to_width(line: Line, max_width: usize) -> (out: Line)
    ensures
        out@ == clip_line(line@, max_width as nat),
{
    let fits: bool = match line.width() {
        Some(w) => w <= max_width,
        None => false,
    };
    if fits {
        return line;
    }
    let budget: usize = crate::text::sat_sub(max_width, 1);
    let ghost all = line@;
    let mut used: usize = 0;
    let mut out: Vec<Span> = Vec::new();
    let mut i: usize = 0;
    assert(all.skip(0) == all);
    assert(spans_view(out@) == Seq::<SpanV>::empty());
    while i < line.spans.len()
        invariant_except_break
            cut_line(all, budget as nat) == spans_view(out@) + cut_line(
                all.skip(i as int),
                (budget - used) as nat,
            ),
        invariant
            i <= line.spans.len(),
            all == line@,
            used <= budget,
        ensures
            cut_line(all, budget as nat) == spans_view(out@),
        decreases line.spans.len() - i,
    {
        let ghost before = spans_view(out@);
        proof {
            lemma_cut_step(all, i as int, budget as nat, used as nat);
        }
        let n: usize = char_count(line.spans[i].text.as_str());
        assert(all[i as int] == line.spans@[i as int]@);
        if n <= budget - used {
            add_span(&mut out, line.spans[i].text.as_str(), line.spans[i].style);
            used = used + n;
            assert(before + (seq![all[i as int]] + cut_line(
                all.skip(i + 1),
                (budget - used) as nat,
            )) == spans_view(out@) + cut_line(all.skip(i + 1), (budget - used) as nat));
        } else {
            let room: usize = budget - used;
            if room > 0 {
                let part: String = take_chars(line.spans[i].text.as_str(), room);
                add_span(&mut out, part.as_str(), line.spans[i].style);
            }
            assert(cut_line(all, budget as nat) == spans_view(out@));
            break;
        }
        i += 1;
        if i == line.spans.len() {
            assert(all.skip(i as int).len() == 0);
            assert(cut_line(all, budget as nat) == spans_view(out@));
        }
    }
    add_span(&mut out, "…", Style::of(Color::DarkGray));
    Line { spans: out }
}

proof fn lemma_focused_line_bound(items: Seq<ItemV>, selected: nat, n: nat)
    requires
        n <= items.len(),
    ensures
        0 <= focused_line(items, selected, n) <= n,
        n > 0 ==> focused_line(items, selected, n) < n,
    decreases n,
{
    if n > 0 && !is_focused(items, n - 1, selected) {
        lemma_focused_line_bound(items, selected, (n - 1) as nat);
    }
}

/// Draws the settings list into `width` × `height` cells: section headers,
/// then one line per row with the focus marker, the choices with the current
/// one in brackets, and `*` where it is not the default.
pub fn render_settings(
    width: usize,
    height: usize,
    config: &AppConfig,
    env: &SettingsEnv,
    selected_row: usize,
    editing_text: &Option<String>,
) -> (window: Vec<Line>)
    ensures
        lines_view(window@) == settings_window(
            setting_items(*config, *env),
            selected_row as nat,
            opt_view(*editing_text),
            width as nat,
            height as nat,
        ),
{
    let items: Vec<SettingItem> = build_settings(config, env);
    let ghost all = items_view(items@);
    let ghost editing = opt_view(*editing_text);
    let mut lines: Vec<Line> = Vec::new();
    let mut row_counter: usize = 0;
    let mut focused: usize = 0;
    let mut i: usize = 0;
    assert(all.take(0) == Seq::<ItemV>::empty());
    let ghost drawn = settings_lines(all, selected_row as nat, editing);
    while i < items.len()
        invariant
            i <= items.len(),
            all == items_view(items@),
            editing == opt_view(*editing_text),
            drawn == settings_lines(all, selected_row as nat, editing),
            row_counter <= i,
            row_counter == focusable(all.take(i as int)).len(),
            focused == focused_line(all, selected_row as nat, i as nat),
            lines_view(lines@) == drawn.take(i as int),
        decreases items.len() - i,
    {
        assert(all.take(i + 1).drop_last() == all.take(i as int));
        assert(all.take(i + 1).last() == items@[i as int]@);
        assert(all[i as int] == items@[i as int]@);
        let selected: bool = row_counter == selected_row;
        match &items[i] {
            SettingItem::Section(name) => {
                let mut spans: Vec<Span> = Vec::new();
                let text: String = concat3("── ", name, " ──");
                add_span(&mut spans, text.as_str(), Style::of(Color::DarkGray).bold());
                assert(spans_view(spans@) == drawn[i as int]);
                add_line(&mut lines, spans);
            },
            SettingItem::Row(row) => {
                if selected {
                    focused = i;
                }
                row_counter += 1;
                add_line(&mut lines, draw_choice(row, selected));
            },
            SettingItem::TextRow(row) => {
                if selected {
                    focused = i;
                }
                row_counter += 1;
                add_line(&mut lines, draw_text(row, selected, editing_text));
            },
        }
        assert(drawn.take(i + 1) == drawn.take(i as int).push(drawn[i as int]));
        i += 1;
    }
    assert(drawn.take(i as int) == drawn);
    proof {
        lemma_focused_line_bound(all, selected_row as nat, all.len());
    }
    let scroll: usize = if height > 0 && focused >= height {
        focused - (height - 1)
    } else {
        0
    };
    let ghost full = settings_window(
        all,
        selected_row as nat,
        editing,
        width as nat,
        height as nat,
    );
    let mut window: Vec<Line> = Vec::new();
    let mut rest: Vec<Line> = lines.split_off(scroll);
    let mut k: usize = 0;
    let n: usize = if rest.len() < height {
        rest.len()
    } else {
        height
    };
    let ghost tail = rest@;
    assert forall|m: int| 0 <= m < tail.len() implies #[trigger] tail[m]@ == drawn[scroll + m] by {
        assert(drawn[scroll + m] == lines_view(lines@ + tail)[scroll + m]);
    }
    for line in it: rest
        invariant
            tail == it.seq(),
            n == full.len(),
            k == crate::text::min_of(n as int, it.index() as int),
            full.len() <= tail.len(),
            forall|m: int|
                0 <= m < full.len() ==> #[trigger] full[m] == clip_line(tail[m]@, width as nat),
            lines_view(window@) == full.take(k as int),
    {
        if k < n {
            let clipped: Line = truncate_line_to_width(line, width);
            assert(clipped@ == full[k as int]);
            window.push(clipped);
            assert(lines_view(window@) == full.take(k as int).push(full[k as int]));
            assert(full.take(k + 1) == full.take(k as int).push(full[k as int]));
            k += 1;
        }
    }
    assert(full.take(k as int) == full);
    window
}

} // verus!
