//! How the rules editor is drawn.
use crate::rules::{choices_view, Action, ActionV, Condition, ConditionV, Rule, RuleV};
use crate::rules_editor::{
    action_choices, action_kind_idx, choices_of, condition_field_idx, condition_value_str,
    field_index, kind_index, value_text, EditState, EditV, EditorV, Focus, Mode, ModeV,
    RulesEditor, ACTION_KINDS, CONDITION_FIELDS,
};
use crate::style::{
    add_line, add_span, add_text_line, lines_view, span, spans_view, Color, Line, Span, SpanV,
    Style,
};
use crate::text::{
    concat2, concat3, decimal, join_strs, joined, min_of, pad_left, pad_right, padded_left,
    padded_right, round_div, rounded_div, str_eq, strs, wide_decimal_str,
};
use vstd::prelude::*;
use vstd::string::*;

verus! {

pub open spec fn condition_text(c: ConditionV) -> Seq<char> {
    let i = field_index(c);
    if i == 0 {
        "(any)"@
    } else {
        let v = value_text(c, i);
        CONDITION_FIELDS@[i]@ + " "@ + (if v.len() == 0 {
            "—"@
        } else {
            v
        })
    }
}

/// The first field of a condition and its value.
pub fn describe_condition(c: &Condition) -> (s: String)
    ensures
        s@ == condition_text(c@),
{
    let i: usize = condition_field_idx(c);
    if i == 0 {
        return "(any)".to_owned();
    }
    let v: String = condition_value_str(c, i);
    if v.as_str().is_empty() {
        concat3(CONDITION_FIELDS[i], " ", "—")
    } else {
        concat3(CONDITION_FIELDS[i], " ", v.as_str())
    }
}

/// The sum of the positive weights.
pub open spec fn total_weight(choices: Seq<(Seq<char>, i64)>) -> nat
    decreases choices.len(),
{
    if choices.len() == 0 {
        0
    } else {
        total_weight(choices.drop_last()) + (if choices.last().1 > 0 {
            choices.last().1 as nat
        } else {
            0
        })
    }
}

/// A share in percent, rounded to a whole number.
pub open spec fn percent_text(w: i64, scale: nat, total: nat) -> Seq<char> {
    let m = (if w < 0 {
        -w
    } else {
        w as int
    }) as nat;
    let q = round_div(m * scale, total);
    if w < 0 {
        "-"@ + decimal(q)
    } else {
        decimal(q)
    }
}

/// The largest number of choices a list can hold, times the largest weight.
const TOTAL_BOUND: u128 = 0x8000_0000_0000_0000_0000_0000_0000_0000;

fn sum_weights(choices: &Vec<(String, i64)>) -> (t: u128)
    ensures
        t == total_weight(choices_view(choices@)),
        t < TOTAL_BOUND,
{
    let ghost all = choices_view(choices@);
    let mut t: u128 = 0;
    let mut i: usize = 0;
    assert(all.take(0) == Seq::<(Seq<char>, i64)>::empty());
    while i < choices.len()
        invariant
            i <= choices.len(),
            all == choices_view(choices@),
            t == total_weight(all.take(i as int)),
            t <= i * 0x7fff_ffff_ffff_ffff,
        decreases choices.len() - i,
    {
        assert(all.take(i + 1).drop_last() == all.take(i as int));
        assert(all.take(i + 1).last() == (choices@[i as int].0@, choices@[i as int].1));
        if choices[i].1 > 0 {
            t = t + choices[i].1 as u128;
        }
        i += 1;
    }
    assert(all.take(i as int) == all);
    t
}

fn magnitude(w: i64) -> (m: u128)
    ensures
        m == if w < 0 {
            -w
        } else {
            w as int
        },
{
    if w < 0 {
        (-(w as i128)) as u128
    } else {
        w as u128
    }
}

/// The percentage of a weight, `scale` times the weight over the total.
fn percent_str(w: i64, scale: u64, total: u128) -> (s: String)
    requires
        total > 0,
        scale <= 1_000_000_000,
    ensures
        s@ == percent_text(w, scale as nat, total as nat),
{
    let m: u128 = magnitude(w);
    assert(m * scale <= 0x8000_0000_0000_0000 * 1_000_000_000) by (nonlinear_arith)
        requires
            m <= 0x8000_0000_0000_0000,
            scale <= 1_000_000_000,
    ;
    let q: u128 = rounded_div(m * scale as u128, total);
    let text: String = wide_decimal_str(q);
    if w < 0 {
        concat2("-", text.as_str())
    } else {
        text
    }
}

/// The total the shares in the list are taken of: one where nothing weighs.
pub open spec fn share_total(choices: Seq<(Seq<char>, i64)>) -> nat {
    if total_weight(choices) > 0 {
        total_weight(choices)
    } else {
        100
    }
}

pub open spec fn share_parts(w: Seq<(Seq<char>, i64)>) -> Seq<Seq<char>> {
    Seq::new(
        w.len(),
        |i: int| w[i].0 + " "@ + percent_text(w[i].1, 100, share_total(w)) + "%"@,
    )
}

pub open spec fn action_text(a: ActionV) -> Seq<char> {
    match a {
        ActionV::Force(s) => s,
        ActionV::Cycle(names) => "cycle["@ + joined(names, ", "@) + "]"@,
        ActionV::Weighted(w) => "weighted["@ + joined(share_parts(w), ", "@) + "]"@,
        ActionV::Skip(_) => "skip"@,
    }
}

/// An action in one line; weights as percentages of their sum.
pub fn describe_action(a: &Action) -> (s: String)
    ensures
        s@ == action_text(a@),
{
    match a {
        Action::Force(s) => s.clone(),
        Action::Cycle { cycle } => concat3("cycle[", join_strs(cycle, ", ").as_str(), "]"),
        Action::Weighted { weighted } => {
            let sum: u128 = sum_weights(weighted);
            let total: u128 = if sum > 0 {
                sum
            } else {
                100
            };
            let ghost w = choices_view(weighted@);
            let ghost all = share_parts(w);
            let mut parts: Vec<String> = Vec::new();
            let mut i: usize = 0;
            while i < weighted.len()
                invariant
                    i <= weighted.len(),
                    w == choices_view(weighted@),
                    all == share_parts(w),
                    total == share_total(w),
                    total > 0,
                    strs(parts@) == all.take(i as int),
                decreases weighted.len() - i,
            {
                let ghost before = strs(parts@);
                let mut part: String = concat2(weighted[i].0.as_str(), " ");
                part.append(percent_str(weighted[i].1, 100, total).as_str());
                part.append("%");
                assert(part@ == all[i as int]);
                parts.push(part);
                i += 1;
                assert(strs(parts@) == before.push(all[i - 1]));
                assert(all.take(i as int) == all.take(i - 1).push(all[i - 1]));
            }
            assert(all.take(i as int) == all);
            concat3("weighted[", join_strs(&parts, ", ").as_str(), "]")
        },
        Action::Skip { .. } => "skip".to_owned(),
    }
}

/// The style of whatever is selected.
pub open spec fn selected_style() -> Style {
    Style::of(Color::Black).on(Color::Yellow).bold()
}

fn selected_look() -> (s: Style)
    ensures
        s == selected_style(),
{
    Style::of(Color::Black).on(Color::Yellow).bold()
}

pub open spec fn marker(selected: bool) -> Seq<char> {
    if selected {
        "▸ "@
    } else {
        "  "@
    }
}

/// The line of one rule in the list.
pub open spec fn rule_line(i: int, rule: RuleV, selected: bool) -> Seq<SpanV> {
    seq![
        span(
            marker(selected) + pad_left(decimal((i + 1) as nat), 2) + ". when  "@ + pad_right(
                condition_text(rule.when),
                45,
            ) + "  →  "@ + action_text(rule.action),
            if selected {
                selected_style()
            } else {
                Style::of(Color::Gray)
            },
        ),
    ]
}

/// The lines of the list of rules.
pub open spec fn list_lines(e: EditorV) -> Seq<Seq<SpanV>> {
    let n = e.rules.len();
    let dim = Style::of(Color::DarkGray);
    let head = seq![
        seq![span("Rules evaluate top-down; first match wins."@, dim)],
        seq![span(""@, Style::plain())],
    ];
    let rules = Seq::new(n, |i: int| rule_line(i, e.rules[i], i == e.selected));
    let tail = seq![
        seq![span(""@, Style::plain())],
        seq![
            span(
                marker(e.selected == n)
                    + "Default                                                  →  "@ + e.default,
                if e.selected == n {
                    selected_style()
                } else {
                    Style::of(Color::Cyan)
                },
            ),
        ],
        seq![span(""@, Style::plain())],
        seq![
            span(
                "  [↑↓] select  [Enter] edit  [i] insert  [D] del  [{/}] reorder  [Z] smart defaults  [Esc] save+close"@,
                dim,
            ),
        ],
    ];
    let unsaved = if e.dirty {
        seq![seq![span("  (unsaved changes — Esc to save)"@, Style::of(Color::Yellow))]]
    } else {
        Seq::empty()
    };
    head + rules + tail + unsaved
}

fn draw_rule(i: usize, rule: &Rule, selected: bool) -> (spans: Vec<Span>)
    ensures
        spans_view(spans@) == rule_line(i as int, rule@, selected),
{
    let mut text: String = if selected {
        "▸ ".to_owned()
    } else {
        "  ".to_owned()
    };
    let number: String = wide_decimal_str(i as u128 + 1);
    text.append(padded_left(number.as_str(), 2).as_str());
    text.append(". when  ");
    text.append(padded_right(describe_condition(&rule.when).as_str(), 45).as_str());
    text.append("  →  ");
    text.append(describe_action(&rule.action).as_str());
    let mut spans: Vec<Span> = Vec::new();
    if selected {
        add_span(&mut spans, text.as_str(), selected_look());
    } else {
        add_span(&mut spans, text.as_str(), Style::of(Color::Gray));
    }
    assert(spans_view(spans@) == rule_line(i as int, rule@, selected));
    spans
}

fn render_list(editor: &RulesEditor) -> (lines: Vec<Line>)
    ensures
        lines_view(lines@) == list_lines(editor@),
{
    let dim: Style = Style::of(Color::DarkGray);
    let mut lines: Vec<Line> = Vec::new();
    add_text_line(&mut lines, "Rules evaluate top-down; first match wins.", dim);
    add_text_line(&mut lines, "", Style::plain());
    let ghost head = lines_view(lines@);
    let n: usize = editor.config.rules.len();
    let ghost e = editor@;
    let ghost rules = Seq::new(
        e.rules.len(),
        |i: int| rule_line(i, e.rules[i], i == e.selected),
    );
    assert(head == head + rules.take(0));
    let mut i: usize = 0;
    while i < n
        invariant
            i <= n,
            n == editor.config.rules.len(),
            e == editor@,
            rules == Seq::new(
                e.rules.len(),
                |i: int| rule_line(i, e.rules[i], i == e.selected),
            ),
            lines_view(lines@) == head + rules.take(i as int),
        decreases n - i,
    {
        let spans: Vec<Span> = draw_rule(i, &editor.config.rules[i], i == editor.selected);
        assert(spans_view(spans@) == rules[i as int]);
        add_line(&mut lines, spans);
        i += 1;
        assert(head + rules.take(i as int) == (head + rules.take(i - 1)).push(rules[i - 1]));
    }
    assert(rules.take(i as int) == rules);
    add_text_line(&mut lines, "", Style::plain());
    let default_selected: bool = editor.selected == n;
    let mut text: String = if default_selected {
        "▸ ".to_owned()
    } else {
        "  ".to_owned()
    };
    text.append("Default                                                  →  ");
    text.append(editor.config.default.as_str());
    if default_selected {
        add_text_line(&mut lines, text.as_str(), selected_look());
    } else {
        add_text_line(&mut lines, text.as_str(), Style::of(Color::Cyan));
    }
    add_text_line(&mut lines, "", Style::plain());
    add_text_line(
        &mut lines,
        "  [↑↓] select  [Enter] edit  [i] insert  [D] del  [{/}] reorder  [Z] smart defaults  [Esc] save+close",
        dim,
    );
    if editor.dirty {
        add_text_line(
            &mut lines,
            "  (unsaved changes — Esc to save)",
            Style::of(Color::Yellow),
        );
    }
    assert(lines_view(lines@) == list_lines(e));
    lines
}

/// The eight bars of a volume curve, from low to high.
pub const GLYPHS: [char; 8] = ['▁', '▂', '▃', '▄', '▅', '▆', '▇', '█'];

/// Full volume, in millionths.
pub const FULL: u64 = 1_000_000;

/// The bar of a level: an eighth of the way up for each seventh reached.
pub open spec fn bar_of(level: u64) -> char {
    GLYPHS@[min_of(level as int, FULL as int) * 7 / FULL as int]
}

pub open spec fn bars(levels: Seq<u64>) -> Seq<char> {
    Seq::new(levels.len(), |i: int| bar_of(levels[i]))
}

fn draw_bars(levels: &Vec<u64>) -> (s: String)
    ensures
        s@ == bars(levels@),
{
    let mut s: String = String::new();
    let mut i: usize = 0;
    while i < levels.len()
        invariant
            i <= levels.len(),
            s@ == bars(levels@).take(i as int),
        decreases levels.len() - i,
    {
        let level: u64 = if levels[i] < FULL {
            levels[i]
        } else {
            FULL
        };
        let b: usize = (level * 7 / FULL) as usize;
        s.push(GLYPHS[b]);
        i += 1;
        assert(bars(levels@).take(i as int) == bars(levels@).take(i - 1).push(
            bars(levels@)[i - 1],
        ));
    }
    assert(bars(levels@).take(i as int) == bars(levels@));
    s
}

/// A transition of that name exists.
pub open spec fn is_transition(name: Seq<char>) -> bool {
    name == "BeatMatched"@ || name == "EchoOut"@ || name == "BassSwap"@ || name == "FilterSweep"@
        || name == "LoopRoll"@
}

/// The volume curves of a transition as two rows of bars, for the playing and
/// for the incoming deck, from their levels in millionths; nothing for an
/// unknown transition.
pub fn volume_curves(name: &str, playing: &Vec<u64>, incoming: &Vec<u64>) -> (r: Option<
    (String, String),
>)
    ensures
        match r {
            Some((p, i)) => is_transition(name@) && p@ == bars(playing@) && i@ == bars(incoming@),
            None => !is_transition(name@),
        },
{
    if str_eq(name, "BeatMatched") || str_eq(name, "EchoOut") || str_eq(name, "BassSwap") || str_eq(
        name,
        "FilterSweep",
    ) || str_eq(name, "LoopRoll") {
        Some((draw_bars(playing), draw_bars(incoming)))
    } else {
        None
    }
}

/// The transition whose curves the form previews: the first choice.
pub open spec fn previewed(a: ActionV) -> Option<Seq<char>> {
    match a {
        ActionV::Force(s) => Some(s),
        ActionV::Cycle(names) => if names.len() > 0 {
            Some(names[0])
        } else {
            None
        },
        ActionV::Weighted(w) => if w.len() > 0 {
            Some(w[0].0)
        } else {
            None
        },
        ActionV::Skip(_) => None,
    }
}

pub fn preview_name(a: &Action) -> (r: Option<String>)
    ensures
        match r {
            Some(s) => previewed(a@) == Some(s@),
            None => previewed(a@) is None,
        },
{
    match a {
        Action::Force(s) => Some(s.clone()),
        Action::Cycle { cycle } => if cycle.len() > 0 {
            assert(strs(cycle@)[0] == cycle@[0]@);
            Some(cycle[0].clone())
        } else {
            None
        },
        Action::Weighted { weighted } => if weighted.len() > 0 {
            assert(choices_view(weighted@)[0] == (weighted@[0].0@, weighted@[0].1));
            Some(weighted[0].0.clone())
        } else {
            None
        },
        Action::Skip { .. } => None,
    }
}

/// A field of the form, highlighted where its pane has the focus.
pub open spec fn field_span(text: Seq<char>, on: bool) -> SpanV {
    span(
        "[ "@ + text + " ]"@,
        if on {
            selected_style()
        } else {
            Style::of(Color::Cyan)
        },
    )
}

pub open spec fn pane_title(name: Seq<char>, on: bool) -> Seq<SpanV> {
    seq![
        span(
            "  "@ + marker(on) + name,
            Style::of(
                if on {
                    Color::Yellow
                } else {
                    Color::Gray
                },
            ).bold(),
        ),
    ]
}

/// The lines of the condition pane.
pub open spec fn when_lines(s: EditV) -> Seq<Seq<SpanV>> {
    let on = s.focus == Focus::When;
    let field = field_index(s.rule.when);
    let value = value_text(s.rule.when, field);
    seq![
        pane_title("When:"@, on),
        seq![
            span("      Field:   "@, Style::plain()),
            field_span(CONDITION_FIELDS@[field]@, on),
        ],
        seq![
            span("      Value:   "@, Style::plain()),
            span(
                if value.len() == 0 {
                    "—"@
                } else {
                    "[ "@ + value + " ]"@
                },
                Style::of(
                    if on {
                        Color::Yellow
                    } else {
                        Color::Gray
                    },
                ),
            ),
        ],
        seq![span(""@, Style::plain())],
    ]
}

/// One choice of a cycle or weighted action, with its share of the weights.
pub open spec fn choice_line(
    choice: (Seq<char>, i64),
    weighted: bool,
    total: nat,
    selected: bool,
) -> Seq<SpanV> {
    let share = if total > 0 {
        percent_text(choice.1, 100, total)
    } else {
        percent_text(choice.1, 1_000_000_000, 1)
    };
    seq![
        span(
            "        "@ + (if selected {
                "▸"@
            } else {
                " "@
            }) + " "@ + pad_right(choice.0, 14) + (if weighted {
                "  "@ + pad_left(share, 3) + " %"@
            } else {
                ""@
            }),
            if selected {
                selected_style()
            } else {
                Style::of(Color::Gray)
            },
        ),
    ]
}

/// The lines of the choices of an action.
pub open spec fn choices_lines(s: EditV) -> Seq<Seq<SpanV>> {
    let on = s.focus == Focus::List;
    let choices = choices_of(s.rule.action);
    match s.rule.action {
        ActionV::Force(name) => seq![
            seq![span("      Pick:   "@, Style::plain()), field_span(name, on)],
        ],
        _ => seq![seq![span("      Choices:"@, Style::plain())]] + Seq::new(
            choices.len(),
            |i: int|
                choice_line(
                    choices[i],
                    s.rule.action is Weighted,
                    total_weight(choices),
                    on && i == s.action_selected,
                ),
        ),
    }
}

/// The preview of the first choice, where there is one and its curves are
/// known.
pub open spec fn preview_lines(a: ActionV, curves: Option<(Seq<char>, Seq<char>)>) -> Seq<
    Seq<SpanV>,
> {
    match (previewed(a), curves) {
        (Some(name), Some((playing, incoming))) => seq![
            seq![span("      Preview ("@ + name + "):"@, Style::of(Color::DarkGray))],
            seq![
                span("        playing  "@, Style::plain()),
                span(playing, Style::of(Color::Cyan)),
            ],
            seq![
                span("        incoming "@, Style::plain()),
                span(incoming, Style::of(Color::Magenta)),
            ],
        ],
        _ => Seq::empty(),
    }
}

/// The lines of the form.
pub open spec fn edit_lines(s: EditV, curves: Option<(Seq<char>, Seq<char>)>) -> Seq<Seq<SpanV>> {
    let title = match s.idx {
        Some(i) => "Edit Rule "@ + decimal((i + 1) as nat),
        None => "New Rule"@,
    };
    let blank = seq![span(""@, Style::plain())];
    let on = s.focus == Focus::Then || s.focus == Focus::List;
    seq![seq![span(title, Style::of(Color::White).bold())], blank] + when_lines(s) + seq![
        pane_title("Then:"@, on),
        seq![
            span("      Kind:   "@, Style::plain()),
            field_span(ACTION_KINDS@[kind_index(s.rule.action)]@, s.focus == Focus::Then),
        ],
    ] + choices_lines(s) + seq![blank] + preview_lines(s.rule.action, curves) + seq![
        blank,
        seq![
            span(
                "  [Tab] switch pane   [←→] cycle field/value/kind   [↑↓] choice   [+] add   [D] remove   [Enter] save   [Esc] cancel"@,
                Style::of(Color::DarkGray),
            ),
        ],
    ]
}

fn add_field(spans: &mut Vec<Span>, text: &str, on: bool)
    ensures
        spans_view(final(spans)@) == spans_view(old(spans)@).push(field_span(text@, on)),
{
    let boxed: String = concat3("[ ", text, " ]");
    if on {
        add_span(spans, boxed.as_str(), selected_look());
    } else {
        add_span(spans, boxed.as_str(), Style::of(Color::Cyan));
    }
}

fn add_pane_title(lines: &mut Vec<Line>, name: &str, on: bool)
    ensures
        lines_view(final(lines)@) == lines_view(old(lines)@).push(pane_title(name@, on)),
{
    if on {
        let text: String = concat3("  ", "▸ ", name);
        add_text_line(lines, text.as_str(), Style::of(Color::Yellow).bold());
    } else {
        let text: String = concat3("  ", "  ", name);
        add_text_line(lines, text.as_str(), Style::of(Color::Gray).bold());
    }
}

fn draw_when(lines: &mut Vec<Line>, s: &EditState)
    ensures
        lines_view(final(lines)@) == lines_view(old(lines)@) + when_lines(s@),
{
    let on: bool = match s.focus {
        Focus::When => true,
        _ => false,
    };
    let field: usize = condition_field_idx(&s.rule.when);
    let value: String = condition_value_str(&s.rule.when, field);
    add_pane_title(lines, "When:", on);
    let mut spans: Vec<Span> = Vec::new();
    add_span(&mut spans, "      Field:   ", Style::plain());
    add_field(&mut spans, CONDITION_FIELDS[field], on);
    assert(spans_view(spans@) == when_lines(s@)[1]);
    add_line(lines, spans);
    let mut spans: Vec<Span> = Vec::new();
    add_span(&mut spans, "      Value:   ", Style::plain());
    let look: Style = if on {
        Style::of(Color::Yellow)
    } else {
        Style::of(Color::Gray)
    };
    if value.as_str().is_empty() {
        add_span(&mut spans, "—", look);
    } else {
        add_span(&mut spans, concat3("[ ", value.as_str(), " ]").as_str(), look);
    }
    assert(spans_view(spans@) == when_lines(s@)[2]);
    add_line(lines, spans);
    add_text_line(lines, "", Style::plain());
    assert(lines_view(lines@) == lines_view(old(lines)@) + when_lines(s@));
}

fn draw_choice(
    lines: &mut Vec<Line>,
    name: &str,
    weight: i64,
    weighted: bool,
    total: u128,
    selected: bool,
)
    ensures
        lines_view(final(lines)@) == lines_view(old(lines)@).push(
            choice_line((name@, weight), weighted, total as nat, selected),
        ),
{
    let mut row: String = "        ".to_owned();
    if selected {
        row.append("▸");
    } else {
        row.append(" ");
    }
    row.append(" ");
    row.append(padded_right(name, 14).as_str());
    let tail: String = if weighted {
        let share: String = if total > 0 {
            percent_str(weight, 100, total)
        } else {
            percent_str(weight, 1_000_000_000, 1)
        };
        concat3("  ", padded_left(share.as_str(), 3).as_str(), " %")
    } else {
        "".to_owned()
    };
    row.append(tail.as_str());
    if selected {
        add_text_line(lines, row.as_str(), selected_look());
    } else {
        add_text_line(lines, row.as_str(), Style::of(Color::Gray));
    }
}

fn draw_choices(lines: &mut Vec<Line>, s: &EditState)
    ensures
        lines_view(final(lines)@) == lines_view(old(lines)@) + choices_lines(s@),
{
    let on: bool = match s.focus {
        Focus::List => true,
        _ => false,
    };
    if let Action::Force(name) = &s.rule.action {
        let mut spans: Vec<Span> = Vec::new();
        add_span(&mut spans, "      Pick:   ", Style::plain());
        add_field(&mut spans, name.as_str(), on);
        assert(spans_view(spans@) == choices_lines(s@)[0]);
        add_line(lines, spans);
        assert(lines_view(lines@) == lines_view(old(lines)@) + choices_lines(s@));
        return;
    }
    let weighted: bool = match &s.rule.action {
        Action::Weighted { .. } => true,
        _ => false,
    };
    let choices: Vec<(String, i64)> = action_choices(&s.rule.action);
    let total: u128 = sum_weights(&choices);
    add_text_line(lines, "      Choices:", Style::plain());
    let ghost all = choices_lines(s@);
    let ghost base = lines_view(old(lines)@);
    assert(lines_view(lines@) == base + all.take(1));
    let mut i: usize = 0;
    while i < choices.len()
        invariant
            i <= choices.len(),
            choices_view(choices@) == choices_of(s@.rule.action),
            total == total_weight(choices_view(choices@)),
            weighted == (s@.rule.action is Weighted),
            on == (s@.focus == Focus::List),
            !(s@.rule.action is Force),
            all == choices_lines(s@),
            all.len() == choices.len() + 1,
            lines_view(lines@) == base + all.take(i + 1),
        decreases choices.len() - i,
    {
        let selected: bool = on && i == s.action_selected;
        assert(choices_view(choices@)[i as int] == (choices@[i as int].0@, choices@[i as int].1));
        draw_choice(lines, choices[i].0.as_str(), choices[i].1, weighted, total, selected);
        i += 1;
        assert(all[i as int] == choice_line(
            choices_view(choices@)[i - 1],
            weighted,
            total as nat,
            selected,
        ));
        assert(base + all.take(i + 1) == (base + all.take(i as int)).push(all[i as int]));
    }
    assert(all.take(i + 1) == all);
}

fn draw_preview(lines: &mut Vec<Line>, a: &Action, curves: &Option<(String, String)>)
    ensures
        lines_view(final(lines)@) == lines_view(old(lines)@) + preview_lines(
            a@,
            curves_view(*curves),
        ),
{
    if let Some(name) = preview_name(a) {
        if let Some((playing, incoming)) = curves {
            let ghost all = preview_lines(a@, curves_view(*curves));
            let title: String = concat3("      Preview (", name.as_str(), "):");
            add_text_line(lines, title.as_str(), Style::of(Color::DarkGray));
            let mut spans: Vec<Span> = Vec::new();
            add_span(&mut spans, "        playing  ", Style::plain());
            add_span(&mut spans, playing.as_str(), Style::of(Color::Cyan));
            assert(spans_view(spans@) == all[1]);
            add_line(lines, spans);
            let mut spans: Vec<Span> = Vec::new();
            add_span(&mut spans, "        incoming ", Style::plain());
            add_span(&mut spans, incoming.as_str(), Style::of(Color::Magenta));
            assert(spans_view(spans@) == all[2]);
            add_line(lines, spans);
            assert(lines_view(lines@) == lines_view(old(lines)@) + all);
            return;
        }
    }
    assert(lines_view(lines@) == lines_view(old(lines)@) + Seq::<Seq<SpanV>>::empty());
}

pub open spec fn curves_view(c: Option<(String, String)>) -> Option<(Seq<char>, Seq<char>)> {
    match c {
        Some((p, i)) => Some((p@, i@)),
        None => None,
    }
}

fn render_edit(s: &EditState, curves: &Option<(String, String)>) -> (lines: Vec<Line>)
    ensures
        lines_view(lines@) == edit_lines(s@, curves_view(*curves)),
{
    let mut lines: Vec<Line> = Vec::new();
    let title: String = match s.idx {
        Some(i) => concat2("Edit Rule ", wide_decimal_str(i as u128 + 1).as_str()),
        None => "New Rule".to_owned(),
    };
    add_text_line(&mut lines, title.as_str(), Style::of(Color::White).bold());
    add_text_line(&mut lines, "", Style::plain());
    draw_when(&mut lines, s);
    let ghost first = lines_view(lines@);
    let then_on: bool = match s.focus {
        Focus::Then => true,
        _ => false,
    };
    let on: bool = match s.focus {
        Focus::When => false,
        _ => true,
    };
    add_pane_title(&mut lines, "Then:", on);
    let mut spans: Vec<Span> = Vec::new();
    add_span(&mut spans, "      Kind:   ", Style::plain());
    add_field(&mut spans, ACTION_KINDS[action_kind_idx(&s.rule.action)], then_on);
    let ghost kind = spans_view(spans@);
    assert(kind == seq![
        span("      Kind:   "@, Style::plain()),
        field_span(ACTION_KINDS@[kind_index(s@.rule.action)]@, then_on),
    ]);
    add_line(&mut lines, spans);
    assert(lines_view(lines@) == first + seq![pane_title("Then:"@, on), kind]);
    draw_choices(&mut lines, s);
    add_text_line(&mut lines, "", Style::plain());
    draw_preview(&mut lines, &s.rule.action, curves);
    add_text_line(&mut lines, "", Style::plain());
    add_text_line(
        &mut lines,
        "  [Tab] switch pane   [←→] cycle field/value/kind   [↑↓] choice   [+] add   [D] remove   [Enter] save   [Esc] cancel",
        Style::of(Color::DarkGray),
    );
    assert(lines_view(lines@) == edit_lines(s@, curves_view(*curves)));
    lines
}

/// Draws the editor: the list of rules, or the form with the curves of the
/// previewed transition.
pub fn render(editor: &RulesEditor, curves: &Option<(String, String)>) -> (lines: Vec<Line>)
    ensures
        lines_view(lines@) == (match editor@.mode {
            ModeV::List => list_lines(editor@),
            ModeV::Edit(s) => edit_lines(s, curves_view(*curves)),
        }),
{
    match &editor.mode {
        Mode::List => render_list(editor),
        Mode::Edit(s) => render_edit(s, curves),
    }
}

} // verus!
