//! The MIDI learn screen: what was captured, the actions to bind it to, and the
//! bindings so far.
use crate::style::{
    add_line, add_span, add_text_line, lines_view, span, spans_view, Color, Line, Span, SpanV,
    Style,
};
use crate::text::{concat2, concat3, decimal, decimal_str, max_of, min_of};
use vstd::prelude::*;
use vstd::string::*;

verus! {

/// Something of the mixer that a MIDI control can be bound to.
#[derive(Debug, Clone, Copy, PartialEq, Eq, Structural)]
pub enum Action {
    Crossfader,
    ChannelFader { is_a: bool },
    Tempo { is_a: bool },
    EqLow { is_a: bool },
    EqMid { is_a: bool },
    EqHigh { is_a: bool },
    Filter { is_a: bool },
    Cue { is_a: bool, slot: u8 },
    CueSet { is_a: bool, slot: u8 },
    PlayPauseDeck { is_a: bool },
    JumpBarsDeck { is_a: bool, bars: i32 },
    NudgeDeck { is_a: bool, direction: i32 },
}

/// How many actions can be bound.
pub fn action_count(actions: &Vec<Action>) -> (n: usize)
    ensures
        n == actions@.len(),
{
    actions.len()
}

/// The action at an index; `None` out of bounds.
pub fn action_at(actions: &Vec<Action>, index: usize) -> (r: Option<Action>)
    ensures
        r == (if index < actions@.len() {
            Some(actions@[index as int])
        } else {
            None
        }),
{
    if index < actions.len() {
        Some(actions[index])
    } else {
        None
    }
}

/// An action as the picker shows it, with the control bound to it.
pub struct ActionRow {
    pub label: String,
    pub event: Option<String>,
}

/// How many of the first `n` actions are bound.
pub open spec fn bound_among(rows: Seq<ActionRow>, n: nat) -> nat
    decreases n,
{
    if n == 0 {
        0
    } else {
        bound_among(rows, (n - 1) as nat) + (if rows[n - 1].event is Some {
            1nat
        } else {
            0
        })
    }
}

/// The three lines about what was captured.
pub open spec fn captured_lines(
    captured: Option<Seq<char>>,
    value: u32,
    bound: nat,
    total: nat,
) -> Seq<Seq<SpanV>> {
    seq![
        seq![
            span(
                match captured {
                    Some(ev) => "Captured: "@ + ev + " = "@ + decimal(value as nat),
                    None => "Captured: (touch a control on your MIDI device)"@,
                },
                Style::of(Color::Yellow).bold(),
            ),
        ],
        seq![
            span(
                "Bound: "@ + decimal(bound) + "/"@ + decimal(total) + "    Unmapped: "@ + decimal(
                    (total - bound) as nat,
                ),
                Style::of(
                    if bound == total {
                        Color::Green
                    } else {
                        Color::Yellow
                    },
                ),
            ),
        ],
        seq![
            span(
                "Pick an action ↑↓, Enter binds, U unbinds, Esc closes"@,
                Style::of(Color::DarkGray),
            ),
        ],
    ]
}

/// A row of the action picker.
pub open spec fn action_line(row: ActionRow) -> Seq<SpanV> {
    let color = if row.event is Some {
        Color::Green
    } else {
        Color::DarkGray
    };
    seq![
        span(
            (if row.event is Some {
                "✓"@
            } else {
                "○"@
            }) + " "@,
            Style::of(color),
        ),
        span(row.label@, Style::plain()),
        span(
            match row.event {
                Some(ev) => "    ["@ + ev@ + "]"@,
                None => ""@,
            },
            Style::of(Color::DarkGray),
        ),
    ]
}

/// The lines about the bindings: control and action.
pub open spec fn binding_lines(bindings: Seq<(String, String)>) -> Seq<Seq<SpanV>> {
    if bindings.len() == 0 {
        seq![
            seq![
                span(
                    "No bindings yet. Touch a control + pick an action to start."@,
                    Style::of(Color::DarkGray),
                ),
            ],
        ]
    } else {
        Seq::new(
            bindings.len(),
            |i: int|
                seq![
                    span(
                        "  "@ + bindings[i].0@ + "  →  "@ + bindings[i].1@,
                        Style::plain(),
                    ),
                ],
        )
    }
}

/// The screen: its three panes, the row of the picker that has the cursor, and
/// the height of the pane with the bindings.
pub struct LearnScreen {
    pub captured: Vec<Line>,
    pub actions: Vec<Line>,
    pub bindings: Vec<Line>,
    pub cursor: usize,
    pub bindings_height: u16,
}

fn count_bound(rows: &Vec<ActionRow>) -> (n: usize)
    ensures
        n == bound_among(rows@, rows@.len()),
        n <= rows@.len(),
{
    let mut n: usize = 0;
    let mut i: usize = 0;
    while i < rows.len()
        invariant
            i <= rows.len(),
            n <= i,
            n == bound_among(rows@, i as nat),
        decreases rows.len() - i,
    {
        if rows[i].event.is_some() {
            n += 1;
        }
        i += 1;
    }
    n
}

fn draw_actions(rows: &Vec<ActionRow>) -> (lines: Vec<Line>)
    ensures
        lines_view(lines@) == Seq::new(rows@.len(), |i: int| action_line(rows@[i])),
{
    let ghost all = Seq::new(rows@.len(), |i: int| action_line(rows@[i]));
    let mut lines: Vec<Line> = Vec::new();
    let mut i: usize = 0;
    while i < rows.len()
        invariant
            i <= rows.len(),
            all == Seq::new(rows@.len(), |i: int| action_line(rows@[i])),
            lines_view(lines@) == all.take(i as int),
        decreases rows.len() - i,
    {
        let row: &ActionRow = &rows[i];
        let mut spans: Vec<Span> = Vec::new();
        match &row.event {
            Some(ev) => {
                add_span(&mut spans, concat2("✓", " ").as_str(), Style::of(Color::Green));
                add_span(&mut spans, row.label.as_str(), Style::plain());
                let tail: String = concat3("    [", ev.as_str(), "]");
                add_span(&mut spans, tail.as_str(), Style::of(Color::DarkGray));
            },
            None => {
                add_span(&mut spans, concat2("○", " ").as_str(), Style::of(Color::DarkGray));
                add_span(&mut spans, row.label.as_str(), Style::plain());
                add_span(&mut spans, "", Style::of(Color::DarkGray));
            },
        }
        assert(spans_view(spans@) == all[i as int]);
        add_line(&mut lines, spans);
        i += 1;
        assert(all.take(i as int) == all.take(i - 1).push(all[i - 1]));
    }
    assert(all.take(i as int) == all);
    lines
}

fn draw_bindings(bindings: &Vec<(String, String)>) -> (lines: Vec<Line>)
    ensures
        lines_view(lines@) == binding_lines(bindings@),
{
    let ghost all = binding_lines(bindings@);
    let mut lines: Vec<Line> = Vec::new();
    if bindings.len() == 0 {
        add_text_line(
            &mut lines,
            "No bindings yet. Touch a control + pick an action to start.",
            Style::of(Color::DarkGray),
        );
        assert(lines_view(lines@) == all);
        return lines;
    }
    let mut i: usize = 0;
    while i < bindings.len()
        invariant
            i <= bindings.len(),
            bindings@.len() > 0,
            all == binding_lines(bindings@),
            lines_view(lines@) == all.take(i as int),
        decreases bindings.len() - i,
    {
        let mut text: String = concat3("  ", bindings[i].0.as_str(), "  →  ");
        text.append(bindings[i].1.as_str());
        add_text_line(&mut lines, text.as_str(), Style::plain());
        i += 1;
        assert(all.take(i as int) == all.take(i - 1).push(all[i - 1]));
    }
    assert(all.take(i as int) == all);
    lines
}

/// Draws the screen: the control captured last with its value, the action
/// picker with the cursor at `selected`, and the bindings.
pub fn render(
    captured: &Option<String>,
    captured_value: Option<u32>,
    selected: usize,
    rows: &Vec<ActionRow>,
    bindings: &Vec<(String, String)>,
) -> (s: LearnScreen)
    ensures
        lines_view(s.captured@) == captured_lines(
            match *captured {
                Some(ev) => Some(ev@),
                None => None,
            },
            match captured_value {
                Some(v) => v,
                None => 0,
            },
            bound_among(rows@, rows@.len()),
            rows@.len(),
        ),
        lines_view(s.actions@) == Seq::new(rows@.len(), |i: int| action_line(rows@[i])),
        lines_view(s.bindings@) == binding_lines(bindings@),
        s.cursor == min_of(selected as int, max_of(rows@.len() - 1, 0)),
        s.bindings_height == min_of(max_of(8, bindings@.len() as int + 2), 15),
{
    let bound: usize = count_bound(rows);
    let total: usize = rows.len();
    let value: u32 = match captured_value {
        Some(v) => v,
        None => 0,
    };
    let mut top: Vec<Line> = Vec::new();
    let text: String = match captured {
        Some(ev) => {
            let mut t: String = concat3("Captured: ", ev.as_str(), " = ");
            t.append(decimal_str(value as u64).as_str());
            t
        },
        None => "Captured: (touch a control on your MIDI device)".to_owned(),
    };
    add_text_line(&mut top, text.as_str(), Style::of(Color::Yellow).bold());
    let mut summary: String = concat3("Bound: ", decimal_str(bound as u64).as_str(), "/");
    summary.append(decimal_str(total as u64).as_str());
    summary.append("    Unmapped: ");
    summary.append(decimal_str((total - bound) as u64).as_str());
    if bound == total {
        add_text_line(&mut top, summary.as_str(), Style::of(Color::Green));
    } else {
        add_text_line(&mut top, summary.as_str(), Style::of(Color::Yellow));
    }
    add_text_line(
        &mut top,
        "Pick an action ↑↓, Enter binds, U unbinds, Esc closes",
        Style::of(Color::DarkGray),
    );
    assert(lines_view(top@) == captured_lines(
        match *captured {
            Some(ev) => Some(ev@),
            None => None,
        },
        value,
        bound as nat,
        total as nat,
    ));
    let last: usize = crate::text::sat_sub(total, 1);
    let n: usize = bindings.len();
    LearnScreen {
        captured: top,
        actions: draw_actions(rows),
        bindings: draw_bindings(bindings),
        cursor: if selected < last {
            selected
        } else {
            last
        },
        bindings_height: if n >= 13 {
            15
        } else if n <= 6 {
            8
        } else {
            n as u16 + 2
        },
    }
}

} // verus!
