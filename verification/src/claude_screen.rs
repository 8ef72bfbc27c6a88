//! The full-screen view of the automatic DJ: whether it is on, and what it has
//! been doing.
use crate::style::{
    add_line, add_span, add_text_line, lines_view, span, spans_view, Color, Line, Span, SpanV,
    Style,
};
use crate::text::{concat2, concat3, decimal, min_of, wide_decimal_str};
use vstd::prelude::*;
use vstd::string::*;

verus! {

#[derive(Debug, Clone, Copy, PartialEq, Eq, Structural)]
pub enum LogEntryType {
    Action,
    Track,
    Phase,
    Flow,
    User,
    Error,
    Info,
}

pub struct LogEntry {
    pub entry_type: LogEntryType,
    pub message: String,
}

/// What is known of the DJ at the moment.
pub enum DjState {
    /// There is no API key.
    Missing,
    /// It is working and cannot be asked.
    Busy,
    Ready { enabled: bool, log: Vec<LogEntry> },
}

/// The tag and the colour of a kind of log entry.
pub open spec fn entry_tag(t: LogEntryType) -> (&'static str, Color) {
    match t {
        LogEntryType::Action => ("ACT", Color::Cyan),
        LogEntryType::Track => ("TRK", Color::Green),
        LogEntryType::Phase => ("PHZ", Color::Yellow),
        LogEntryType::Flow => ("FLO", Color::Magenta),
        LogEntryType::User => ("USR", Color::White),
        LogEntryType::Error => ("ERR", Color::Red),
        LogEntryType::Info => ("INF", Color::Gray),
    }
}

pub(crate) fn tag_of(t: LogEntryType) -> (r: (&'static str, Color))
    ensures
        r == entry_tag(t),
{
    match t {
        LogEntryType::Action => ("ACT", Color::Cyan),
        LogEntryType::Track => ("TRK", Color::Green),
        LogEntryType::Phase => ("PHZ", Color::Yellow),
        LogEntryType::Flow => ("FLO", Color::Magenta),
        LogEntryType::User => ("USR", Color::White),
        LogEntryType::Error => ("ERR", Color::Red),
        LogEntryType::Info => ("INF", Color::Gray),
    }
}

pub open spec fn entry_line(e: LogEntry) -> Seq<SpanV> {
    let (tag, color) = entry_tag(e.entry_type);
    seq![
        span("  "@, Style::plain()),
        span(tag@, Style::of(color).bold()),
        span("  "@, Style::plain()),
        span(e.message@, Style::of(Color::White)),
    ]
}

pub open spec fn blank() -> Seq<SpanV> {
    seq![span(""@, Style::plain())]
}

/// The lines above the log.
pub open spec fn head_lines(enabled: bool) -> Seq<Seq<SpanV>> {
    let color = if enabled {
        Color::Green
    } else {
        Color::DarkGray
    };
    seq![
        seq![
            span("  "@, Style::plain()),
            span(
                (if enabled {
                    "●"@
                } else {
                    "○"@
                }) + " AI DJ — "@,
                Style::of(color).bold(),
            ),
            span(
                if enabled {
                    "ON"@
                } else {
                    "OFF"@
                },
                Style::of(color).bold(),
            ),
        ],
        blank(),
        seq![span("  [C] toggle   [/] ask   [Esc] back"@, Style::of(Color::DarkGray))],
        blank(),
    ]
}

/// The log, newest entry first, from `skip` entries back; at least the oldest
/// entry is shown.
pub open spec fn log_lines(log: Seq<LogEntry>, skip: int) -> Seq<Seq<SpanV>> {
    if log.len() == 0 {
        seq![seq![span("  (no activity yet)"@, Style::of(Color::DarkGray))]]
    } else {
        let start = min_of(skip, log.len() - 1);
        seq![
            seq![
                span(
                    "  Activity ("@ + decimal(log.len()) + " entries)"@,
                    Style::of(Color::Gray).bold(),
                ),
            ],
            blank(),
        ] + Seq::new(
            (log.len() - start) as nat,
            |k: int| entry_line(log[log.len() - 1 - start - k]),
        )
    }
}

pub open spec fn dj_lines(dj: DjState, skip: int) -> Seq<Seq<SpanV>> {
    match dj {
        DjState::Missing => seq![
            seq![span("  AI DJ not available"@, Style::of(Color::Red).bold())],
            blank(),
            seq![
                span(
                    "  Put your Anthropic API key in ~/.mixr/claude_key and relaunch."@,
                    Style::of(Color::Gray),
                ),
            ],
        ],
        DjState::Busy => seq![seq![span("  (busy — try again in a moment)"@, Style::plain())]],
        DjState::Ready { enabled, log } => head_lines(enabled) + log_lines(log@, skip),
    }
}

fn draw_head(enabled: bool) -> (lines: Vec<Line>)
    ensures
        lines_view(lines@) == head_lines(enabled),
{
    let mut lines: Vec<Line> = Vec::new();
    let mut spans: Vec<Span> = Vec::new();
    add_span(&mut spans, "  ", Style::plain());
    if enabled {
        let look: Style = Style::of(Color::Green).bold();
        add_span(&mut spans, concat2("●", " AI DJ — ").as_str(), look);
        add_span(&mut spans, "ON", look);
    } else {
        let look: Style = Style::of(Color::DarkGray).bold();
        add_span(&mut spans, concat2("○", " AI DJ — ").as_str(), look);
        add_span(&mut spans, "OFF", look);
    }
    assert(spans_view(spans@) == head_lines(enabled)[0]);
    add_line(&mut lines, spans);
    add_text_line(&mut lines, "", Style::plain());
    add_text_line(&mut lines, "  [C] toggle   [/] ask   [Esc] back", Style::of(Color::DarkGray));
    add_text_line(&mut lines, "", Style::plain());
    assert(lines_view(lines@) == head_lines(enabled));
    lines
}

fn draw_log(lines: &mut Vec<Line>, log: &Vec<LogEntry>, skip: usize)
    ensures
        lines_view(final(lines)@) == lines_view(old(lines)@) + log_lines(log@, skip as int),
{
    let ghost all = log_lines(log@, skip as int);
    let ghost base = lines_view(lines@);
    if log.len() == 0 {
        add_text_line(lines, "  (no activity yet)", Style::of(Color::DarkGray));
        assert(lines_view(lines@) == base + all);
        return;
    }
    let count: String = wide_decimal_str(log.len() as u128);
    let title: String = concat3("  Activity (", count.as_str(), " entries)");
    add_text_line(lines, title.as_str(), Style::of(Color::Gray).bold());
    add_text_line(lines, "", Style::plain());
    let start: usize = if skip < log.len() - 1 {
        skip
    } else {
        log.len() - 1
    };
    let n: usize = log.len() - start;
    let mut k: usize = 0;
    assert(lines_view(lines@) == base + all.take(2));
    while k < n
        invariant
            k <= n,
            log@.len() > 0,
            start == min_of(skip as int, log@.len() - 1),
            n == log@.len() - start,
            all == log_lines(log@, skip as int),
            lines_view(lines@) == base + all.take(k + 2),
        decreases n - k,
    {
        let e: &LogEntry = &log[log.len() - 1 - start - k];
        let (tag, color): (&'static str, Color) = tag_of(e.entry_type);
        let mut spans: Vec<Span> = Vec::new();
        add_span(&mut spans, "  ", Style::plain());
        add_span(&mut spans, tag, Style::of(color).bold());
        add_span(&mut spans, "  ", Style::plain());
        add_span(&mut spans, e.message.as_str(), Style::of(Color::White));
        assert(spans_view(spans@) == all[k + 2]);
        add_line(lines, spans);
        k += 1;
        assert(base + all.take(k + 2) == (base + all.take(k + 1)).push(all[k + 1]));
    }
    assert(all.take(k + 2) == all);
}

/// Draws the view, scrolled back by `scroll_offset` entries.
pub fn render_claude_screen(dj: &DjState, scroll_offset: usize) -> (lines: Vec<Line>)
    ensures
        lines_view(lines@) == dj_lines(*dj, scroll_offset as int),
{
    match dj {
        DjState::Missing => {
            let mut lines: Vec<Line> = Vec::new();
            add_text_line(&mut lines, "  AI DJ not available", Style::of(Color::Red).bold());
            add_text_line(&mut lines, "", Style::plain());
            add_text_line(
                &mut lines,
                "  Put your Anthropic API key in ~/.mixr/claude_key and relaunch.",
                Style::of(Color::Gray),
            );
            assert(lines_view(lines@) == dj_lines(*dj, scroll_offset as int));
            lines
        },
        DjState::Busy => {
            let mut lines: Vec<Line> = Vec::new();
            add_text_line(&mut lines, "  (busy — try again in a moment)", Style::plain());
            assert(lines_view(lines@) == dj_lines(*dj, scroll_offset as int));
            lines
        },
        DjState::Ready { enabled, log } => {
            let mut lines: Vec<Line> = draw_head(*enabled);
            draw_log(&mut lines, log, scroll_offset);
            lines
        },
    }
}

} // verus!
