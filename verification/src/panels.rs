//! The sections below the controller: the DJ, queue, history, browser, log.
use crate::boxes::{
    add_framed, border_style, bottom_border, bottom_border_str, boxed, framed, items_view, opt_str,
    plain_box, render_two_col_box, section_border, top_border, top_border_str, ts, two_col_box,
};
use crate::clicks::{coord, coord_of, ClickAction, ClickTarget};
use crate::compat::{compat, compat_color, compat_percent, key_view};
use crate::deck::{HistoryEntry, NowPlaying};
use crate::logs::{log_window, window};
use crate::meters::SPARK;
use crate::style::{
    add_line, add_span, add_text_line, lines_view, span, spans_view, Color, Line, Span, SpanV, Style,
};
use crate::text::{
    char_count, clone_strs, concat2, concat3, decimal, decimal_str, ellipsis, first_n, max_of,
    min_of, minus, owned, pad_left, padded_left, repeat, repeated, sat_sub, strs, take_chars,
};
use crate::track::{bpm_slash_key, bpm_slash_key_str, track_name, Track};
use vstd::prelude::*;
use vstd::string::*;

verus! {

/// Where a part of the screen is.
#[derive(Debug, Clone, Copy, PartialEq, Eq, Structural)]
pub struct Area {
    pub x: u16,
    pub y: u16,
    pub width: u16,
    pub height: u16,
}

/// An empty line.
pub open spec fn blank() -> Seq<SpanV> {
    seq![span(""@, Style::plain())]
}

pub fn add_blank(lines: &mut Vec<Line>)
    ensures
        lines_view(final(lines)@) == lines_view(old(lines)@).push(blank()),
{
    add_text_line(lines, "", Style::plain());
}

/// What the DJ box holds: its log, and the question being typed.
pub open spec fn dj_content(log: Seq<Seq<char>>, ask: Option<Seq<char>>) -> Seq<Seq<char>> {
    match ask {
        Some(a) => log.push("Ask: "@ + a + "█"@),
        None => log,
    }
}

/// The DJ box, where there is something to show.
pub open spec fn dj_section(log: Seq<Seq<char>>, ask: Option<Seq<char>>, w: nat) -> Seq<Seq<SpanV>> {
    if log.len() == 0 && ask is None {
        Seq::empty()
    } else {
        plain_box("AI DJ  [c] toggle  [/] ask"@, dj_content(log, ask), w).push(blank())
    }
}

pub fn render_claude_dj_section(lines: &mut Vec<Line>, log: &Vec<String>, ask: &Option<String>, w: usize)
    ensures
        lines_view(final(lines)@) == lines_view(old(lines)@) + dj_section(
            strs(log@),
            opt_str(*ask),
            w as nat,
        ),
{
    if log.len() == 0 && ask.is_none() {
        assert(lines_view(lines@) + Seq::<Seq<SpanV>>::empty() == lines_view(lines@));
        return;
    }
    let mut content: Vec<String> = clone_strs(log);
    if let Some(a) = ask {
        let ghost before = strs(content@);
        content.push(concat3("Ask: ", a.as_str(), "█"));
        assert(strs(content@) == before.push("Ask: "@ + a@ + "█"@));
    }
    assert(strs(content@) == dj_content(strs(log@), opt_str(*ask)));
    boxed(lines, "AI DJ  [c] toggle  [/] ask", &content, w);
    add_blank(lines);
    assert(lines_view(lines@) == lines_view(old(lines)@) + dj_section(
        strs(log@),
        opt_str(*ask),
        w as nat,
    ));
}

/// How many rows a list of the dashboard shows.
pub open spec fn shown_rows(n: nat) -> nat {
    min_of(n as int, 10) as nat
}

/// Rank and compatibility in front of a track of a list.
pub open spec fn rank_text(rank: nat, percent: nat) -> Seq<char> {
    pad_left(decimal(rank), 2) + "  "@ + pad_left(decimal(percent), 3) + "% "@
}

fn rank_str(rank: usize, percent: u32) -> (s: String)
    ensures
        s@ == rank_text(rank as nat, percent as nat),
{
    let r: String = padded_left(decimal_str(rank as u64).as_str(), 2);
    let p: String = padded_left(decimal_str(percent as u64).as_str(), 3);
    let head: String = concat2(r.as_str(), "  ");
    concat3(head.as_str(), p.as_str(), "% ")
}

/// What stands behind the first track of the queue.
pub open spec fn queue_status(idx: int, in_flight: bool) -> Seq<char> {
    if idx == 0 && in_flight {
        " ⟳"@
    } else if idx == 0 {
        " next"@
    } else {
        ""@
    }
}

/// What a row of the queue keeps free of the name.
pub open spec fn queue_overhead(idx: int, in_flight: bool) -> int {
    if idx == 0 && in_flight {
        26
    } else if idx == 0 {
        27
    } else {
        22
    }
}

/// How well a track of the queue follows the one before it, or what plays now.
pub open spec fn queue_percent(info: NowPlaying, idx: int) -> int {
    let t = info.queue@[idx];
    if idx == 0 {
        compat_percent(
            info.playing_bpm,
            match info.playing_track {
                Some(p) => key_view(p.key),
                None => None,
            },
            t.bpm,
            key_view(t.key),
        )
    } else {
        let p = info.queue@[idx - 1];
        compat_percent(p.bpm, key_view(p.key), t.bpm, key_view(t.key))
    }
}

pub open spec fn queue_item(info: NowPlaying, idx: int, in_flight: bool, cw: nat) -> (Color, Seq<char>) {
    let t = info.queue@[idx];
    let percent = queue_percent(info, idx);
    (
        compat_color(percent),
        rank_text((idx + 1) as nat, percent as nat) + ellipsis(
            track_name(t),
            minus(cw as int, queue_overhead(idx, in_flight)),
        ) + " "@ + bpm_slash_key(t) + queue_status(idx, in_flight),
    )
}

pub open spec fn more_text(n: nat) -> Seq<char> {
    "… "@ + decimal(n) + " more"@
}

pub(crate) fn more_str(n: usize) -> (s: String)
    ensures
        s@ == more_text(n as nat),
{
    concat3("… ", decimal_str(n as u64).as_str(), " more")
}

/// The queue: the first tracks, each with how well it follows the one before.
pub open spec fn queue_section(
    info: NowPlaying,
    in_flight: bool,
    w: nat,
    cw: nat,
    focused: bool,
) -> Seq<Seq<SpanV>> {
    let n = info.queue@.len();
    two_col_box(
        "QUEUE ("@ + decimal(n) + ") [q]"@,
        Seq::new(shown_rows(n), |i: int| queue_item(info, i, in_flight, cw)),
        if n > 10 {
            Some(more_text((n - 10) as nat))
        } else {
            None
        },
        "Empty"@,
        w,
        focused,
    ).push(blank())
}

fn queue_item_of(info: &NowPlaying, idx: usize, in_flight: bool, cw: usize) -> (r: (Color, String))
    requires
        idx < info.queue@.len(),
        idx < 10,
    ensures
        (r.0, r.1@) == queue_item(*info, idx as int, in_flight, cw as nat),
{
    let t: &Track = &info.queue[idx];
    let (percent, color): (u32, Color) = if idx == 0 {
        match &info.playing_track {
            Some(p) => compat(info.playing_bpm, &p.key, t.bpm, &t.key),
            None => compat(info.playing_bpm, &None, t.bpm, &t.key),
        }
    } else {
        let p: &Track = &info.queue[idx - 1];
        compat(p.bpm, &p.key, t.bpm, &t.key)
    };
    let status: &str = if idx == 0 && in_flight {
        " ⟳"
    } else if idx == 0 {
        " next"
    } else {
        ""
    };
    let overhead: usize = if idx == 0 && in_flight {
        26
    } else if idx == 0 {
        27
    } else {
        22
    };
    let name: String = ts(t.name().as_str(), sat_sub(cw, overhead));
    let rank: String = rank_str(idx + 1, percent);
    let head: String = concat3(rank.as_str(), name.as_str(), " ");
    let bk: String = bpm_slash_key_str(t);
    (color, concat3(head.as_str(), bk.as_str(), status))
}

pub fn render_queue_section(
    lines: &mut Vec<Line>,
    info: &NowPlaying,
    in_flight: bool,
    w: usize,
    cw: usize,
    focused: bool,
)
    ensures
        lines_view(final(lines)@) == lines_view(old(lines)@) + queue_section(
            *info,
            in_flight,
            w as nat,
            cw as nat,
            focused,
        ),
{
    let n: usize = info.queue.len();
    let shown: usize = if n < 10 {
        n
    } else {
        10
    };
    let mut items: Vec<(Color, String)> = Vec::new();
    let mut i: usize = 0;
    assert(items_view(items@) == Seq::new(
        0,
        |k: int| queue_item(*info, k, in_flight, cw as nat),
    ));
    while i < shown
        invariant
            i <= shown <= 10,
            shown <= info.queue@.len(),
            items_view(items@) == Seq::new(
                i as nat,
                |k: int| queue_item(*info, k, in_flight, cw as nat),
            ),
        decreases shown - i,
    {
        let ghost before = items_view(items@);
        let item: (Color, String) = queue_item_of(info, i, in_flight, cw);
        let ghost v = (item.0, item.1@);
        items.push(item);
        assert(items_view(items@) == before.push(v));
        i += 1;
        assert(items_view(items@) == Seq::new(
            i as nat,
            |k: int| queue_item(*info, k, in_flight, cw as nat),
        ));
    }
    let overflow: Option<String> = if n > 10 {
        Some(more_str(n - 10))
    } else {
        None
    };
    let title: String = concat3("QUEUE (", decimal_str(n as u64).as_str(), ") [q]");
    render_two_col_box(lines, title.as_str(), &items, &overflow, "Empty", w, focused);
    add_blank(lines);
    assert(lines_view(lines@) == lines_view(old(lines)@) + queue_section(
        *info,
        in_flight,
        w as nat,
        cw as nat,
        focused,
    ));
}

/// The tempos of the history, where they are known.
pub open spec fn known_bpms(history: Seq<HistoryEntry>) -> Seq<u32>
    decreases history.len(),
{
    if history.len() == 0 {
        Seq::empty()
    } else {
        match history.last().track.bpm {
            Some(b) => known_bpms(history.drop_last()).push(b),
            None => known_bpms(history.drop_last()),
        }
    }
}

pub open spec fn lowest(bpms: Seq<u32>) -> int
    decreases bpms.len(),
{
    if bpms.len() <= 1 {
        bpms[0] as int
    } else {
        min_of(lowest(bpms.drop_last()), bpms.last() as int)
    }
}

pub open spec fn highest(bpms: Seq<u32>) -> int
    decreases bpms.len(),
{
    if bpms.len() <= 1 {
        bpms[0] as int
    } else {
        max_of(highest(bpms.drop_last()), bpms.last() as int)
    }
}

/// The trend of the tempo: the lowest at the bottom, the highest at the top, at
/// least one beat per minute apart.
pub open spec fn trend(bpms: Seq<u32>) -> Seq<char> {
    let low = lowest(bpms);
    let range = max_of(highest(bpms) - low, 1000);
    Seq::new(bpms.len(), |i: int| SPARK@[(bpms[i] - low) * 7 / range])
}

pub open spec fn history_trend(history: Seq<HistoryEntry>) -> Seq<char> {
    let bpms = known_bpms(history);
    if bpms.len() >= 3 {
        " "@ + trend(bpms)
    } else {
        ""@
    }
}

pub open spec fn session_text(minutes: nat) -> Seq<char> {
    if minutes > 0 {
        " "@ + decimal(minutes) + "m"@
    } else {
        ""@
    }
}

pub open spec fn mix_text(score: Option<u32>) -> Seq<char> {
    match score {
        Some(s) => " m"@ + decimal(s as nat),
        None => ""@,
    }
}

pub(crate) fn mix_str(score: Option<u32>) -> (s: String)
    ensures
        s@ == mix_text(score),
{
    match score {
        Some(n) => concat2(" m", decimal_str(n as u64).as_str()),
        None => owned(""),
    }
}

pub open spec fn history_item(info: NowPlaying, i: int, cw: nat) -> (Color, Seq<char>) {
    let e = info.history@[i];
    let percent = if i > 0 {
        let p = info.history@[i - 1].track;
        compat_percent(p.bpm, key_view(p.key), e.track.bpm, key_view(e.track.key))
    } else {
        0
    };
    (
        compat_color(percent),
        rank_text((i + 1) as nat, percent as nat) + ellipsis(
            track_name(e.track),
            minus(cw as int, 26),
        ) + " "@ + bpm_slash_key(e.track) + mix_text(e.mix_score),
    )
}

/// The history: what was played, how well each followed the one before, the
/// trend of the tempo and the length of the session.
pub open spec fn history_section(info: NowPlaying, w: nat, cw: nat, focused: bool) -> Seq<
    Seq<SpanV>,
> {
    let n = info.history@.len();
    two_col_box(
        "HISTORY ("@ + decimal(n) + history_trend(info.history@) + session_text(
            info.session_time_min as nat,
        ) + ") [h]"@,
        if n >= 2 {
            Seq::new(shown_rows(n), |i: int| history_item(info, i, cw))
        } else {
            Seq::empty()
        },
        None,
        "No history yet"@,
        w,
        focused,
    ).push(blank())
}

proof fn lemma_lowest(bpms: Seq<u32>, i: int)
    requires
        0 <= i < bpms.len(),
    ensures
        lowest(bpms) <= bpms[i] <= highest(bpms),
        0 <= lowest(bpms),
        highest(bpms) <= u32::MAX,
    decreases bpms.len(),
{
    if bpms.len() > 1 {
        if i == bpms.len() - 1 {
            lemma_lowest(bpms.drop_last(), 0);
        } else {
            lemma_lowest(bpms.drop_last(), i);
        }
    }
}

/// The trend stands on its scale, and its lowest tempo at the bottom.
pub proof fn trend_is_on_scale(bpms: Seq<u32>, i: int)
    requires
        0 <= i < bpms.len(),
    ensures
        ({
            let low = lowest(bpms);
            let range = max_of(highest(bpms) - low, 1000);
            let at = (bpms[i] - low) * 7 / range;
            &&& 0 <= at <= 7
            &&& bpms[i] == low ==> at == 0
        }),
{
    lemma_lowest(bpms, i);
    let low = lowest(bpms);
    let range = max_of(highest(bpms) - low, 1000);
    let d = bpms[i] - low;
    assert(0 <= d * 7 / range <= 7) by (nonlinear_arith)
        requires
            0 <= d <= range,
            range > 0,
    ;
    assert(d == 0 ==> d * 7 / range == 0) by (nonlinear_arith)
        requires
            range > 0,
    ;
}

fn trend_str(bpms: &Vec<u32>) -> (s: String)
    requires
        bpms@.len() > 0,
    ensures
        s@ == trend(bpms@),
{
    let mut low: u32 = bpms[0];
    let mut high: u32 = bpms[0];
    let mut i: usize = 1;
    while i < bpms.len()
        invariant
            1 <= i <= bpms.len(),
            low == lowest(bpms@.take(i as int)),
            high == highest(bpms@.take(i as int)),
        decreases bpms.len() - i,
    {
        assert(bpms@.take(i + 1).drop_last() == bpms@.take(i as int));
        let b: u32 = bpms[i];
        if b < low {
            low = b;
        }
        if b > high {
            high = b;
        }
        i += 1;
    }
    assert(bpms@.take(i as int) == bpms@);
    proof {
        lemma_lowest(bpms@, 0);
    }
    let spread: u32 = high - low;
    let range: u64 = if spread > 1000 {
        spread as u64
    } else {
        1000
    };
    let mut s: String = String::new();
    let mut k: usize = 0;
    while k < bpms.len()
        invariant
            k <= bpms.len(),
            low == lowest(bpms@),
            range == max_of(highest(bpms@) - low, 1000),
            s@ == trend(bpms@).take(k as int),
        decreases bpms.len() - k,
    {
        proof {
            trend_is_on_scale(bpms@, k as int);
            lemma_lowest(bpms@, k as int);
        }
        let d: u64 = (bpms[k] - low) as u64;
        let at: u64 = d * 7 / range;
        s.push(SPARK[at as usize]);
        k += 1;
        assert(s@ == trend(bpms@).take(k as int));
    }
    assert(s@ == trend(bpms@));
    s
}

fn history_trend_str(history: &Vec<HistoryEntry>) -> (s: String)
    ensures
        s@ == history_trend(history@),
{
    let mut bpms: Vec<u32> = Vec::new();
    let mut i: usize = 0;
    while i < history.len()
        invariant
            i <= history.len(),
            bpms@ == known_bpms(history@.take(i as int)),
        decreases history.len() - i,
    {
        assert(history@.take(i + 1).drop_last() == history@.take(i as int));
        if let Some(b) = history[i].track.bpm {
            bpms.push(b);
        }
        i += 1;
    }
    assert(history@.take(i as int) == history@);
    if bpms.len() >= 3 {
        concat2(" ", trend_str(&bpms).as_str())
    } else {
        owned("")
    }
}

fn session_str(minutes: u64) -> (s: String)
    ensures
        s@ == session_text(minutes as nat),
{
    if minutes > 0 {
        concat3(" ", decimal_str(minutes).as_str(), "m")
    } else {
        owned("")
    }
}

fn history_item_of(info: &NowPlaying, i: usize, cw: usize) -> (r: (Color, String))
    requires
        i < info.history@.len(),
        i < 10,
    ensures
        (r.0, r.1@) == history_item(*info, i as int, cw as nat),
{
    let e: &HistoryEntry = &info.history[i];
    let (percent, color): (u32, Color) = if i > 0 {
        let p: &Track = &info.history[i - 1].track;
        compat(p.bpm, &p.key, e.track.bpm, &e.track.key)
    } else {
        compat(None, &None, e.track.bpm, &e.track.key)
    };
    let name: String = ts(e.track.name().as_str(), sat_sub(cw, 26));
    let rank: String = rank_str(i + 1, percent);
    let head: String = concat3(rank.as_str(), name.as_str(), " ");
    let bk: String = bpm_slash_key_str(&e.track);
    let mix: String = mix_str(e.mix_score);
    (color, concat3(head.as_str(), bk.as_str(), mix.as_str()))
}

pub fn render_history_section(
    lines: &mut Vec<Line>,
    info: &NowPlaying,
    w: usize,
    cw: usize,
    focused: bool,
)
    ensures
        lines_view(final(lines)@) == lines_view(old(lines)@) + history_section(
            *info,
            w as nat,
            cw as nat,
            focused,
        ),
{
    let n: usize = info.history.len();
    let shown: usize = if n < 2 {
        0
    } else if n < 10 {
        n
    } else {
        10
    };
    let mut items: Vec<(Color, String)> = Vec::new();
    let mut i: usize = 0;
    assert(items_view(items@) == Seq::new(0, |k: int| history_item(*info, k, cw as nat)));
    while i < shown
        invariant
            i <= shown <= 10,
            shown <= info.history@.len(),
            items_view(items@) == Seq::new(i as nat, |k: int| history_item(*info, k, cw as nat)),
        decreases shown - i,
    {
        let ghost before = items_view(items@);
        let item: (Color, String) = history_item_of(info, i, cw);
        let ghost v = (item.0, item.1@);
        items.push(item);
        assert(items_view(items@) == before.push(v));
        i += 1;
        assert(items_view(items@) == Seq::new(i as nat, |k: int| history_item(*info, k, cw as nat)));
    }
    assert(items_view(items@) == if n >= 2 {
        Seq::new(shown_rows(n as nat), |k: int| history_item(*info, k, cw as nat))
    } else {
        Seq::empty()
    });
    let count: String = concat2("HISTORY (", decimal_str(n as u64).as_str());
    let tempo: String = history_trend_str(&info.history);
    let session: String = session_str(info.session_time_min);
    let head: String = concat3(count.as_str(), tempo.as_str(), session.as_str());
    let title: String = concat2(head.as_str(), ") [h]");
    render_two_col_box(lines, title.as_str(), &items, &None, "No history yet", w, focused);
    add_blank(lines);
    assert(lines_view(lines@) == lines_view(old(lines)@) + history_section(
        *info,
        w as nat,
        cw as nat,
        focused,
    ));
}

/// What the mini-browser shows.
pub struct BrowsePanel {
    pub items: Vec<String>,
    pub breadcrumb: String,
    pub selected: usize,
    /// The items are tracks, and so are numbered.
    pub tracks: bool,
}

/// How many items the mini-browser shows.
pub open spec fn browse_rows(n: nat) -> nat {
    min_of(n as int, 8) as nat
}

/// A row of the mini-browser.
pub open spec fn browse_text(item: Seq<char>, i: int, selected: bool, tracks: bool) -> Seq<char> {
    let marker = if selected {
        "▸"@
    } else {
        " "@
    };
    if tracks {
        marker + " "@ + pad_left(decimal((i + 1) as nat), 2) + ". "@ + item
    } else {
        marker + " "@ + item
    }
}

pub open spec fn browse_row(panel: BrowsePanel, i: int, w: nat, border: Style) -> Seq<SpanV> {
    let cw = minus(minus(w as int, 2) as int, 2);
    let text = first_n(
        browse_text(panel.items@[i]@, i, i == panel.selected, panel.tracks),
        cw,
    );
    seq![
        span("│ "@, border),
        span(
            text,
            if i == panel.selected {
                Style::plain().reversed()
            } else {
                Style::of(Color::Gray)
            },
        ),
        span(repeat(' ', minus(cw as int, text.len() as int)), Style::plain()),
        span(" │"@, border),
    ]
}

/// The mini-browser, where there is something to browse.
pub open spec fn browse_section(panel: BrowsePanel, w: nat, focused: bool) -> Seq<Seq<SpanV>> {
    let border = border_style(focused);
    if panel.items@.len() == 0 {
        Seq::empty()
    } else {
        seq![
            seq![span(top_border("BROWSE [b]"@, w), border)],
            framed(panel.breadcrumb@, minus(w as int, 2), border, Style::of(Color::DarkGray)),
        ] + Seq::new(
            browse_rows(panel.items@.len()),
            |i: int| browse_row(panel, i, w, border),
        ) + seq![seq![span(bottom_border(w), border)], blank()]
    }
}

/// The places to click in the mini-browser: its rows, below the title and the
/// breadcrumb. `top` lines stand above it.
pub open spec fn browse_targets(n: nat, area: Area, top: nat, w: nat) -> Seq<ClickTarget> {
    Seq::new(
        browse_rows(n),
        |i: int|
            ClickTarget::spec_new(
                coord(area.x + 1),
                coord(area.y + top + 2 + i),
                coord(minus(w as int, 2) as int),
                1,
                ClickAction::DashBrowseSelect(i as usize),
            ),
    )
}

fn add_browse_row(lines: &mut Vec<Line>, panel: &BrowsePanel, i: usize, w: usize, border: Style)
    requires
        i < panel.items@.len(),
        i < 8,
    ensures
        lines_view(final(lines)@) == lines_view(old(lines)@).push(
            browse_row(*panel, i as int, w as nat, border),
        ),
{
    let cw: usize = sat_sub(sat_sub(w, 2), 2);
    let selected: bool = i == panel.selected;
    let marker: &str = if selected {
        "▸"
    } else {
        " "
    };
    let item: &str = panel.items[i].as_str();
    let text: String = if panel.tracks {
        let rank: String = padded_left(decimal_str((i + 1) as u64).as_str(), 2);
        let head: String = concat3(marker, " ", rank.as_str());
        concat3(head.as_str(), ". ", item)
    } else {
        concat3(marker, " ", item)
    };
    let cut: String = take_chars(text.as_str(), cw);
    let used: usize = char_count(cut.as_str());
    let style: Style = if selected {
        Style::plain().reversed()
    } else {
        Style::of(Color::Gray)
    };
    let mut spans: Vec<Span> = Vec::new();
    add_span(&mut spans, "│ ", border);
    add_span(&mut spans, cut.as_str(), style);
    let pad: String = repeated(' ', sat_sub(cw, used));
    add_span(&mut spans, pad.as_str(), Style::plain());
    add_span(&mut spans, " │", border);
    assert(spans_view(spans@) == browse_row(*panel, i as int, w as nat, border));
    add_line(lines, spans);
}

pub fn render_browse_section(
    lines: &mut Vec<Line>,
    targets: &mut Vec<ClickTarget>,
    area: Area,
    panel: &BrowsePanel,
    w: usize,
    focused: bool,
)
    ensures
        lines_view(final(lines)@) == lines_view(old(lines)@) + browse_section(
            *panel,
            w as nat,
            focused,
        ),
        final(targets)@ == old(targets)@ + browse_targets(
            panel.items@.len(),
            area,
            old(lines)@.len(),
            w as nat,
        ),
{
    let n: usize = if panel.items.len() < 8 {
        panel.items.len()
    } else {
        8
    };
    let top: usize = lines.len();
    let ghost first = targets@;
    if n == 0 {
        assert(lines_view(lines@) + Seq::<Seq<SpanV>>::empty() == lines_view(lines@));
        assert(targets@ == first + browse_targets(0, area, top as nat, w as nat));
        return;
    }
    let mut i: usize = 0;
    while i < n
        invariant
            i <= n <= 8,
            n == browse_rows(panel.items@.len()),
            targets@ == first + browse_targets(
                panel.items@.len(),
                area,
                top as nat,
                w as nat,
            ).take(i as int),
        decreases n - i,
    {
        let y: u16 = coord_of(area.y as u128 + top as u128 + 2 + i as u128);
        targets.push(
            ClickTarget::new(
                coord_of(area.x as u128 + 1),
                y,
                coord_of(sat_sub(w, 2) as u128),
                1,
                ClickAction::DashBrowseSelect(i),
            ),
        );
        i += 1;
        assert(targets@ == first + browse_targets(
            panel.items@.len(),
            area,
            top as nat,
            w as nat,
        ).take(i as int));
    }
    assert(targets@ == first + browse_targets(panel.items@.len(), area, top as nat, w as nat));
    let border: Style = section_border(focused);
    let head: String = top_border_str("BROWSE [b]", w);
    add_text_line(lines, head.as_str(), border);
    add_framed(lines, panel.breadcrumb.as_str(), sat_sub(w, 2), border, Style::of(Color::DarkGray));
    let ghost start = lines_view(lines@);
    let mut k: usize = 0;
    while k < n
        invariant
            k <= n <= 8,
            n <= panel.items@.len(),
            lines_view(lines@) == start + Seq::new(
                k as nat,
                |j: int| browse_row(*panel, j, w as nat, border),
            ),
        decreases n - k,
    {
        add_browse_row(lines, panel, k, w, border);
        k += 1;
        assert(lines_view(lines@) == start + Seq::new(
            k as nat,
            |j: int| browse_row(*panel, j, w as nat, border),
        ));
    }
    let bottom: String = bottom_border_str(w);
    add_text_line(lines, bottom.as_str(), border);
    add_blank(lines);
    assert(lines_view(lines@) == lines_view(old(lines)@) + browse_section(
        *panel,
        w as nat,
        focused,
    ));
}

/// How many log lines fit below `top` lines of a screen of `h`: 3 to 7.
pub open spec fn log_rows(h: nat, top: nat) -> nat {
    max_of(min_of(h - top - 3, 7), 3) as nat
}

/// The log lines to show; a notice where there is no log.
pub open spec fn log_shown(log: Option<Vec<String>>, rows: nat, offset: nat) -> Seq<Seq<char>> {
    match log {
        Some(lines) => window(strs(lines@), rows, offset),
        None => seq!["No log file"@],
    }
}

/// The log, with its newest lines.
pub open spec fn log_section(
    log: Option<Vec<String>>,
    offset: nat,
    w: nat,
    h: nat,
    top: nat,
    focused: bool,
) -> Seq<Seq<SpanV>> {
    let border = border_style(focused);
    let shown = log_shown(log, log_rows(h, top), offset);
    seq![seq![span(top_border("LOG  [l] open"@, w), border)]] + Seq::new(
        shown.len(),
        |i: int| framed(shown[i], minus(w as int, 2), border, Style::of(Color::Gray)),
    ) + seq![seq![span(bottom_border(w), border)]]
}

pub fn render_log_section(
    lines: &mut Vec<Line>,
    log: &Option<Vec<String>>,
    offset: usize,
    w: usize,
    h: usize,
    focused: bool,
)
    ensures
        lines_view(final(lines)@) == lines_view(old(lines)@) + log_section(
            *log,
            offset as nat,
            w as nat,
            h as nat,
            old(lines)@.len(),
            focused,
        ),
{
    let top: usize = lines.len();
    let room: usize = sat_sub(sat_sub(h, top), 3);
    let rows: usize = if room < 3 {
        3
    } else if room > 7 {
        7
    } else {
        room
    };
    assert(rows == log_rows(h as nat, top as nat));
    let shown: Vec<String> = match log {
        Some(all) => log_window(all, rows, offset),
        None => {
            let mut v: Vec<String> = Vec::new();
            v.push(owned("No log file"));
            assert(strs(v@) == seq!["No log file"@]);
            v
        },
    };
    let ghost texts = strs(shown@);
    assert(texts == log_shown(*log, rows as nat, offset as nat));
    let border: Style = section_border(focused);
    let head: String = top_border_str("LOG  [l] open", w);
    add_text_line(lines, head.as_str(), border);
    let ghost start = lines_view(lines@);
    let bw: usize = sat_sub(w, 2);
    let mut i: usize = 0;
    while i < shown.len()
        invariant
            i <= shown.len(),
            bw == minus(w as int, 2),
            texts == strs(shown@),
            lines_view(lines@) == start + Seq::new(
                i as nat,
                |k: int| framed(texts[k], minus(w as int, 2), border, Style::of(Color::Gray)),
            ),
        decreases shown.len() - i,
    {
        add_framed(lines, shown[i].as_str(), bw, border, Style::of(Color::Gray));
        i += 1;
        assert(lines_view(lines@) == start + Seq::new(
            i as nat,
            |k: int| framed(texts[k], minus(w as int, 2), border, Style::of(Color::Gray)),
        ));
    }
    let bottom: String = bottom_border_str(w);
    add_text_line(lines, bottom.as_str(), border);
    assert(lines_view(lines@) == lines_view(old(lines)@) + log_section(
        *log,
        offset as nat,
        w as nat,
        h as nat,
        top as nat,
        focused,
    ));
}

} // verus!
