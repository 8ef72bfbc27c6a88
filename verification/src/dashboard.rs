//! The dashboard: the controller box and the sections below it, with every place
//! that can be clicked; and the same as plain text.
use crate::boxes::{
    border_style, bottom_border, bottom_border_str, boxed_row, build_ctrl_row, build_ctrl_row_at,
    ctrl_row, dim_row, lit_boxed_row, lit_row, ps, section_border, top_border, top_border_str,
};
use crate::clicks::ClickTarget;
use crate::control_places::{add_row_places, row_places};
use crate::control_rows::{
    center_col, center_col_of, jump_label, meter_width, meter_width_of, mix_status, mix_status_str,
    phase_row, phase_row_str, row_one, row_one_str, row_two, row_two_str,
};
use crate::controller::{
    add_compare, add_deck_row, add_side_row, add_strip_places, add_title_line, bar_width,
    bar_width_of, compare_lines, compare_places, deck_row, side_row, strip_places, title_line,
};
use crate::controls::{CtrlSection, DashFocus, DashLayout, PanelSection, WaveformMode};
use crate::deck::{HistoryEntry, NowPlaying};
use crate::deck_lines::{
    deck_lines, deck_lines_styled, deck_text, deck_text_line, rows_view, tempo_str, tempo_text,
    DECK_ROWS,
};
use crate::panels::{
    add_blank, blank, browse_section, browse_targets, dj_section, history_section, log_section,
    queue_section, render_browse_section, render_claude_dj_section, render_history_section,
    render_log_section, render_queue_section, Area, BrowsePanel,
};
use crate::style::{add_text_line, lines_view, span, spans_view, Line, Span, SpanV, Style};
use crate::text::{concat2, concat3, decimal, decimal_str, min_of, minus, sat_sub, strs};
use vstd::prelude::*;
use vstd::string::*;

verus! {

/// What the dashboard shows besides what the engine reports.
pub struct DashView {
    pub mode: WaveformMode,
    pub browse: BrowsePanel,
    pub show_help: bool,
    /// The control that has the focus.
    pub section: Option<CtrlSection>,
    pub download_in_flight: bool,
    pub dj_log: Vec<String>,
    pub dj_ask: Option<String>,
    pub focus: DashFocus,
    /// The messages of the log, where there is one.
    pub log: Option<Vec<String>>,
    pub log_offset: usize,
    /// The deck whose waveform is zoomed.
    pub zoom: Option<bool>,
    pub layout: DashLayout,
    pub panel: PanelSection,
}

/// Too small a screen shows nothing.
pub open spec fn fits(area: Area) -> bool {
    area.width >= 40 && area.height >= 10
}

/// The row above the crossfader, where there is something to say.
pub open spec fn status_lines(info: NowPlaying, w: nat, border: Style) -> Seq<Seq<SpanV>> {
    match mix_status(info) {
        Some(text) => seq![
            lit_row(
                ctrl_row(""@, text, ""@, minus(minus(w as int, 2) as int, 2), center_col(w)),
                minus(w as int, 2),
                border,
            ),
        ],
        None => Seq::empty(),
    }
}

/// The keys that work on the controller.
pub open spec fn help_line() -> Seq<char> {
    " p:Play  n:Skip  t:Teleport  T:Rewind  m:Mix  </>:Jump  [/]:Nudge  uUiIO:Loop  ;':Grid  Tab:Focus  ?:Close"@
}

/// The controller box down to the row above the crossfader.
pub open spec fn controller_top(info: NowPlaying, v: DashView, w: nat) -> Seq<Seq<SpanV>> {
    let border = border_style(v.focus == DashFocus::Controller);
    seq![title_line(v.section, w, border), side_row(w, border)] + Seq::new(
        DECK_ROWS as nat,
        |i: int| deck_row(info, v.section, w, border, i),
    ) + seq![side_row(w, border)] + compare_lines(info, v.mode, v.zoom, w, border) + seq![
        side_row(w, border),
    ] + status_lines(info, w, border)
}

/// The controller box from the crossfader on.
pub open spec fn controller_bottom(info: NowPlaying, v: DashView, w: nat) -> Seq<Seq<SpanV>> {
    let border = border_style(v.focus == DashFocus::Controller);
    let bw = minus(w as int, 2);
    seq![
        lit_row(row_one(info, v.section, w), bw, border),
        lit_row(row_two(info, v.section, w), bw, border),
        lit_row(phase_row(info.phase_us as int, w), bw, border),
    ] + (if v.show_help {
        seq![dim_row(help_line(), bw, border)]
    } else {
        Seq::empty()
    }) + seq![seq![span(bottom_border(w), border)], blank()]
}

/// What can be clicked in the controller box.
pub open spec fn controller_places(info: NowPlaying, v: DashView, area: Area) -> Seq<ClickTarget> {
    let w = area.width as nat;
    strip_places(area, area.y + 2) + compare_places(info, v.mode, v.zoom, area, 10) + row_places(
        area,
        row_one(info, v.section, w),
        row_two(info, v.section, w),
        jump_label(info.jump_bars as nat),
        area.y + controller_top(info, v, w).len(),
    )
}

fn render_controller_top(
    lines: &mut Vec<Line>,
    targets: &mut Vec<ClickTarget>,
    info: &NowPlaying,
    v: &DashView,
    area: Area,
)
    requires
        fits(area),
        old(lines)@.len() == 0,
    ensures
        lines_view(final(lines)@) == controller_top(*info, *v, area.width as nat),
        final(targets)@ == old(targets)@ + strip_places(area, area.y + 2) + compare_places(
            *info,
            v.mode,
            v.zoom,
            area,
            10,
        ),
{
    let w: usize = area.width as usize;
    let border: Style = section_border(v.focus == DashFocus::Controller);
    let bar: usize = bar_width_of(w);
    let left: Vec<Vec<Span>> = deck_lines_styled(&info.deck_a, true, bar, info.mix_point_ms);
    let right: Vec<Vec<Span>> = deck_lines_styled(&info.deck_b, false, bar, info.mix_point_ms);
    add_title_line(lines, v.section, w, border);
    add_side_row(lines, w, border);
    add_strip_places(targets, area, area.y as u128 + 2);
    let ghost start = lines_view(lines@);
    assert(start =~= seq![title_line(v.section, w as nat, border), side_row(w as nat, border)]);
    let mut i: usize = 0;
    while i < DECK_ROWS
        invariant
            i <= DECK_ROWS,
            fits(area),
            w == area.width,
            rows_view(left@) == deck_lines(
                info.deck_a,
                true,
                bar_width(w as nat),
                info.mix_point_ms,
            ),
            rows_view(right@) == deck_lines(
                info.deck_b,
                false,
                bar_width(w as nat),
                info.mix_point_ms,
            ),
            lines_view(lines@) == start + Seq::new(
                i as nat,
                |k: int| deck_row(*info, v.section, w as nat, border, k),
            ),
        decreases DECK_ROWS - i,
    {
        assert(rows_view(left@).len() == DECK_ROWS && rows_view(right@).len() == DECK_ROWS);
        assert(rows_view(left@)[i as int] == spans_view(left@[i as int]@));
        assert(rows_view(right@)[i as int] == spans_view(right@[i as int]@));
        add_deck_row(lines, info, &left[i], &right[i], v.section, w, border, i);
        i += 1;
        assert(lines_view(lines@) =~= start + Seq::new(
            i as nat,
            |k: int| deck_row(*info, v.section, w as nat, border, k),
        ));
    }
    let ghost rows = Seq::new(
        DECK_ROWS as nat,
        |k: int| deck_row(*info, v.section, w as nat, border, k),
    );
    assert(lines_view(lines@) == start + rows);
    add_side_row(lines, w, border);
    assert(lines_view(lines@) =~= start + rows + seq![side_row(w as nat, border)]);
    assert(lines_view(lines@).len() == 10);
    add_compare(lines, targets, info, v.mode, v.zoom, area, border);
    add_side_row(lines, w, border);
    let ghost before = lines_view(lines@);
    assert(before =~= start + rows + seq![side_row(w as nat, border)] + compare_lines(
        *info,
        v.mode,
        v.zoom,
        w as nat,
        border,
    ) + seq![side_row(w as nat, border)]);
    if let Some(text) = mix_status_str(info) {
        let row: String = build_ctrl_row_at(
            "",
            text.as_str(),
            "",
            sat_sub(sat_sub(w, 2), 2),
            center_col_of(w),
        );
        lit_boxed_row(lines, row.as_str(), sat_sub(w, 2), border);
    }
    assert(lines_view(lines@) =~= before + status_lines(*info, w as nat, border));
}

fn add_bottom_lines(
    lines: &mut Vec<Line>,
    one: &str,
    two: &str,
    info: &NowPlaying,
    v: &DashView,
    w: usize,
)
    requires
        one@ == row_one(*info, v.section, w as nat),
        two@ == row_two(*info, v.section, w as nat),
    ensures
        lines_view(final(lines)@) == lines_view(old(lines)@) + controller_bottom(*info, *v, w as nat),
{
    let ghost l0 = lines_view(lines@);
    let bw: usize = sat_sub(w, 2);
    let border: Style = section_border(v.focus == DashFocus::Controller);
    lit_boxed_row(lines, one, bw, border);
    lit_boxed_row(lines, two, bw, border);
    let phase: String = phase_row_str(info.phase_us, w);
    lit_boxed_row(lines, phase.as_str(), bw, border);
    if v.show_help {
        boxed_row(
            lines,
            " p:Play  n:Skip  t:Teleport  T:Rewind  m:Mix  </>:Jump  [/]:Nudge  uUiIO:Loop  ;':Grid  Tab:Focus  ?:Close",
            bw,
            border,
        );
    }
    let bottom: String = bottom_border_str(w);
    add_text_line(lines, bottom.as_str(), border);
    add_blank(lines);
    assert(lines_view(lines@) =~= l0 + controller_bottom(*info, *v, w as nat));
}

fn render_controller_bottom(
    lines: &mut Vec<Line>,
    targets: &mut Vec<ClickTarget>,
    info: &NowPlaying,
    v: &DashView,
    area: Area,
)
    requires
        fits(area),
    ensures
        lines_view(final(lines)@) == lines_view(old(lines)@) + controller_bottom(
            *info,
            *v,
            area.width as nat,
        ),
        final(targets)@ == old(targets)@ + row_places(
            area,
            row_one(*info, v.section, area.width as nat),
            row_two(*info, v.section, area.width as nat),
            jump_label(info.jump_bars as nat),
            (area.y + old(lines)@.len()) as int,
        ),
{
    let w: usize = area.width as usize;
    let one: String = row_one_str(info, v.section, w);
    let two: String = row_two_str(info, v.section, w);
    let jump: String = concat3("◀ JUMP ", decimal_str(info.jump_bars as u64).as_str(), " ▶");
    proof {
        reveal_strlit("◀ JUMP ");
        assert("◀ JUMP "@.len() == 7);
    }
    add_row_places(
        targets,
        area,
        one.as_str(),
        two.as_str(),
        jump.as_str(),
        area.y as u128 + lines.len() as u128,
    );
    add_bottom_lines(lines, one.as_str(), two.as_str(), info, v, w);
}

/// The text width of a column of the queue and the history.
pub open spec fn column_width(w: nat) -> nat {
    minus(w as int, 9) / 2
}

/// The controller and what the DJ has to say; they stand in every layout.
pub open spec fn head_lines(info: NowPlaying, v: DashView, w: nat) -> Seq<Seq<SpanV>> {
    controller_top(info, v, w) + controller_bottom(info, v, w) + dj_section(
        strs(v.dj_log@),
        crate::boxes::opt_str(v.dj_ask),
        w,
    )
}

pub open spec fn queue_lines(info: NowPlaying, v: DashView, w: nat) -> Seq<Seq<SpanV>> {
    queue_section(info, v.download_in_flight, w, column_width(w), v.focus == DashFocus::Queue)
}

pub open spec fn history_lines(info: NowPlaying, v: DashView, w: nat) -> Seq<Seq<SpanV>> {
    history_section(info, w, column_width(w), v.focus == DashFocus::History)
}

pub open spec fn browse_lines(v: DashView, w: nat) -> Seq<Seq<SpanV>> {
    browse_section(v.browse, w, v.focus == DashFocus::Browse)
}

pub open spec fn log_lines_below(v: DashView, area: Area, top: nat) -> Seq<Seq<SpanV>> {
    log_section(
        v.log,
        v.log_offset as nat,
        area.width as nat,
        area.height as nat,
        top,
        v.focus == DashFocus::Log,
    )
}

/// The dashboard. The full layout stacks every section; the panel layout shows
/// the one that was picked.
pub open spec fn dashboard(info: NowPlaying, v: DashView, area: Area) -> Seq<Seq<SpanV>> {
    let w = area.width as nat;
    let head = head_lines(info, v, w);
    if !fits(area) {
        Seq::empty()
    } else if v.layout == DashLayout::Full {
        let above = head + queue_lines(info, v, w) + history_lines(info, v, w) + browse_lines(v, w);
        above + log_lines_below(v, area, above.len())
    } else {
        head + match v.panel {
            PanelSection::Queue => queue_lines(info, v, w),
            PanelSection::History => history_lines(info, v, w),
            PanelSection::Browse => browse_lines(v, w),
            PanelSection::Log => log_lines_below(v, area, head.len()),
        }
    }
}

/// What can be clicked on the dashboard.
pub open spec fn dashboard_places(info: NowPlaying, v: DashView, area: Area) -> Seq<ClickTarget> {
    let w = area.width as nat;
    let head = head_lines(info, v, w);
    let places = controller_places(info, v, area);
    let n = v.browse.items@.len();
    if !fits(area) {
        Seq::empty()
    } else if v.layout == DashLayout::Full {
        let above = head + queue_lines(info, v, w) + history_lines(info, v, w);
        places + browse_targets(n, area, above.len(), w)
    } else if v.panel == PanelSection::Browse {
        places + browse_targets(n, area, head.len(), w)
    } else {
        places
    }
}

/// Draws the dashboard: its lines, and what can be clicked on it.
pub fn render_dashboard(area: Area, info: &NowPlaying, v: &DashView) -> (r: (
    Vec<Line>,
    Vec<ClickTarget>,
))
    ensures
        lines_view(r.0@) == dashboard(*info, *v, area),
        r.1@ == dashboard_places(*info, *v, area),
{
    let mut lines: Vec<Line> = Vec::new();
    let mut targets: Vec<ClickTarget> = Vec::new();
    if area.width < 40 || area.height < 10 {
        assert(lines_view(lines@) =~= Seq::<Seq<SpanV>>::empty());
        return (lines, targets);
    }
    let w: usize = area.width as usize;
    let h: usize = area.height as usize;
    let cw: usize = sat_sub(w, 9) / 2;
    render_controller_top(&mut lines, &mut targets, info, v, area);
    let ghost top = lines_view(lines@);
    assert(lines@.len() == top.len());
    render_controller_bottom(&mut lines, &mut targets, info, v, area);
    assert(targets@ =~= controller_places(*info, *v, area));
    render_claude_dj_section(&mut lines, &v.dj_log, &v.dj_ask, w);
    let ghost head = head_lines(*info, *v, w as nat);
    assert(lines_view(lines@) == head);
    assert(lines@.len() == head.len());
    match v.layout {
        DashLayout::Full => {
            render_queue_section(
                &mut lines,
                info,
                v.download_in_flight,
                w,
                cw,
                v.focus == DashFocus::Queue,
            );
            render_history_section(&mut lines, info, w, cw, v.focus == DashFocus::History);
            assert(lines@.len() == lines_view(lines@).len());
            render_browse_section(
                &mut lines,
                &mut targets,
                area,
                &v.browse,
                w,
                v.focus == DashFocus::Browse,
            );
            assert(lines@.len() == lines_view(lines@).len());
            render_log_section(&mut lines, &v.log, v.log_offset, w, h, v.focus == DashFocus::Log);
        },
        DashLayout::Panel => match v.panel {
            PanelSection::Queue => render_queue_section(
                &mut lines,
                info,
                v.download_in_flight,
                w,
                cw,
                v.focus == DashFocus::Queue,
            ),
            PanelSection::History => render_history_section(
                &mut lines,
                info,
                w,
                cw,
                v.focus == DashFocus::History,
            ),
            PanelSection::Browse => render_browse_section(
                &mut lines,
                &mut targets,
                area,
                &v.browse,
                w,
                v.focus == DashFocus::Browse,
            ),
            PanelSection::Log => render_log_section(
                &mut lines,
                &v.log,
                v.log_offset,
                w,
                h,
                v.focus == DashFocus::Log,
            ),
        },
    }
    (lines, targets)
}

/// A row of a plain-text box `w` cells wide.
pub open spec fn text_row(content: Seq<char>, w: nat) -> Seq<char> {
    "│ "@ + crate::text::fit(content, minus(minus(w as int, 2) as int, 2)) + " │"@
}

fn text_row_str(content: &str, w: usize) -> (s: String)
    ensures
        s@ == text_row(content@, w as nat),
{
    let inner: String = ps(content, sat_sub(sat_sub(w, 2), 2));
    concat3("│ ", inner.as_str(), " │")
}

/// Adds a text.
fn add_str(out: &mut Vec<String>, s: String)
    ensures
        strs(final(out)@) == strs(old(out)@).push(s@),
{
    out.push(s);
    assert(strs(out@) =~= strs(old(out)@).push(s@));
}

fn add_text_row(out: &mut Vec<String>, content: &str, w: usize)
    ensures
        strs(final(out)@) == strs(old(out)@).push(text_row(content@, w as nat)),
{
    add_str(out, text_row_str(content, w));
}

/// How wide one deck is in the plain-text dashboard.
pub open spec fn text_half(w: nat) -> nat {
    minus(minus(minus(w as int, 2) as int, 2) as int, 2) / 2
}

/// The crossfader row of the plain-text dashboard.
pub open spec fn text_crossfader(info: NowPlaying, w: nat) -> Seq<char> {
    let cw = minus(minus(w as int, 2) as int, 2);
    ctrl_row(
        "CUE  ◀ JUMP ▶"@,
        "A "@ + crate::meters::crossfader_bar(info.crossfader_visual as int, meter_width(w))
            + " B"@,
        "◀ JUMP ▶  CUE"@,
        cw,
        cw / 2,
    )
}

/// The phase row of the plain-text dashboard.
pub open spec fn text_phase(info: NowPlaying, w: nat) -> Seq<char> {
    let cw = minus(minus(w as int, 2) as int, 2);
    let us = info.phase_us as int;
    ctrl_row(
        "PLAY  ◀ NUDGE ▶"@,
        "  "@ + crate::meters::phase_bar(us, meter_width(w)) + "  "@ + crate::text::pad_right(
            crate::meters::phase_text(us),
            7,
        ),
        "◀ NUDGE ▶  PLAY"@,
        cw,
        cw / 2,
    )
}

/// The waveforms of the plain-text dashboard, where both are known.
pub open spec fn text_waves(info: NowPlaying, mode: WaveformMode, w: nat) -> Seq<Seq<char>> {
    let wide = minus(minus(minus(w as int, 2) as int, 2) as int, 4);
    if info.deck_a.analysis is Some && info.deck_b.analysis is Some && mode != WaveformMode::Off {
        seq![
            text_row(crate::controller::compare_text(info.deck_a, true, mode, wide), w),
            text_row(crate::controller::compare_text(info.deck_b, false, mode, wide), w),
        ]
    } else {
        Seq::empty()
    }
}

/// The controller of the plain-text dashboard.
pub open spec fn text_controller(info: NowPlaying, mode: WaveformMode, w: nat) -> Seq<Seq<char>> {
    let half = text_half(w);
    let a = deck_text(info.deck_a, true, half);
    let b = deck_text(info.deck_b, false, half);
    seq![top_border("CONTROLLER"@, w), text_row(""@, w)] + Seq::new(
        3,
        |i: int|
            text_row(crate::text::fit(a[i], half) + "  "@ + crate::text::fit(b[i], half), w),
    ) + seq![text_row(text_crossfader(info, w), w), text_row(text_phase(info, w), w)] + text_waves(
        info,
        mode,
        w,
    ) + seq![bottom_border(w)]
}

pub open spec fn ranked(rank: nat, name: Seq<char>, tail: Seq<char>) -> Seq<char> {
    crate::text::pad_left(decimal(rank), 2) + "  "@ + name + "  "@ + tail
}

fn ranked_str(rank: usize, name: &str, tail: &str) -> (s: String)
    ensures
        s@ == ranked(rank as nat, name@, tail@),
{
    let r: String = crate::text::padded_left(decimal_str(rank as u64).as_str(), 2);
    let head: String = concat3(r.as_str(), "  ", name);
    concat3(head.as_str(), "  ", tail)
}

/// A list of the plain-text dashboard: its first rows, and how many more there
/// are.
pub open spec fn text_list(
    title: Seq<char>,
    empty: Seq<char>,
    n: nat,
    item: spec_fn(int) -> Seq<char>,
    w: nat,
) -> Seq<Seq<char>> {
    seq![top_border(title + " ("@ + decimal(n) + ")"@, w)] + (if n == 0 {
        seq![text_row(empty, w)]
    } else {
        Seq::new(min_of(n as int, 10) as nat, |i: int| text_row(item(i), w)) + if n > 10 {
            seq![text_row(crate::panels::more_text((n - 10) as nat), w)]
        } else {
            Seq::empty()
        }
    }) + seq![bottom_border(w)]
}

pub open spec fn text_queue_item(info: NowPlaying, i: int) -> Seq<char> {
    let t = info.queue@[i];
    ranked((i + 1) as nat, crate::track::track_name(t), crate::track::bpm_slash_key(t))
}

pub open spec fn text_history_item(info: NowPlaying, i: int) -> Seq<char> {
    let e = info.history@[i];
    ranked(
        (i + 1) as nat,
        crate::track::track_name(e.track),
        crate::track::bpm_slash_key(e.track) + crate::panels::mix_text(e.mix_score),
    )
}

pub open spec fn text_queue(info: NowPlaying, w: nat) -> Seq<Seq<char>> {
    text_list("QUEUE"@, "Empty"@, info.queue@.len(), |i: int| text_queue_item(info, i), w)
}

pub open spec fn text_history(info: NowPlaying, w: nat) -> Seq<Seq<char>> {
    text_list(
        "HISTORY"@,
        "No history yet"@,
        info.history@.len(),
        |i: int| text_history_item(info, i),
        w,
    )
}

/// The tempo and the name of a track, dashes for what is not known.
pub open spec fn text_track(bpm: Option<u32>, track: Option<crate::track::Track>) -> Seq<char> {
    tempo_text(bpm) + " BPM  "@ + match track {
        Some(t) => crate::track::track_name(t),
        None => "—"@,
    }
}

/// What the engine is doing.
pub open spec fn text_state(info: NowPlaying) -> Seq<Seq<char>> {
    seq![
        "State: "@ + info.state_name@ + "  Phase: "@ + crate::meters::phase_text(
            info.phase_us as int,
        ) + "  Crossfade: "@ + decimal(
            crate::text::round_div(info.crossfade_progress as nat, 10_000),
        ) + "%"@,
        "Playing:  "@ + text_track(info.playing_bpm, info.playing_track),
        "Incoming: "@ + text_track(info.incoming_bpm, info.incoming_track),
    ]
}

/// The dashboard as plain text.
pub open spec fn dashboard_text(info: NowPlaying, mode: WaveformMode, w: nat) -> Seq<Seq<char>> {
    text_controller(info, mode, w) + text_queue(info, w) + text_history(info, w) + text_state(info)
}

fn add_text_controller(out: &mut Vec<String>, info: &NowPlaying, mode: WaveformMode, w: usize)
    ensures
        strs(final(out)@) == strs(old(out)@) + text_controller(*info, mode, w as nat),
{
    let ghost start = strs(out@);
    let cw: usize = sat_sub(sat_sub(w, 2), 2);
    let half: usize = sat_sub(cw, 2) / 2;
    let a: Vec<String> = deck_text_line(&info.deck_a, true, half);
    let b: Vec<String> = deck_text_line(&info.deck_b, false, half);
    let ghost ta = deck_text(info.deck_a, true, half as nat);
    let ghost tb = deck_text(info.deck_b, false, half as nat);
    assert(a@.len() == 3) by {
        assert(strs(a@).len() == 3);
    }
    assert(b@.len() == 3) by {
        assert(strs(b@).len() == 3);
    }
    add_str(out, top_border_str("CONTROLLER", w));
    add_text_row(out, "", w);
    let ghost head = strs(out@);
    let ghost row = |i: int|
        text_row(
            crate::text::fit(ta[i], half as nat) + "  "@ + crate::text::fit(tb[i], half as nat),
            w as nat,
        );
    let mut i: usize = 0;
    while i < 3
        invariant
            i <= 3,
            a@.len() == 3,
            b@.len() == 3,
            strs(a@) == ta,
            strs(b@) == tb,
            row == (|i: int|
                text_row(
                    crate::text::fit(ta[i], half as nat) + "  "@ + crate::text::fit(
                        tb[i],
                        half as nat,
                    ),
                    w as nat,
                )),
            strs(out@) == head + Seq::new(i as nat, row),
        decreases 3 - i,
    {
        let left: String = ps(a[i].as_str(), half);
        let right: String = ps(b[i].as_str(), half);
        assert(a@[i as int]@ == ta[i as int] && b@[i as int]@ == tb[i as int]);
        add_text_row(out, concat3(left.as_str(), "  ", right.as_str()).as_str(), w);
        i += 1;
        assert(strs(out@) =~= head + Seq::new(i as nat, row));
    }
    let meter: String = crate::meters::crossfader_meter(info.crossfader_visual, meter_width_of(w));
    let bar: String = concat3("A ", meter.as_str(), " B");
    let one: String = build_ctrl_row("CUE  ◀ JUMP ▶", bar.as_str(), "◀ JUMP ▶  CUE", cw);
    add_text_row(out, one.as_str(), w);
    let needle: String = crate::meters::phase_meter(info.phase_us, meter_width_of(w));
    let value: String = crate::text::padded_right(crate::meters::phase_str(info.phase_us).as_str(), 7);
    let ph: String = concat3("  ", needle.as_str(), "  ");
    let center: String = concat2(ph.as_str(), value.as_str());
    let two: String = build_ctrl_row("PLAY  ◀ NUDGE ▶", center.as_str(), "◀ NUDGE ▶  PLAY", cw);
    add_text_row(out, two.as_str(), w);
    let ghost before = strs(out@);
    if info.deck_a.analysis.is_some() && info.deck_b.analysis.is_some() && mode
        != WaveformMode::Off {
        let wide: usize = sat_sub(cw, 4);
        let wa: String = crate::controller::compare_str(&info.deck_a, true, mode, wide);
        add_text_row(out, wa.as_str(), w);
        let wb: String = crate::controller::compare_str(&info.deck_b, false, mode, wide);
        add_text_row(out, wb.as_str(), w);
    }
    assert(strs(out@) =~= before + text_waves(*info, mode, w as nat));
    add_str(out, bottom_border_str(w));
    assert(strs(out@) =~= start + text_controller(*info, mode, w as nat));
}

fn add_text_list(
    out: &mut Vec<String>,
    title: &str,
    empty: &str,
    items: &Vec<String>,
    n: usize,
    w: usize,
    item: Ghost<spec_fn(int) -> Seq<char>>,
)
    requires
        items@.len() == min_of(n as int, 10),
        forall|i: int| 0 <= i < items@.len() ==> (#[trigger] items@[i])@ == item@(i),
    ensures
        strs(final(out)@) == strs(old(out)@) + text_list(title@, empty@, n as nat, item@, w as nat),
{
    let ghost start = strs(out@);
    let head: String = concat3(title, " (", decimal_str(n as u64).as_str());
    let full: String = concat2(head.as_str(), ")");
    add_str(out, top_border_str(full.as_str(), w));
    let ghost top = strs(out@);
    if n == 0 {
        add_text_row(out, empty, w);
    } else {
        let mut i: usize = 0;
        while i < items.len()
            invariant
                i <= items.len(),
                forall|i: int| 0 <= i < items@.len() ==> (#[trigger] items@[i])@ == item@(i),
                strs(out@) == top + Seq::new(i as nat, |k: int| text_row(item@(k), w as nat)),
            decreases items.len() - i,
        {
            add_text_row(out, items[i].as_str(), w);
            i += 1;
            assert(strs(out@) =~= top + Seq::new(
                i as nat,
                |k: int| text_row(item@(k), w as nat),
            ));
        }
        if n > 10 {
            let more: String = crate::panels::more_str(n - 10);
            add_text_row(out, more.as_str(), w);
        }
    }
    add_str(out, bottom_border_str(w));
    assert(strs(out@) =~= start + text_list(title@, empty@, n as nat, item@, w as nat));
}

fn add_text_queue(out: &mut Vec<String>, info: &NowPlaying, w: usize)
    ensures
        strs(final(out)@) == strs(old(out)@) + text_queue(*info, w as nat),
{
    let n: usize = info.queue.len();
    let shown: usize = if n < 10 {
        n
    } else {
        10
    };
    let mut items: Vec<String> = Vec::new();
    let mut i: usize = 0;
    while i < shown
        invariant
            i <= shown <= info.queue@.len(),
            shown <= 10,
            items@.len() == i,
            forall|k: int| 0 <= k < i ==> (#[trigger] items@[k])@ == text_queue_item(*info, k),
        decreases shown - i,
    {
        let t: &crate::track::Track = &info.queue[i];
        items.push(
            ranked_str(i + 1, t.name().as_str(), crate::track::bpm_slash_key_str(t).as_str()),
        );
        i += 1;
    }
    add_text_list(
        out,
        "QUEUE",
        "Empty",
        &items,
        n,
        w,
        Ghost(|i: int| text_queue_item(*info, i)),
    );
}

fn add_text_history(out: &mut Vec<String>, info: &NowPlaying, w: usize)
    ensures
        strs(final(out)@) == strs(old(out)@) + text_history(*info, w as nat),
{
    let n: usize = info.history.len();
    let shown: usize = if n < 10 {
        n
    } else {
        10
    };
    let mut items: Vec<String> = Vec::new();
    let mut i: usize = 0;
    while i < shown
        invariant
            i <= shown <= info.history@.len(),
            shown <= 10,
            items@.len() == i,
            forall|k: int| 0 <= k < i ==> (#[trigger] items@[k])@ == text_history_item(*info, k),
        decreases shown - i,
    {
        let e: &HistoryEntry = &info.history[i];
        let bk: String = crate::track::bpm_slash_key_str(&e.track);
        let mix: String = crate::panels::mix_str(e.mix_score);
        let tail: String = concat2(bk.as_str(), mix.as_str());
        items.push(ranked_str(i + 1, e.track.name().as_str(), tail.as_str()));
        i += 1;
    }
    add_text_list(
        out,
        "HISTORY",
        "No history yet",
        &items,
        n,
        w,
        Ghost(|i: int| text_history_item(*info, i)),
    );
}

fn text_track_str(bpm: Option<u32>, track: &Option<crate::track::Track>) -> (s: String)
    ensures
        s@ == text_track(bpm, *track),
{
    let b: String = tempo_str(bpm);
    match track {
        Some(t) => concat3(b.as_str(), " BPM  ", t.name().as_str()),
        None => concat3(b.as_str(), " BPM  ", "—"),
    }
}

fn add_text_state(out: &mut Vec<String>, info: &NowPlaying)
    ensures
        strs(final(out)@) == strs(old(out)@) + text_state(*info),
{
    let ghost start = strs(out@);
    let a: String = concat3("State: ", info.state_name.as_str(), "  Phase: ");
    let b: String = concat3(
        a.as_str(),
        crate::meters::phase_str(info.phase_us).as_str(),
        "  Crossfade: ",
    );
    let percent: u128 = crate::text::rounded_div(info.crossfade_progress as u128, 10_000);
    add_str(
        out,
        concat3(b.as_str(), crate::text::wide_decimal_str(percent).as_str(), "%"),
    );
    let p: String = text_track_str(info.playing_bpm, &info.playing_track);
    add_str(out, concat2("Playing:  ", p.as_str()));
    let q: String = text_track_str(info.incoming_bpm, &info.incoming_track);
    add_str(out, concat2("Incoming: ", q.as_str()));
    assert(strs(out@) =~= start + text_state(*info));
}

/// The dashboard as plain text, for dumps of the screen.
pub fn render_dashboard_text(info: &NowPlaying, wf_mode: WaveformMode, width: usize) -> (out: Vec<
    String,
>)
    ensures
        strs(out@) == dashboard_text(*info, wf_mode, width as nat),
{
    let mut out: Vec<String> = Vec::new();
    assert(strs(out@) =~= Seq::<Seq<char>>::empty());
    add_text_controller(&mut out, info, wf_mode, width);
    add_text_queue(&mut out, info, width);
    add_text_history(&mut out, info, width);
    add_text_state(&mut out, info);
    assert(strs(out@) =~= dashboard_text(*info, wf_mode, width as nat));
    out
}

} // verus!
