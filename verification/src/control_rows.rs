//! The rows below the decks: what the mix is about to do, the crossfader with
//! cues and jumps, the phase meter with play, nudge and loops.
use crate::boxes::{build_ctrl_row_at, ctrl_row};
use crate::controls::CtrlSection;
use crate::deck::NowPlaying;
use crate::meters::{
    crossfader_bar, crossfader_meter, cue_dots, cue_dots_str, phase_bar, phase_meter, phase_str,
    phase_text, wide_mul,
};
use crate::text::{
    chars_of, concat2, concat3, decimal, decimal_str, max_of, min_of, minus, owned, repeat,
    repeated, sat_sub, wide_decimal_str,
};
use vstd::prelude::*;
use vstd::string::*;

verus! {

/// The width of the crossfader and phase meters.
pub open spec fn meter_width(w: nat) -> nat {
    max_of(min_of(w as int / 3, 28), 10) as nat
}

pub fn meter_width_of(w: usize) -> (m: usize)
    ensures
        m == meter_width(w as nat),
        10 <= m <= 28,
{
    let third: usize = w / 3;
    if third < 10 {
        10
    } else if third > 28 {
        28
    } else {
        third
    }
}

/// The column, inside the box, of the line between the two decks' strips; the
/// meters are held on it.
pub open spec fn center_col(w: nat) -> nat {
    minus(minus(w as int, 1) as int / 2, 2)
}

pub fn center_col_of(w: usize) -> (c: usize)
    ensures
        c == center_col(w as nat),
{
    sat_sub(sat_sub(w, 1) / 2, 2)
}

/// The label of a control, in brackets where it has the focus.
pub open spec fn marked(sel: Option<CtrlSection>, section: CtrlSection, text: Seq<char>) -> Seq<char> {
    if sel == Some(section) {
        "["@ + text + "]"@
    } else {
        text
    }
}

fn mark(sel: Option<CtrlSection>, section: CtrlSection, text: &str) -> (s: String)
    ensures
        s@ == marked(sel, section, text@),
{
    let focused: bool = match sel {
        Some(x) => x == section,
        None => false,
    };
    if focused {
        concat3("[", text, "]")
    } else {
        owned(text)
    }
}

pub open spec fn jump_label(bars: nat) -> Seq<char> {
    "◀ JUMP "@ + decimal(bars) + " ▶"@
}

fn jump_label_str(bars: u32) -> (s: String)
    ensures
        s@ == jump_label(bars as nat),
{
    concat3("◀ JUMP ", decimal_str(bars as u64).as_str(), " ▶")
}

/// Three parts of a row, with the usual distance between them.
pub open spec fn spaced(a: Seq<char>, b: Seq<char>, c: Seq<char>) -> Seq<char> {
    a + "   "@ + b + "   "@ + c
}

fn spaced_str(a: &str, b: &str, c: &str) -> (s: String)
    ensures
        s@ == spaced(a@, b@, c@),
{
    let ab: String = concat3(a, "   ", b);
    concat3(ab.as_str(), "   ", c)
}

/// What stands left of the crossfader.
pub open spec fn left_one(info: NowPlaying, sel: Option<CtrlSection>) -> Seq<char> {
    spaced(
        marked(sel, CtrlSection::CueA, "CUE"@),
        marked(sel, CtrlSection::JumpA, jump_label(info.jump_bars as nat)),
        cue_dots(info.deck_a.cues),
    )
}

/// What stands right of the crossfader.
pub open spec fn right_one(info: NowPlaying, sel: Option<CtrlSection>) -> Seq<char> {
    spaced(
        cue_dots(info.deck_b.cues),
        marked(sel, CtrlSection::JumpB, jump_label(info.jump_bars as nat)),
        marked(sel, CtrlSection::CueB, "CUE"@),
    )
}

/// The row of the crossfader: cue and jump labels and hot cues on either side.
pub open spec fn row_one(info: NowPlaying, sel: Option<CtrlSection>, w: nat) -> Seq<char> {
    ctrl_row(
        left_one(info, sel),
        "A "@ + crossfader_bar(info.crossfader_visual as int, meter_width(w)) + " B"@,
        right_one(info, sel),
        minus(minus(w as int, 2) as int, 2),
        center_col(w),
    )
}

pub fn row_one_str(info: &NowPlaying, sel: Option<CtrlSection>, w: usize) -> (s: String)
    ensures
        s@ == row_one(*info, sel, w as nat),
{
    let jump: String = jump_label_str(info.jump_bars);
    let left: String = spaced_str(
        mark(sel, CtrlSection::CueA, "CUE").as_str(),
        mark(sel, CtrlSection::JumpA, jump.as_str()).as_str(),
        cue_dots_str(&info.deck_a.cues).as_str(),
    );
    let right: String = spaced_str(
        cue_dots_str(&info.deck_b.cues).as_str(),
        mark(sel, CtrlSection::JumpB, jump.as_str()).as_str(),
        mark(sel, CtrlSection::CueB, "CUE").as_str(),
    );
    let meter: String = crossfader_meter(info.crossfader_visual, meter_width_of(w));
    let center: String = concat3("A ", meter.as_str(), " B");
    build_ctrl_row_at(
        left.as_str(),
        center.as_str(),
        right.as_str(),
        sat_sub(sat_sub(w, 2), 2),
        center_col_of(w),
    )
}

/// The row of the phase meter: play, nudge and loop labels on either side.
pub open spec fn row_two(info: NowPlaying, sel: Option<CtrlSection>, w: nat) -> Seq<char> {
    ctrl_row(
        spaced(
            marked(sel, CtrlSection::PlayA, "PLAY"@),
            marked(sel, CtrlSection::NudgeA, "◀ NUDGE ▶"@),
            "1  2  4  8  16  off"@,
        ),
        phase_bar(info.phase_us as int, meter_width(w)),
        spaced(
            "1  2  4  8  16  off"@,
            marked(sel, CtrlSection::NudgeB, "◀ NUDGE ▶"@),
            marked(sel, CtrlSection::PlayB, "PLAY"@),
        ),
        minus(minus(w as int, 2) as int, 2),
        center_col(w),
    )
}

pub fn row_two_str(info: &NowPlaying, sel: Option<CtrlSection>, w: usize) -> (s: String)
    ensures
        s@ == row_two(*info, sel, w as nat),
{
    let left: String = spaced_str(
        mark(sel, CtrlSection::PlayA, "PLAY").as_str(),
        mark(sel, CtrlSection::NudgeA, "◀ NUDGE ▶").as_str(),
        "1  2  4  8  16  off",
    );
    let right: String = spaced_str(
        "1  2  4  8  16  off",
        mark(sel, CtrlSection::NudgeB, "◀ NUDGE ▶").as_str(),
        mark(sel, CtrlSection::PlayB, "PLAY").as_str(),
    );
    let meter: String = phase_meter(info.phase_us, meter_width_of(w));
    build_ctrl_row_at(
        left.as_str(),
        meter.as_str(),
        right.as_str(),
        sat_sub(sat_sub(w, 2), 2),
        center_col_of(w),
    )
}

/// The phase value, its point held on the middle column.
pub open spec fn phase_row(us: int, w: nat) -> Seq<char> {
    let text = phase_text(us);
    repeat(' ', minus(center_col(w) as int, crate::boxes::first_of(text, '.', 0))) + text
}

pub fn phase_row_str(us: i64, w: usize) -> (s: String)
    ensures
        s@ == phase_row(us as int, w as nat),
{
    let text: String = phase_str(us);
    let v: Vec<char> = chars_of(text.as_str());
    let dot: usize = crate::boxes::first_of_char(&v, '.', 0);
    let lead: String = repeated(' ', sat_sub(center_col_of(w), dot));
    concat2(lead.as_str(), text.as_str())
}

/// How many beats are left of a move of the fader.
pub open spec fn beats_left(bars: nat, sweep: int) -> int {
    let total = 4 * bars;
    total - max_of(0, min_of(sweep * total / 1_000_000, total as int))
}

fn beats_left_of(bars: u32, sweep: i64) -> (n: u64)
    ensures
        n == beats_left(bars as nat, sweep as int),
{
    let total: u64 = 4 * (bars as u64);
    if sweep <= 0 {
        assert(sweep as int * total as int <= 0) by (nonlinear_arith)
            requires
                sweep <= 0,
        ;
        return total;
    }
    let m: u128 = wide_mul(sweep as u64, total);
    let gone: u128 = m / 1_000_000;
    if gone > total as u128 {
        0
    } else {
        total - gone as u64
    }
}

/// How many bars of four beats a time takes up, begun ones counted; a bar takes
/// 1.8 s where the tempo is not known.
pub open spec fn bars_until(ms: nat, bpm: Option<u32>) -> nat {
    match bpm {
        Some(b) => (ms * (b as nat) + 239_999_999) / 240_000_000,
        None => (ms + 1799) / 1800,
    }
}

fn bars_until_of(ms: u64, bpm: Option<u32>) -> (n: u128)
    ensures
        n == bars_until(ms as nat, bpm),
{
    match bpm {
        Some(b) => {
            let m: u128 = wide_mul(ms, b as u64);
            assert(m <= 0xffff_ffff_ffff_ffff * 0xffff_ffff) by (nonlinear_arith)
                requires
                    m == ms * (b as u64),
                    ms <= 0xffff_ffff_ffff_ffff,
                    b <= 0xffff_ffff,
            ;
            (m + 239_999_999) / 240_000_000
        },
        None => (ms as u128 + 1799) / 1800,
    }
}

/// How long it is until the mix starts.
pub open spec fn mix_label(ms: nat, bpm: Option<u32>) -> Seq<char> {
    let bars = bars_until(ms, bpm);
    if bars > 1 {
        "MIX IN "@ + decimal(min_of(bars as int, 0x7fff_ffff) as nat) + " bars"@
    } else if ms > 1000 {
        "MIX NEXT BAR"@
    } else {
        "MIX NOW"@
    }
}

fn mix_label_str(ms: u64, bpm: Option<u32>) -> (s: String)
    ensures
        s@ == mix_label(ms as nat, bpm),
{
    let bars: u128 = bars_until_of(ms, bpm);
    if bars > 1 {
        let shown: u128 = if bars > 0x7fff_ffff {
            0x7fff_ffff
        } else {
            bars
        };
        concat3("MIX IN ", wide_decimal_str(shown).as_str(), " bars")
    } else if ms > 1000 {
        owned("MIX NEXT BAR")
    } else {
        owned("MIX NOW")
    }
}

/// What is said above the crossfader: the transition and what is left of it
/// while it runs, else how long it is until the next one.
pub open spec fn mix_status(info: NowPlaying) -> Option<Seq<char>> {
    if info.crossfading {
        let left = beats_left(info.transition_bars as nat, info.fader_sweep as int);
        Some(
            info.transition_type_name@ + " "@ + decimal((left / 4) as nat) + "."@ + decimal(
                (left % 4) as nat,
            ),
        )
    } else {
        match info.mix_point_ms {
            Some(m) if m > info.playing_time_ms => Some(
                mix_label((m - info.playing_time_ms) as nat, info.playing_bpm),
            ),
            _ => None,
        }
    }
}

pub fn mix_status_str(info: &NowPlaying) -> (r: Option<String>)
    ensures
        match r {
            Some(s) => mix_status(*info) == Some(s@),
            None => mix_status(*info) is None,
        },
{
    if info.crossfading {
        let left: u64 = beats_left_of(info.transition_bars, info.fader_sweep);
        let head: String = concat3(
            info.transition_type_name.as_str(),
            " ",
            decimal_str(left / 4).as_str(),
        );
        Some(concat3(head.as_str(), ".", decimal_str(left % 4).as_str()))
    } else {
        match info.mix_point_ms {
            Some(m) => if m > info.playing_time_ms {
                Some(mix_label_str(m - info.playing_time_ms, info.playing_bpm))
            } else {
                None
            },
            None => None,
        }
    }
}

/// The countdown of a transition runs from all its beats to none, and never
/// grows as the fader moves on.
pub proof fn countdown_runs_down(bars: nat, sweep: int, later: int)
    requires
        sweep <= later,
    ensures
        0 <= beats_left(bars, later) <= beats_left(bars, sweep) <= 4 * bars,
        sweep <= 0 ==> beats_left(bars, sweep) == 4 * bars,
        sweep >= 1_000_000 ==> beats_left(bars, sweep) == 0,
{
    let total = 4 * bars;
    assert(sweep * total <= later * total) by (nonlinear_arith)
        requires
            sweep <= later,
            total >= 0,
    ;
    if sweep <= 0 {
        assert(sweep * total <= 0) by (nonlinear_arith)
            requires
                sweep <= 0,
                total >= 0,
        ;
    }
    if sweep >= 1_000_000 {
        assert(sweep * total >= 1_000_000 * total) by (nonlinear_arith)
            requires
                sweep >= 1_000_000,
                total >= 0,
        ;
    }
}

} // verus!
