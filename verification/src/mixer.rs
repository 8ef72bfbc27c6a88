//! The virtual mixer and the deck controls: how a key, a click or a drag moves
//! equalisers, filters, faders, tempo and crossfader.
use crate::controls::CtrlSection;
use crate::clicks::RangeControl;
use crate::deck::{Deck, NowPlaying};
use crate::effects::{
    act_and_toast, add_act, add_toast, fx_view, no_effects, only_act, Act, Effect, EffectV,
};
use crate::meters::{signed_whole, signed_whole_str};
use crate::numbers::{
    plain2, plain2_str, plain3, plain3_str, signed2, signed2_str, signed_percent1,
    signed_percent1_str,
};
use crate::style::{
    add_line, add_span, add_text_line, lines_view, span, spans_view, Color, Line, Span, SpanV, Style,
};
use crate::text::{
    concat2, concat3, decimal, decimal_str, max_of, min_of, pad_left, pad_right, padded_left,
    padded_right,
};
use vstd::prelude::*;
use vstd::string::*;

verus! {

/// A row of the mixer overlay.
#[derive(Debug, Clone, Copy, PartialEq, Eq, Structural)]
pub enum MixerRow {
    EqLow,
    EqMid,
    EqHigh,
    Filter,
    Fader,
}

impl MixerRow {
    pub open spec fn spec_next(self) -> MixerRow {
        match self {
            MixerRow::EqLow => MixerRow::EqMid,
            MixerRow::EqMid => MixerRow::EqHigh,
            MixerRow::EqHigh => MixerRow::Filter,
            MixerRow::Filter => MixerRow::Fader,
            MixerRow::Fader => MixerRow::EqLow,
        }
    }

    #[verifier::when_used_as_spec(spec_next)]
    pub fn next(self) -> (r: MixerRow)
        ensures
            r == self.spec_next(),
    {
        match self {
            MixerRow::EqLow => MixerRow::EqMid,
            MixerRow::EqMid => MixerRow::EqHigh,
            MixerRow::EqHigh => MixerRow::Filter,
            MixerRow::Filter => MixerRow::Fader,
            MixerRow::Fader => MixerRow::EqLow,
        }
    }

    pub open spec fn spec_prev(self) -> MixerRow {
        match self {
            MixerRow::EqLow => MixerRow::Fader,
            MixerRow::EqMid => MixerRow::EqLow,
            MixerRow::EqHigh => MixerRow::EqMid,
            MixerRow::Filter => MixerRow::EqHigh,
            MixerRow::Fader => MixerRow::Filter,
        }
    }

    #[verifier::when_used_as_spec(spec_prev)]
    pub fn prev(self) -> (r: MixerRow)
        ensures
            r == self.spec_prev(),
    {
        match self {
            MixerRow::EqLow => MixerRow::Fader,
            MixerRow::EqMid => MixerRow::EqLow,
            MixerRow::EqHigh => MixerRow::EqMid,
            MixerRow::Filter => MixerRow::EqHigh,
            MixerRow::Fader => MixerRow::Filter,
        }
    }

    pub open spec fn spec_label(&self) -> &'static str {
        match *self {
            MixerRow::EqLow => "EQ Low",
            MixerRow::EqMid => "EQ Mid",
            MixerRow::EqHigh => "EQ High",
            MixerRow::Filter => "Filter",
            MixerRow::Fader => "Fader",
        }
    }

    #[verifier::when_used_as_spec(spec_label)]
    pub fn label(&self) -> (s: &'static str)
        ensures
            s == self.spec_label(),
    {
        match *self {
            MixerRow::EqLow => "EQ Low",
            MixerRow::EqMid => "EQ Mid",
            MixerRow::EqHigh => "EQ High",
            MixerRow::Filter => "Filter",
            MixerRow::Fader => "Fader",
        }
    }
}

/// Going to the next row and back leads to the same row, and five steps lead
/// round.
pub proof fn mixer_rows_cycle(r: MixerRow)
    ensures
        r.spec_next().spec_prev() == r,
        r.spec_prev().spec_next() == r,
        r.spec_next().spec_next().spec_next().spec_next().spec_next() == r,
        r.spec_next() != r,
{
}

pub open spec fn deck_letter(is_a: bool) -> Seq<char> {
    if is_a {
        "A"@
    } else {
        "B"@
    }
}

/// `A` or `B`.
pub fn deck_label(is_a: bool) -> (s: &'static str)
    ensures
        s@ == deck_letter(is_a),
{
    if is_a {
        "A"
    } else {
        "B"
    }
}

/// A value held between two limits.
pub open spec fn held(v: int, low: int, high: int) -> int {
    max_of(low, min_of(v, high))
}

/// A gain after a step up or down, in hundredths of a decibel.
pub open spec fn eq_stepped(gain: int, step: int) -> int {
    held(gain + 100 * step, -2400, 1200)
}

fn eq_step(gain: i32, step: i32) -> (v: i32)
    requires
        -1 <= step <= 1,
    ensures
        v == eq_stepped(gain as int, step as int),
        -2400 <= v <= 1200,
{
    let v: i64 = gain as i64 + 100 * (step as i64);
    if v < -2400 {
        -2400
    } else if v > 1200 {
        1200
    } else {
        v as i32
    }
}

/// A level after a step of 0.05, in millionths; it is given in thousandths.
pub open spec fn level_stepped(level: int, step: int, low: int) -> int {
    held(1000 * level + 50_000 * step, low, 1_000_000)
}

fn level_step(level: i32, step: i32, low: i64) -> (v: i64)
    requires
        -1 <= step <= 1,
        -1_000_000 <= low <= 0,
    ensures
        v == level_stepped(level as int, step as int, low as int),
        low <= v <= 1_000_000,
{
    let v: i64 = 1000 * (level as i64) + 50_000 * (step as i64);
    if v < low {
        low
    } else if v > 1_000_000 {
        1_000_000
    } else {
        v
    }
}

/// Moves one equaliser band.
pub open spec fn set_band(is_a: bool, row: MixerRow, v: i32) -> Act {
    match row {
        MixerRow::EqLow => Act::SetEq { is_a, low: Some(v), mid: None, high: None },
        MixerRow::EqMid => Act::SetEq { is_a, low: None, mid: Some(v), high: None },
        _ => Act::SetEq { is_a, low: None, mid: None, high: Some(v) },
    }
}

fn set_band_of(is_a: bool, row: MixerRow, v: i32) -> (a: Act)
    ensures
        a == set_band(is_a, row, v),
{
    match row {
        MixerRow::EqLow => Act::SetEq { is_a, low: Some(v), mid: None, high: None },
        MixerRow::EqMid => Act::SetEq { is_a, low: None, mid: Some(v), high: None },
        _ => Act::SetEq { is_a, low: None, mid: None, high: Some(v) },
    }
}

pub open spec fn band_gain(deck: Deck, row: MixerRow) -> i32 {
    match row {
        MixerRow::EqLow => deck.eq_low,
        MixerRow::EqMid => deck.eq_mid,
        _ => deck.eq_high,
    }
}

fn band_gain_of(deck: &Deck, row: MixerRow) -> (v: i32)
    ensures
        v == band_gain(*deck, row),
{
    match row {
        MixerRow::EqLow => deck.eq_low,
        MixerRow::EqMid => deck.eq_mid,
        _ => deck.eq_high,
    }
}

pub open spec fn band_name(row: MixerRow) -> Seq<char> {
    match row {
        MixerRow::EqLow => "Low"@,
        MixerRow::EqMid => "Mid"@,
        _ => "High"@,
    }
}

fn band_name_of(row: MixerRow) -> (s: &'static str)
    ensures
        s@ == band_name(row),
{
    match row {
        MixerRow::EqLow => "Low",
        MixerRow::EqMid => "Mid",
        _ => "High",
    }
}

/// Moving an equaliser band by a step.
pub open spec fn band_effects(deck: Deck, is_a: bool, row: MixerRow, step: int, ms: u64) -> Seq<
    EffectV,
> {
    let v = eq_stepped(band_gain(deck, row) as int, step);
    seq![
        EffectV::Do(set_band(is_a, row, v as i32)),
        EffectV::Toast(
            band_name(row) + " "@ + deck_letter(is_a) + ": "@ + signed_whole(v) + " dB"@,
            ms,
        ),
    ]
}

fn move_band(deck: &Deck, is_a: bool, row: MixerRow, step: i32, ms: u64) -> (fx: Vec<Effect>)
    requires
        -1 <= step <= 1,
    ensures
        fx_view(fx@) == band_effects(*deck, is_a, row, step as int, ms),
{
    let v: i32 = eq_step(band_gain_of(deck, row), step);
    let a: String = concat3(band_name_of(row), " ", deck_label(is_a));
    let b: String = concat3(a.as_str(), ": ", signed_whole_str(v).as_str());
    let text: String = concat2(b.as_str(), " dB");
    act_and_toast(set_band_of(is_a, row, v), text.as_str(), ms)
}

/// Moving the filter by a step.
pub open spec fn filter_effects(deck: Deck, is_a: bool, step: int, ms: u64) -> Seq<EffectV> {
    let v = level_stepped(deck.filter as int, step, -1_000_000);
    seq![
        EffectV::Do(Act::SetFilter { is_a, pos: v as i64 }),
        EffectV::Toast("Filter "@ + deck_letter(is_a) + ": "@ + signed2(v), ms),
    ]
}

fn move_filter(deck: &Deck, is_a: bool, step: i32, ms: u64) -> (fx: Vec<Effect>)
    requires
        -1 <= step <= 1,
    ensures
        fx_view(fx@) == filter_effects(*deck, is_a, step as int, ms),
{
    let v: i64 = level_step(deck.filter, step, -1_000_000);
    let head: String = concat3("Filter ", deck_label(is_a), ": ");
    let text: String = concat2(head.as_str(), signed2_str(v).as_str());
    act_and_toast(Act::SetFilter { is_a, pos: v }, text.as_str(), ms)
}

/// A step of the selected row of the mixer overlay: one decibel, or 0.05.
pub open spec fn row_effects(info: NowPlaying, is_a: bool, row: MixerRow, step: int) -> Seq<EffectV> {
    let deck = *info.spec_deck(is_a);
    match row {
        MixerRow::Filter => filter_effects(deck, is_a, step, 500),
        MixerRow::Fader => {
            let v = level_stepped(deck.fader as int, step, 0);
            seq![
                EffectV::Do(Act::SetFader { is_a, level: v as i64 }),
                EffectV::Toast("Fader "@ + deck_letter(is_a) + ": "@ + plain2(v), 500),
            ]
        },
        _ => band_effects(deck, is_a, row, step, 500),
    }
}

/// Moves the selected row of the mixer overlay by a step.
pub fn adjust_mixer_row(info: &NowPlaying, is_a: bool, row: MixerRow, step: i32) -> (fx: Vec<Effect>)
    requires
        -1 <= step <= 1,
    ensures
        fx_view(fx@) == row_effects(*info, is_a, row, step as int),
{
    let deck: &Deck = info.deck(is_a);
    match row {
        MixerRow::Filter => move_filter(deck, is_a, step, 500),
        MixerRow::Fader => {
            let v: i64 = level_step(deck.fader, step, 0);
            let head: String = concat3("Fader ", deck_label(is_a), ": ");
            let text: String = concat2(head.as_str(), plain2_str(v).as_str());
            act_and_toast(Act::SetFader { is_a, level: v }, text.as_str(), 500)
        },
        _ => move_band(deck, is_a, row, step, 500),
    }
}

/// Puts the selected row of the mixer overlay back to neutral.
pub open spec fn row_reset(is_a: bool, row: MixerRow) -> Seq<EffectV> {
    seq![
        EffectV::Do(
            match row {
                MixerRow::Filter => Act::SetFilter { is_a, pos: 0 },
                MixerRow::Fader => Act::SetFader { is_a, level: 1_000_000 },
                _ => set_band(is_a, row, 0),
            },
        ),
        EffectV::Toast(row.spec_label()@ + " reset"@, 500),
    ]
}

pub fn reset_mixer_row(is_a: bool, row: MixerRow) -> (fx: Vec<Effect>)
    ensures
        fx_view(fx@) == row_reset(is_a, row),
{
    let act: Act = match row {
        MixerRow::Filter => Act::SetFilter { is_a, pos: 0 },
        MixerRow::Fader => Act::SetFader { is_a, level: 1_000_000 },
        _ => set_band_of(is_a, row, 0),
    };
    act_and_toast(act, concat2(row.label(), " reset").as_str(), 500)
}

/// Everything of a deck at neutral.
pub open spec fn deck_reset(is_a: bool) -> Seq<EffectV> {
    seq![
        EffectV::Do(Act::SetEq { is_a, low: Some(0), mid: Some(0), high: Some(0) }),
        EffectV::Do(Act::SetFilter { is_a, pos: 0 }),
        EffectV::Do(Act::SetFader { is_a, level: 1_000_000 }),
    ]
}

/// Everything of both decks at neutral, the crossfader in the middle.
pub open spec fn mixer_reset() -> Seq<EffectV> {
    deck_reset(true) + deck_reset(false) + seq![
        EffectV::Do(Act::SetCrossfader(0)),
        EffectV::Toast("Mixer reset"@, 800),
    ]
}

pub fn reset_all_mixer_controls() -> (fx: Vec<Effect>)
    ensures
        fx_view(fx@) == mixer_reset(),
{
    let mut fx: Vec<Effect> = no_effects();
    add_act(&mut fx, Act::SetEq { is_a: true, low: Some(0), mid: Some(0), high: Some(0) });
    add_act(&mut fx, Act::SetFilter { is_a: true, pos: 0 });
    add_act(&mut fx, Act::SetFader { is_a: true, level: 1_000_000 });
    add_act(&mut fx, Act::SetEq { is_a: false, low: Some(0), mid: Some(0), high: Some(0) });
    add_act(&mut fx, Act::SetFilter { is_a: false, pos: 0 });
    add_act(&mut fx, Act::SetFader { is_a: false, level: 1_000_000 });
    add_act(&mut fx, Act::SetCrossfader(0));
    add_toast(&mut fx, "Mixer reset", 800);
    assert(fx_view(fx@) =~= mixer_reset());
    fx
}

/// The part of a range that lies before a place, in millionths.
pub open spec fn fraction(at: int, low: int, high: int) -> int {
    1_000_000 * held(at - low, 0, high - low) / (high - low)
}

fn fraction_of(at: u16, low: u16, high: u16) -> (f: i64)
    requires
        low < high,
    ensures
        f == fraction(at as int, low as int, high as int),
        0 <= f <= 1_000_000,
{
    let span: u64 = (high - low) as u64;
    let d: u64 = if at < low {
        0
    } else {
        (at - low) as u64
    };
    let rel: u64 = if d > span {
        span
    } else {
        d
    };
    let f: u64 = 1_000_000 * rel / span;
    assert(f <= 1_000_000) by (nonlinear_arith)
        requires
            f == (1_000_000 * rel) as int / span as int,
            rel <= span,
            span > 0,
    ;
    f as i64
}

/// Where a click on the crossfader puts it: the left edge is -1, the right edge
/// 1, in millionths.
pub open spec fn crossfader_at(col: int, x_min: int, x_max: int) -> int {
    2_000_000 * held(col - x_min, 0, x_max - x_min) / (x_max - x_min) - 1_000_000
}

pub fn crossfader_position(col: u16, x_min: u16, x_max: u16) -> (pos: i64)
    requires
        x_min < x_max,
    ensures
        pos == crossfader_at(col as int, x_min as int, x_max as int),
        -1_000_000 <= pos <= 1_000_000,
{
    let span: u64 = (x_max - x_min) as u64;
    let d: u64 = if col < x_min {
        0
    } else {
        (col - x_min) as u64
    };
    let rel: u64 = if d > span {
        span
    } else {
        d
    };
    let f: u64 = 2_000_000 * rel / span;
    assert(f <= 2_000_000) by (nonlinear_arith)
        requires
            f == (2_000_000 * rel) as int / span as int,
            rel <= span,
            span > 0,
    ;
    f as i64 - 1_000_000
}

/// The edges of the crossfader are -1 and 1, its middle is 0, and a click
/// further right never sets it further left.
pub proof fn crossfader_range_is_linear(x_min: int, x_max: int, a: int, b: int)
    requires
        x_min < x_max,
        a <= b,
    ensures
        a <= x_min ==> crossfader_at(a, x_min, x_max) == -1_000_000,
        b >= x_max ==> crossfader_at(b, x_min, x_max) == 1_000_000,
        2 * a == x_min + x_max ==> crossfader_at(a, x_min, x_max) == 0,
        crossfader_at(a, x_min, x_max) <= crossfader_at(b, x_min, x_max),
{
    let span = x_max - x_min;
    let ra = held(a - x_min, 0, span);
    let rb = held(b - x_min, 0, span);
    assert(2_000_000 * ra / span <= 2_000_000 * rb / span) by (nonlinear_arith)
        requires
            ra <= rb,
            span > 0,
    ;
    assert(ra == 0 ==> 2_000_000 * ra / span == 0) by (nonlinear_arith)
        requires
            span > 0,
    ;
    assert(rb == span ==> 2_000_000 * rb / span == 2_000_000) by (nonlinear_arith)
        requires
            span > 0,
    ;
    assert(2 * ra == span ==> 2_000_000 * ra / span == 1_000_000) by (nonlinear_arith)
        requires
            span > 0,
    ;
}

/// What a place on a vertical strip stands for: the top is 1, the bottom 0, in
/// millionths.
pub open spec fn strip_level(row: int, y_min: int, y_max: int) -> int {
    1_000_000 - fraction(row, y_min, y_max)
}

/// The playback rate that a place on a tempo strip stands for.
pub open spec fn strip_rate(level: int, tempo_range: int) -> int {
    1_000_000 + tempo_range * (2 * level - 1_000_000) / 100
}

/// A click or a drag on a vertical strip; a click also says what it did.
pub open spec fn strip_effects(
    control: RangeControl,
    row: int,
    y_min: int,
    y_max: int,
    tempo_range: int,
    click: bool,
) -> Seq<EffectV> {
    let level = strip_level(row, y_min, y_max);
    let rate = strip_rate(level, tempo_range);
    let is_a = control == RangeControl::TempoA || control == RangeControl::VolumeA;
    if y_max <= y_min {
        Seq::empty()
    } else if control == RangeControl::TempoA || control == RangeControl::TempoB {
        let act = EffectV::Do(Act::SetDeckRate { is_a, rate: rate as i64 });
        if click {
            seq![
                act,
                EffectV::Toast("Tempo "@ + deck_letter(is_a) + ": "@ + plain3(rate) + "×"@, 600),
            ]
        } else {
            seq![act]
        }
    } else {
        let act = EffectV::Do(Act::SetFader { is_a, level: level as i64 });
        if click {
            seq![act, EffectV::Toast("Volume "@ + deck_letter(is_a) + ": "@ + plain2(level), 600)]
        } else {
            seq![act]
        }
    }
}

/// The control that a click on a strip focuses.
pub open spec fn strip_section(control: RangeControl) -> CtrlSection {
    match control {
        RangeControl::TempoA => CtrlSection::TempoA,
        RangeControl::TempoB => CtrlSection::TempoB,
        RangeControl::VolumeA => CtrlSection::VolumeA,
        RangeControl::VolumeB => CtrlSection::VolumeB,
    }
}

pub fn strip_section_of(control: RangeControl) -> (s: CtrlSection)
    ensures
        s == strip_section(control),
{
    match control {
        RangeControl::TempoA => CtrlSection::TempoA,
        RangeControl::TempoB => CtrlSection::TempoB,
        RangeControl::VolumeA => CtrlSection::VolumeA,
        RangeControl::VolumeB => CtrlSection::VolumeB,
    }
}

/// Sets a vertical strip from a click or a drag.
pub fn apply_vertical_drag(
    control: RangeControl,
    row: u16,
    y_min: u16,
    y_max: u16,
    tempo_range: u32,
    click: bool,
) -> (fx: Vec<Effect>)
    ensures
        fx_view(fx@) == strip_effects(
            control,
            row as int,
            y_min as int,
            y_max as int,
            tempo_range as int,
            click,
        ),
{
    if y_max <= y_min {
        return no_effects();
    }
    let level: i64 = 1_000_000 - fraction_of(row, y_min, y_max);
    match control {
        RangeControl::TempoA | RangeControl::TempoB => {
            let is_a: bool = match control {
                RangeControl::TempoA => true,
                _ => false,
            };
            let k: i128 = 2 * level as i128 - 1_000_000;
            let t: i128 = tempo_range as i128;
            assert(-0x1_0000_0000 * 1_000_000 <= t * k <= 0x1_0000_0000 * 1_000_000)
                by (nonlinear_arith)
                requires
                    0 <= t <= 0xffff_ffff,
                    -1_000_000 <= k <= 1_000_000,
            ;
            let q: i128 = floor_div(t * k, 100);
            let rate: i64 = (1_000_000 + q) as i64;
            let act: Act = Act::SetDeckRate { is_a, rate };
            if click {
                let head: String = concat3("Tempo ", deck_label(is_a), ": ");
                let text: String = concat3(head.as_str(), plain3_str(rate).as_str(), "×");
                act_and_toast(act, text.as_str(), 600)
            } else {
                only_act(act)
            }
        },
        RangeControl::VolumeA | RangeControl::VolumeB => {
            let is_a: bool = match control {
                RangeControl::VolumeA => true,
                _ => false,
            };
            let act: Act = Act::SetFader { is_a, level };
            if click {
                let head: String = concat3("Volume ", deck_label(is_a), ": ");
                let text: String = concat2(head.as_str(), plain2_str(level).as_str());
                act_and_toast(act, text.as_str(), 600)
            } else {
                only_act(act)
            }
        },
    }
}

/// A quotient rounded down.
fn floor_div(a: i128, b: i128) -> (q: i128)
    requires
        b > 0,
        -0x7fff_ffff_ffff_ffff_ffff <= a <= 0x7fff_ffff_ffff_ffff_ffff,
        b <= 0x7fff_ffff_ffff_ffff,
    ensures
        q == a as int / b as int,
{
    if a >= 0 {
        a / b
    } else {
        let m: i128 = -a;
        let up: i128 = (m + b - 1) / b;
        assert(-up == a as int / b as int) by (nonlinear_arith)
            requires
                up == (m + b - 1) as int / b as int,
                m == -a,
                b > 0,
                a < 0,
        ;
        -up
    }
}

/// What the tempo control of a deck sets: the ratio to the natural tempo after a
/// step of a twentieth of the range, in millionths.
pub open spec fn tempo_stepped(current: Option<u32>, natural: Option<u32>, range: int, step: int) -> int {
    let n = match natural {
        Some(b) => b as int,
        None => 128_000,
    };
    let c = match current {
        Some(b) => b as int,
        None => n,
    };
    let high = 1_000_000 + 10_000 * range;
    if n == 0 {
        high
    } else {
        held(1_000_000 * c / n + 500 * range * step, 1_000_000 - 10_000 * range, high)
    }
}

fn tempo_step(current: Option<u32>, natural: Option<u32>, range: u32, step: i32) -> (v: i64)
    requires
        -1 <= step <= 1,
    ensures
        v == tempo_stepped(current, natural, range as int, step as int),
{
    let n: i64 = match natural {
        Some(b) => b as i64,
        None => 128_000,
    };
    let c: i64 = match current {
        Some(b) => b as i64,
        None => n,
    };
    let high: i64 = 1_000_000 + 10_000 * (range as i64);
    let low: i64 = 1_000_000 - 10_000 * (range as i64);
    if n == 0 {
        return high;
    }
    let k: i64 = 500 * (range as i64);
    let d: i64 = if step > 0 {
        k
    } else if step < 0 {
        -k
    } else {
        0
    };
    assert(d == 500 * range * step) by (nonlinear_arith)
        requires
            step == 1 || step == -1 || step == 0,
            step == 1 ==> d == 500 * range,
            step == -1 ==> d == -(500 * range),
            step == 0 ==> d == 0,
    ;
    let ratio: i64 = 1_000_000 * c / n;
    assert(0 <= ratio <= 1_000_000 * c) by (nonlinear_arith)
        requires
            ratio == (1_000_000 * c) as int / n as int,
            c >= 0,
            n >= 1,
    ;
    let v: i64 = ratio + d;
    if v < low {
        low
    } else if v > high {
        high
    } else {
        v
    }
}

/// A jump, the direction of which is 1 or -1.
pub open spec fn jump_by(direction: int, bars: int) -> int {
    direction * min_of(bars, 0x7fff_ffff)
}

fn jump_of(direction: i32, bars: u32) -> (n: i32)
    requires
        direction == 1 || direction == -1,
    ensures
        n == jump_by(direction as int, bars as int),
{
    let b: i32 = if bars > 0x7fff_ffff {
        0x7fff_ffff
    } else {
        bars as i32
    };
    assert(direction == 1 ==> direction as int * b as int == b) by (nonlinear_arith);
    assert(direction == -1 ==> direction as int * b as int == -b) by (nonlinear_arith);
    if direction > 0 {
        b
    } else {
        -b
    }
}

pub open spec fn jump_effects(is_a: bool, direction: int, bars: int) -> Seq<EffectV> {
    seq![
        EffectV::Do(Act::Jump(jump_by(direction, bars) as i32)),
        EffectV::Toast(
            deck_letter(is_a) + " "@ + (if direction > 0 {
                "▶▶"@
            } else {
                "◀◀"@
            }) + " "@ + decimal(min_of(bars, 0x7fff_ffff) as nat) + " bars"@,
            1000,
        ),
    ]
}

fn jump_with(is_a: bool, direction: i32, bars: u32) -> (fx: Vec<Effect>)
    requires
        direction == 1 || direction == -1,
    ensures
        fx_view(fx@) == jump_effects(is_a, direction as int, bars as int),
{
    let shown: u64 = if bars > 0x7fff_ffff {
        0x7fff_ffff
    } else {
        bars as u64
    };
    let arrow: &str = if direction > 0 {
        "▶▶"
    } else {
        "◀◀"
    };
    let head: String = concat3(deck_label(is_a), " ", arrow);
    let mid: String = concat3(head.as_str(), " ", decimal_str(shown).as_str());
    let text: String = concat2(mid.as_str(), " bars");
    act_and_toast(Act::Jump(jump_of(direction, bars)), text.as_str(), 1000)
}

/// The band that an equaliser control moves, and its deck.
pub open spec fn eq_control(section: CtrlSection) -> Option<(bool, MixerRow)> {
    match section {
        CtrlSection::EqLowA => Some((true, MixerRow::EqLow)),
        CtrlSection::EqMidA => Some((true, MixerRow::EqMid)),
        CtrlSection::EqHighA => Some((true, MixerRow::EqHigh)),
        CtrlSection::EqLowB => Some((false, MixerRow::EqLow)),
        CtrlSection::EqMidB => Some((false, MixerRow::EqMid)),
        CtrlSection::EqHighB => Some((false, MixerRow::EqHigh)),
        _ => None,
    }
}

fn eq_control_of(section: CtrlSection) -> (r: Option<(bool, MixerRow)>)
    ensures
        r == eq_control(section),
{
    match section {
        CtrlSection::EqLowA => Some((true, MixerRow::EqLow)),
        CtrlSection::EqMidA => Some((true, MixerRow::EqMid)),
        CtrlSection::EqHighA => Some((true, MixerRow::EqHigh)),
        CtrlSection::EqLowB => Some((false, MixerRow::EqLow)),
        CtrlSection::EqMidB => Some((false, MixerRow::EqMid)),
        CtrlSection::EqHighB => Some((false, MixerRow::EqHigh)),
        _ => None,
    }
}

pub open spec fn natural_bpm(track: Option<crate::track::Track>) -> Option<u32> {
    match track {
        Some(t) => t.bpm,
        None => None,
    }
}

fn natural_bpm_of(track: &Option<crate::track::Track>) -> (b: Option<u32>)
    ensures
        b == natural_bpm(*track),
{
    match track {
        Some(t) => t.bpm,
        None => None,
    }
}

/// What a press of an arrow does to the focused control; `direction` is 1 or -1.
pub open spec fn control_effects(
    info: NowPlaying,
    section: CtrlSection,
    direction: int,
    jump_bars: int,
    tempo_range: int,
) -> Seq<EffectV> {
    let full = direction > 0;
    match section {
        CtrlSection::CueA | CtrlSection::JumpA => jump_effects(true, direction, jump_bars),
        CtrlSection::CueB | CtrlSection::JumpB => jump_effects(false, direction, jump_bars),
        CtrlSection::PlayA | CtrlSection::PlayB => seq![
            EffectV::Do(Act::Pause),
            EffectV::Toast("Play/Pause"@, 1000),
        ],
        CtrlSection::NudgeA | CtrlSection::NudgeB => seq![
            EffectV::Do(Act::Nudge(direction as i32)),
            EffectV::Toast(
                "Nudge "@ + if full {
                    "▶"@
                } else {
                    "◀"@
                },
                500,
            ),
        ],
        CtrlSection::TempoA => {
            let v = tempo_stepped(
                info.playing_bpm,
                natural_bpm(info.playing_track),
                tempo_range,
                direction,
            );
            seq![
                EffectV::Do(Act::SetPlayingRate(v as i64)),
                EffectV::Toast("Tempo A: "@ + signed_percent1(v - 1_000_000), 500),
            ]
        },
        CtrlSection::TempoB => {
            let v = tempo_stepped(
                info.incoming_bpm,
                natural_bpm(info.incoming_track),
                tempo_range,
                direction,
            );
            seq![
                EffectV::Do(Act::SetIncomingRate(v as i64)),
                EffectV::Toast("Tempo B: "@ + signed_percent1(v - 1_000_000), 500),
            ]
        },
        CtrlSection::VolumeA => seq![
            EffectV::Do(
                Act::SetVolume {
                    incoming: false,
                    level: if full {
                        1_000_000
                    } else {
                        0
                    },
                },
            ),
            EffectV::Toast(
                if full {
                    "Vol A: 100%"@
                } else {
                    "Vol A: 0%"@
                },
                500,
            ),
        ],
        CtrlSection::VolumeB => seq![
            EffectV::Do(
                Act::SetVolume {
                    incoming: true,
                    level: if full {
                        1_000_000
                    } else {
                        0
                    },
                },
            ),
            EffectV::Toast(
                if full {
                    "Vol B: 100%"@
                } else {
                    "Vol B: 0%"@
                },
                500,
            ),
        ],
        CtrlSection::Crossfader => {
            let v = held(info.crossfader_pos + 50_000 * direction, -1_000_000, 1_000_000);
            seq![
                EffectV::Do(Act::SetCrossfader(v as i64)),
                EffectV::Toast("Crossfader: "@ + signed2(v), 400),
            ]
        },
        CtrlSection::FilterA => filter_effects(info.deck_a, true, direction, 400),
        CtrlSection::FilterB => filter_effects(info.deck_b, false, direction, 400),
        _ => {
            let (is_a, row) = eq_control(section)->0;
            band_effects(*info.spec_deck(is_a), is_a, row, direction, 400)
        },
    }
}

/// Moves the focused control of the dashboard.
pub fn handle_deck_control(
    info: &NowPlaying,
    section: CtrlSection,
    direction: i32,
    jump_bars: u32,
    tempo_range: u32,
) -> (fx: Vec<Effect>)
    requires
        direction == 1 || direction == -1,
    ensures
        fx_view(fx@) == control_effects(
            *info,
            section,
            direction as int,
            jump_bars as int,
            tempo_range as int,
        ),
{
    let full: bool = direction > 0;
    let level: i64 = if full {
        1_000_000
    } else {
        0
    };
    match section {
        CtrlSection::CueA | CtrlSection::JumpA => jump_with(true, direction, jump_bars),
        CtrlSection::CueB | CtrlSection::JumpB => jump_with(false, direction, jump_bars),
        CtrlSection::PlayA | CtrlSection::PlayB => act_and_toast(Act::Pause, "Play/Pause", 1000),
        CtrlSection::NudgeA | CtrlSection::NudgeB => {
            let arrow: &str = if full {
                "▶"
            } else {
                "◀"
            };
            act_and_toast(Act::Nudge(direction), concat2("Nudge ", arrow).as_str(), 500)
        },
        CtrlSection::TempoA => {
            let natural: Option<u32> = natural_bpm_of(&info.playing_track);
            let v: i64 = tempo_step(info.playing_bpm, natural, tempo_range, direction);
            let text: String = concat2("Tempo A: ", signed_percent1_str(v - 1_000_000).as_str());
            act_and_toast(Act::SetPlayingRate(v), text.as_str(), 500)
        },
        CtrlSection::TempoB => {
            let natural: Option<u32> = natural_bpm_of(&info.incoming_track);
            let v: i64 = tempo_step(info.incoming_bpm, natural, tempo_range, direction);
            let text: String = concat2("Tempo B: ", signed_percent1_str(v - 1_000_000).as_str());
            act_and_toast(Act::SetIncomingRate(v), text.as_str(), 500)
        },
        CtrlSection::VolumeA => act_and_toast(
            Act::SetVolume { incoming: false, level },
            if full {
                "Vol A: 100%"
            } else {
                "Vol A: 0%"
            },
            500,
        ),
        CtrlSection::VolumeB => act_and_toast(
            Act::SetVolume { incoming: true, level },
            if full {
                "Vol B: 100%"
            } else {
                "Vol B: 0%"
            },
            500,
        ),
        CtrlSection::Crossfader => {
            let w: i128 = info.crossfader_pos as i128 + 50_000 * (direction as i128);
            let v: i64 = if w < -1_000_000 {
                -1_000_000
            } else if w > 1_000_000 {
                1_000_000
            } else {
                w as i64
            };
            let text: String = concat2("Crossfader: ", signed2_str(v).as_str());
            act_and_toast(Act::SetCrossfader(v), text.as_str(), 400)
        },
        CtrlSection::FilterA => move_filter(&info.deck_a, true, direction, 400),
        CtrlSection::FilterB => move_filter(&info.deck_b, false, direction, 400),
        _ => match eq_control_of(section) {
            Some((is_a, row)) => move_band(info.deck(is_a), is_a, row, direction, 400),
            None => no_effects(),
        },
    }
}

/// Whatever is moved, gains stay between -24 and 12 decibels and the crossfader
/// between its ends.
pub proof fn controls_stay_in_range(gain: int, level: int, step: int)
    ensures
        -2400 <= eq_stepped(gain, step) <= 1200,
        -1_000_000 <= level_stepped(level, step, -1_000_000) <= 1_000_000,
        0 <= level_stepped(level, step, 0) <= 1_000_000,
{
}

/// A reading of the mixer overlay.
pub open spec fn overlay_value(deck: Deck, row: MixerRow) -> Seq<char> {
    match row {
        MixerRow::Filter => signed2(1000 * deck.filter),
        MixerRow::Fader => plain2(1000 * deck.fader),
        _ => signed_whole(band_gain(deck, row) as int) + " dB"@,
    }
}

fn overlay_value_str(deck: &Deck, row: MixerRow) -> (s: String)
    ensures
        s@ == overlay_value(*deck, row),
{
    match row {
        MixerRow::Filter => signed2_str(1000 * (deck.filter as i64)),
        MixerRow::Fader => plain2_str(1000 * (deck.fader as i64)),
        _ => concat2(signed_whole_str(band_gain_of(deck, row)).as_str(), " dB"),
    }
}

/// The rows of the overlay, in order.
pub open spec fn overlay_row_at(i: int) -> MixerRow {
    if i == 0 {
        MixerRow::EqLow
    } else if i == 1 {
        MixerRow::EqMid
    } else if i == 2 {
        MixerRow::EqHigh
    } else if i == 3 {
        MixerRow::Filter
    } else {
        MixerRow::Fader
    }
}

pub open spec fn picked_style() -> Style {
    Style::of(Color::Black).on(Color::Yellow).bold()
}

/// A row of the overlay: the reading of the deck being worked on is marked.
pub open spec fn overlay_line(info: NowPlaying, is_a: bool, row: MixerRow, at: MixerRow) -> Seq<SpanV> {
    let gray = Style::of(Color::Gray);
    seq![
        span("  "@ + pad_right(at.spec_label()@, 8), Style::of(Color::White)),
        span(
            "  "@ + pad_left(overlay_value(info.deck_a, at), 8) + "  "@,
            if at == row && is_a {
                picked_style()
            } else {
                gray
            },
        ),
        span("    "@, Style::plain()),
        span(
            "  "@ + pad_left(overlay_value(info.deck_b, at), 8) + "  "@,
            if at == row && !is_a {
                picked_style()
            } else {
                gray
            },
        ),
    ]
}

pub open spec fn overlay_head(is_a: bool) -> Seq<SpanV> {
    let on = Style::of(Color::Yellow).bold();
    let off = Style::of(Color::DarkGray);
    seq![
        span("          "@, Style::plain()),
        span(
            "  Deck A  "@,
            if is_a {
                on
            } else {
                off
            },
        ),
        span("    "@, Style::plain()),
        span(
            "  Deck B  "@,
            if is_a {
                off
            } else {
                on
            },
        ),
    ]
}

/// The mixer overlay.
pub open spec fn mixer_overlay(info: NowPlaying, is_a: bool, row: MixerRow) -> Seq<Seq<SpanV>> {
    let dark = Style::of(Color::DarkGray);
    seq![crate::panels::blank(), overlay_head(is_a), crate::panels::blank()] + Seq::new(
        5,
        |i: int| overlay_line(info, is_a, row, overlay_row_at(i)),
    ) + seq![
        crate::panels::blank(),
        seq![
            span(
                "  Transition: "@ + info.transition_type_name@ + "    Crossfader: "@ + signed2(
                    info.crossfader_pos as int,
                ),
                dark,
            ),
        ],
        crate::panels::blank(),
        seq![
            span(
                "  [Tab] switch deck    [↑↓] select row    [←→] adjust    [r] reset row    [R] reset all    [Esc] close"@,
                dark,
            ),
        ],
    ]
}

fn add_overlay_line(lines: &mut Vec<Line>, info: &NowPlaying, is_a: bool, row: MixerRow, at: MixerRow)
    ensures
        lines_view(final(lines)@) == lines_view(old(lines)@).push(
            overlay_line(*info, is_a, row, at),
        ),
{
    let gray: Style = Style::of(Color::Gray);
    let picked: Style = Style::of(Color::Black).on(Color::Yellow).bold();
    let mut s: Vec<Span> = Vec::new();
    let label: String = concat2("  ", padded_right(at.label(), 8).as_str());
    add_span(&mut s, label.as_str(), Style::of(Color::White));
    let a: String = padded_left(overlay_value_str(&info.deck_a, at).as_str(), 8);
    add_span(
        &mut s,
        concat3("  ", a.as_str(), "  ").as_str(),
        if at == row && is_a {
            picked
        } else {
            gray
        },
    );
    add_span(&mut s, "    ", Style::plain());
    let b: String = padded_left(overlay_value_str(&info.deck_b, at).as_str(), 8);
    add_span(
        &mut s,
        concat3("  ", b.as_str(), "  ").as_str(),
        if at == row && !is_a {
            picked
        } else {
            gray
        },
    );
    assert(spans_view(s@) =~= overlay_line(*info, is_a, row, at));
    add_line(lines, s);
}

/// Draws the mixer overlay.
pub fn render_mixer_overlay(info: &NowPlaying, deck_is_a: bool, row: MixerRow) -> (lines: Vec<Line>)
    ensures
        lines_view(lines@) == mixer_overlay(*info, deck_is_a, row),
{
    let dark: Style = Style::of(Color::DarkGray);
    let on: Style = Style::of(Color::Yellow).bold();
    let mut lines: Vec<Line> = Vec::new();
    crate::panels::add_blank(&mut lines);
    let mut s: Vec<Span> = Vec::new();
    add_span(&mut s, "          ", Style::plain());
    add_span(
        &mut s,
        "  Deck A  ",
        if deck_is_a {
            on
        } else {
            dark
        },
    );
    add_span(&mut s, "    ", Style::plain());
    add_span(
        &mut s,
        "  Deck B  ",
        if deck_is_a {
            dark
        } else {
            on
        },
    );
    assert(spans_view(s@) =~= overlay_head(deck_is_a));
    add_line(&mut lines, s);
    crate::panels::add_blank(&mut lines);
    add_overlay_line(&mut lines, info, deck_is_a, row, MixerRow::EqLow);
    add_overlay_line(&mut lines, info, deck_is_a, row, MixerRow::EqMid);
    add_overlay_line(&mut lines, info, deck_is_a, row, MixerRow::EqHigh);
    add_overlay_line(&mut lines, info, deck_is_a, row, MixerRow::Filter);
    add_overlay_line(&mut lines, info, deck_is_a, row, MixerRow::Fader);
    crate::panels::add_blank(&mut lines);
    let a: String = concat3(
        "  Transition: ",
        info.transition_type_name.as_str(),
        "    Crossfader: ",
    );
    let b: String = concat2(a.as_str(), signed2_str(info.crossfader_pos).as_str());
    add_text_line(&mut lines, b.as_str(), dark);
    crate::panels::add_blank(&mut lines);
    add_text_line(
        &mut lines,
        "  [Tab] switch deck    [↑↓] select row    [←→] adjust    [r] reset row    [R] reset all    [Esc] close",
        dark,
    );
    assert(lines_view(lines@) =~= mixer_overlay(*info, deck_is_a, row));
    lines
}

} // verus!
