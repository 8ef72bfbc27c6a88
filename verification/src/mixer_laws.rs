//! What moving a control does, and to which deck.
use crate::act_kinds::{act_amount, act_deck, act_incoming};
use crate::clicks::RangeControl;
use crate::controls::CtrlSection;
use crate::deck::{Deck, NowPlaying};
use crate::deck_laws::reads_as_whole;
use crate::effects::{Act, EffectV};
use crate::meters::signed_whole;
use crate::mixer::{
    control_effects, held, mixer_reset, overlay_line, overlay_row_at, overlay_value, row_effects,
    row_reset, strip_effects, strip_section, MixerRow,
};
use crate::numbers::{plain2, signed2};
use vstd::prelude::*;

verus! {

/// A text ends in another one.
pub open spec fn ends_in(s: Seq<char>, tail: Seq<char>) -> bool {
    s.len() >= tail.len() && s.skip(s.len() - tail.len()) == tail
}

/// What a control of a deck stands at, in the unit of the act that moves it:
/// hundredths of a decibel, or millionths.
pub open spec fn stands_at(deck: Deck, row: MixerRow) -> int {
    match row {
        MixerRow::EqLow => deck.eq_low as int,
        MixerRow::EqMid => deck.eq_mid as int,
        MixerRow::EqHigh => deck.eq_high as int,
        MixerRow::Filter => 1000 * deck.filter,
        MixerRow::Fader => 1000 * deck.fader,
    }
}

/// What an act sets one control of a deck to.
pub open spec fn puts(act: Act, row: MixerRow) -> Option<int> {
    match (row, act) {
        (MixerRow::EqLow, Act::SetEq { low: Some(v), mid: None, high: None, .. }) => Some(v as int),
        (MixerRow::EqMid, Act::SetEq { low: None, mid: Some(v), high: None, .. }) => Some(v as int),
        (MixerRow::EqHigh, Act::SetEq { low: None, mid: None, high: Some(v), .. }) => Some(
            v as int,
        ),
        (MixerRow::Filter, Act::SetFilter { pos, .. }) => Some(pos as int),
        (MixerRow::Fader, Act::SetFader { level, .. }) => Some(level as int),
        _ => None,
    }
}

/// How far a step moves a control, and where it ends.
pub open spec fn step_size(row: MixerRow) -> int {
    if row is Filter || row is Fader {
        50_000
    } else {
        100
    }
}

pub open spec fn ends_of(row: MixerRow) -> (int, int) {
    match row {
        MixerRow::Filter => (-1_000_000, 1_000_000),
        MixerRow::Fader => (0, 1_000_000),
        _ => (-2400, 1200),
    }
}

/// A step on a row of the mixer moves that control of that deck and nothing else:
/// by the step, up for a positive one, and no further than its ends.
pub proof fn steps_move_their_control(
    info: NowPlaying,
    is_a: bool,
    row: MixerRow,
    step: int,
)
    requires
        -1000 <= step <= 1000,
    ensures
        ({
            let fx = row_effects(info, is_a, row, step);
            let from = stands_at(
                if is_a {
                    info.deck_a
                } else {
                    info.deck_b
                },
                row,
            );
            let (low, high) = ends_of(row);
            &&& fx.len() == 2
            &&& fx[0] matches EffectV::Do(act) && act_deck(act) == Some(is_a) && (puts(act, row)
                matches Some(v) && low <= v <= high && (low <= from + step * step_size(row) <= high
                ==> v == from + step * step_size(row)) && (from + step * step_size(row) > high
                ==> v == high) && (from + step * step_size(row) < low ==> v == low))
            &&& fx[1] is Toast
        }),
{
}

/// What is said after a step is what was set.
pub proof fn steps_are_told(info: NowPlaying, is_a: bool, row: MixerRow, step: int)
    ensures
        ({
            let fx = row_effects(info, is_a, row, step);
            fx[0] matches EffectV::Do(act) && fx[1] matches EffectV::Toast(text, _) && (puts(
                act,
                row,
            ) matches Some(v) && ends_in(
                text,
                match row {
                    MixerRow::Filter => signed2(v),
                    MixerRow::Fader => plain2(v),
                    _ => signed_whole(v) + " dB"@,
                },
            ))
        }),
{
    let fx = row_effects(info, is_a, row, step);
    if let EffectV::Toast(text, _) = fx[1] {
        let v = puts(fx[0]->Do_0, row)->0;
        let tail = match row {
            MixerRow::Filter => signed2(v),
            MixerRow::Fader => plain2(v),
            _ => signed_whole(v) + " dB"@,
        };
        assert(text.skip(text.len() - tail.len()) =~= tail);
    }
}

/// A reset puts the control back to neutral: no gain, no filter, a full fader.
pub open spec fn neutral(row: MixerRow) -> int {
    if row is Fader {
        1_000_000
    } else {
        0
    }
}

pub proof fn reset_is_neutral(is_a: bool, row: MixerRow)
    ensures
        row_reset(is_a, row).len() == 2,
        row_reset(is_a, row)[0] matches EffectV::Do(act) && act_deck(act) == Some(is_a) && puts(
            act,
            row,
        ) == Some(neutral(row)),
{
}

/// A reset of the mixer puts every control of both decks back to neutral, and the
/// crossfader to the middle.
pub proof fn mixer_reset_is_neutral(is_a: bool)
    ensures
        mixer_reset().contains(
            EffectV::Do(Act::SetEq { is_a, low: Some(0), mid: Some(0), high: Some(0) }),
        ),
        mixer_reset().contains(EffectV::Do(Act::SetFilter { is_a, pos: 0 })),
        mixer_reset().contains(EffectV::Do(Act::SetFader { is_a, level: 1_000_000 })),
        mixer_reset().contains(EffectV::Do(Act::SetCrossfader(0))),
{
    let fx = mixer_reset();
    assert(fx.contains(fx[0]));
    assert(fx.contains(fx[1]));
    assert(fx.contains(fx[2]));
    assert(fx.contains(fx[3]));
    assert(fx.contains(fx[4]));
    assert(fx.contains(fx[5]));
    assert(fx.contains(fx[6]));
}

/// The deck that the name of a control ends in.
pub open spec fn section_deck(s: CtrlSection) -> Option<bool> {
    if s.spec_display_name()@.last() == 'A' {
        Some(true)
    } else if s.spec_display_name()@.last() == 'B' {
        Some(false)
    } else {
        None
    }
}

proof fn lemma_section_deck(s: CtrlSection)
    ensures
        section_deck(s) == (match s {
            CtrlSection::TempoA | CtrlSection::VolumeA | CtrlSection::CueA | CtrlSection::PlayA
            | CtrlSection::JumpA | CtrlSection::NudgeA | CtrlSection::EqLowA
            | CtrlSection::EqMidA | CtrlSection::EqHighA | CtrlSection::FilterA => Some(true),
            CtrlSection::Crossfader => None,
            _ => Some(false),
        }),
{
    reveal_strlit("tempo A");
    reveal_strlit("volume A");
    reveal_strlit("cue A");
    reveal_strlit("play A");
    reveal_strlit("jump A");
    reveal_strlit("nudge A");
    reveal_strlit("EQ low A");
    reveal_strlit("EQ mid A");
    reveal_strlit("EQ high A");
    reveal_strlit("filter A");
    reveal_strlit("crossfader");
    reveal_strlit("EQ low B");
    reveal_strlit("EQ mid B");
    reveal_strlit("EQ high B");
    reveal_strlit("filter B");
    reveal_strlit("nudge B");
    reveal_strlit("jump B");
    reveal_strlit("play B");
    reveal_strlit("cue B");
    reveal_strlit("volume B");
    reveal_strlit("tempo B");
}

/// An arrow on a control works on the deck that the control is named after; deck A
/// carries the playing track, and deck B the incoming one.
#[verifier::spinoff_prover]
#[verifier::rlimit(40)]
pub proof fn arrows_work_on_the_deck_named(
    info: NowPlaying,
    section: CtrlSection,
    direction: int,
    jump_bars: int,
    tempo_range: int,
)
    ensures
        ({
            let fx = control_effects(info, section, direction, jump_bars, tempo_range);
            &&& fx.len() == 2
            &&& fx[0] matches EffectV::Do(act) && (act_deck(act) is Some ==> act_deck(act)
                == section_deck(section)) && (act_incoming(act) matches Some(incoming)
                ==> section_deck(section) == Some(!incoming))
            &&& fx[1] is Toast
        }),
{
    lemma_section_deck(section);
}

/// An arrow to the right moves a control up and forward, one to the left down and
/// back.
#[verifier::spinoff_prover]
#[verifier::rlimit(40)]
pub proof fn arrows_go_their_way(
    info: NowPlaying,
    section: CtrlSection,
    right: bool,
    jump_bars: int,
    tempo_range: int,
)
    requires
        1 <= jump_bars <= 64,
        0 <= tempo_range <= 100,
    ensures
        ({
            let direction = if right {
                1
            } else {
                -1int
            };
            let act = control_effects(info, section, direction, jump_bars, tempo_range)[0]->Do_0;
            match section {
                CtrlSection::CueA | CtrlSection::CueB | CtrlSection::JumpA
                | CtrlSection::JumpB => act == Act::Jump((direction * jump_bars) as i32),
                CtrlSection::NudgeA | CtrlSection::NudgeB => act == Act::Nudge(direction as i32),
                CtrlSection::PlayA | CtrlSection::PlayB => act == Act::Pause,
                CtrlSection::VolumeA | CtrlSection::VolumeB => act_amount(act) == Some(
                    if right {
                        1_000_000int
                    } else {
                        0
                    },
                ),
                CtrlSection::Crossfader => act_amount(act) matches Some(v) && -1_000_000 <= v
                    <= 1_000_000 && (-950_000 <= info.crossfader_pos <= 950_000 ==> v
                    == info.crossfader_pos + 50_000 * direction),
                CtrlSection::FilterA => puts(act, MixerRow::Filter) matches Some(v) && (-950
                    <= info.deck_a.filter <= 950 ==> v == 1000 * info.deck_a.filter + 50_000
                    * direction),
                CtrlSection::FilterB => puts(act, MixerRow::Filter) matches Some(v) && (-950
                    <= info.deck_b.filter <= 950 ==> v == 1000 * info.deck_b.filter + 50_000
                    * direction),
                CtrlSection::EqLowA => puts(act, MixerRow::EqLow) == Some(
                    held(info.deck_a.eq_low + 100 * direction, -2400, 1200),
                ),
                CtrlSection::EqMidA => puts(act, MixerRow::EqMid) == Some(
                    held(info.deck_a.eq_mid + 100 * direction, -2400, 1200),
                ),
                CtrlSection::EqHighA => puts(act, MixerRow::EqHigh) == Some(
                    held(info.deck_a.eq_high + 100 * direction, -2400, 1200),
                ),
                CtrlSection::EqLowB => puts(act, MixerRow::EqLow) == Some(
                    held(info.deck_b.eq_low + 100 * direction, -2400, 1200),
                ),
                CtrlSection::EqMidB => puts(act, MixerRow::EqMid) == Some(
                    held(info.deck_b.eq_mid + 100 * direction, -2400, 1200),
                ),
                CtrlSection::EqHighB => puts(act, MixerRow::EqHigh) == Some(
                    held(info.deck_b.eq_high + 100 * direction, -2400, 1200),
                ),
                CtrlSection::TempoA => act is SetPlayingRate,
                CtrlSection::TempoB => act is SetIncomingRate,
            }
        }),
{
    assert(1 * jump_bars == jump_bars && (-1) * jump_bars == -jump_bars);
}

/// A tempo control moves the rate of its own track, a twentieth of the range at a
/// time, and never further than the range; the other track does not matter.
pub proof fn tempo_arrows_move_their_track(
    info: NowPlaying,
    right: bool,
    jump_bars: int,
    range: int,
    bpm: u32,
    natural: u32,
)
    requires
        0 <= range <= 100,
        natural > 0,
        bpm == natural,
    ensures
        ({
            let direction = if right {
                1
            } else {
                -1int
            };
            let rate = 1_000_000 + 500 * range * direction;
            &&& info.playing_bpm == Some(bpm) && (info.playing_track matches Some(t) && t.bpm
                == Some(natural)) ==> control_effects(
                info,
                CtrlSection::TempoA,
                direction,
                jump_bars,
                range,
            )[0] == EffectV::Do(Act::SetPlayingRate(rate as i64))
            &&& info.incoming_bpm == Some(bpm) && (info.incoming_track matches Some(t) && t.bpm
                == Some(natural)) ==> control_effects(
                info,
                CtrlSection::TempoB,
                direction,
                jump_bars,
                range,
            )[0] == EffectV::Do(Act::SetIncomingRate(rate as i64))
        }),
{
    let n = natural as int;
    assert(1_000_000 * n / n == 1_000_000) by (nonlinear_arith)
        requires
            n > 0,
    ;
    assert(500 * range * 1 == 500 * range && 500 * range * (-1) == -(500 * range))
        by (nonlinear_arith);
}

/// The deck that a strip belongs to.
pub open spec fn strip_deck(control: RangeControl) -> bool {
    control is TempoA || control is VolumeA
}

/// A place on a strip sets the deck of that strip: a tempo strip its rate, a
/// volume strip its fader. The top is full and the bottom is none; the middle of a
/// tempo strip is the natural tempo, and its ends the ends of the range.
pub proof fn strips_set_their_deck(
    control: RangeControl,
    row: int,
    y_min: int,
    y_max: int,
    tempo_range: int,
    click: bool,
)
    requires
        0 <= y_min < y_max <= 0xffff,
        0 <= tempo_range <= 100,
    ensures
        ({
            let fx = strip_effects(control, row, y_min, y_max, tempo_range, click);
            let tempo = control is TempoA || control is TempoB;
            &&& fx.len() == (if click {
                2
            } else {
                1int
            })
            &&& fx[0] matches EffectV::Do(act) && act_deck(act) == Some(strip_deck(control)) && (
            if tempo {
                act is SetDeckRate
            } else {
                act is SetFader
            }) && (row <= y_min ==> act_amount(act) == Some(
                if tempo {
                    1_000_000 + 10_000 * tempo_range
                } else {
                    1_000_000int
                },
            )) && (row >= y_max ==> act_amount(act) == Some(
                if tempo {
                    1_000_000 - 10_000 * tempo_range
                } else {
                    0int
                },
            )) && (2 * row == y_min + y_max ==> act_amount(act) == Some(
                if tempo {
                    1_000_000
                } else {
                    500_000int
                },
            ))
        }),
{
    let d = y_max - y_min;
    assert(1_000_000 * d / d == 1_000_000 && 0int / d == 0) by (nonlinear_arith)
        requires
            d > 0,
    ;
    if 2 * row == y_min + y_max {
        let h = row - y_min;
        assert(1_000_000 * h / d == 500_000) by (nonlinear_arith)
            requires
                d == 2 * h,
                d > 0,
        ;
    }
    assert(tempo_range * 1_000_000 / 100 == 10_000 * tempo_range);
    assert(tempo_range * -1_000_000 / 100 == -10_000 * tempo_range);
    assert(tempo_range * 0 / 100 == 0);
}

/// A click on a strip focuses the control of that strip.
pub proof fn strips_focus_their_control(control: RangeControl)
    ensures
        section_deck(strip_section(control)) == Some(strip_deck(control)),
        control is TempoA || control is TempoB <==> strip_section(control) is TempoA
            || strip_section(control) is TempoB,
        control is VolumeA || control is VolumeB <==> strip_section(control) is VolumeA
            || strip_section(control) is VolumeB,
{
    lemma_section_deck(strip_section(control));
}

/// A row of the overlay is named by what it shows, deck A's before deck B's; the
/// five rows are all different.
pub proof fn overlay_shows_both_decks(info: NowPlaying, is_a: bool, row: MixerRow, i: int, j: int)
    requires
        0 <= i < 5,
        0 <= j < 5,
    ensures
        ({
            let at = overlay_row_at(i);
            let line = overlay_line(info, is_a, row, at);
            &&& line.len() == 4
            &&& line[0].text.len() >= 2 + at.spec_label()@.len()
            &&& line[0].text.subrange(2, 2 + at.spec_label()@.len() as int) == at.spec_label()@
            &&& ends_in(line[1].text, overlay_value(info.deck_a, at) + "  "@)
            &&& ends_in(line[3].text, overlay_value(info.deck_b, at) + "  "@)
            &&& i != j ==> at != overlay_row_at(j)
        }),
{
    reveal_strlit("  ");
    let at = overlay_row_at(i);
    let line = overlay_line(info, is_a, row, at);
    let label = at.spec_label()@;
    assert("  "@.len() == 2);
    assert(line[0].text.subrange(2, 2 + label.len() as int) =~= label);
    let va = overlay_value(info.deck_a, at) + "  "@;
    let vb = overlay_value(info.deck_b, at) + "  "@;
    assert(line[1].text.skip(line[1].text.len() - va.len()) =~= va);
    assert(line[3].text.skip(line[3].text.len() - vb.len()) =~= vb);
}

/// A reading of the overlay is of its control.
pub proof fn overlay_reads_the_control(deck: Deck, row: MixerRow)
    ensures
        match row {
            MixerRow::Filter => overlay_value(deck, row) == signed2(stands_at(deck, row)),
            MixerRow::Fader => overlay_value(deck, row) == plain2(stands_at(deck, row)),
            _ => overlay_value(deck, row).len() > 3 && reads_as_whole(
                overlay_value(deck, row).take(overlay_value(deck, row).len() - 3),
                stands_at(deck, row),
            ),
        },
{
    reveal_strlit(" dB");
    assert(" dB"@.len() == 3);
    if !(row is Filter) && !(row is Fader) {
        let v = stands_at(deck, row);
        crate::deck_laws::gains_read_back(v);
        assert(overlay_value(deck, row).take(overlay_value(deck, row).len() - 3) =~= signed_whole(
            v,
        ));
    }
}

} // verus!
