//! The places to click on the crossfader and phase rows.
use crate::clicks::{coord, coord_of, ClickAction, ClickTarget};
use crate::control_rows::{
    center_col, center_col_of, left_one, meter_width, meter_width_of, right_one, row_one,
};
use crate::controller::{add_place, place};
use crate::controls::CtrlSection;
use crate::deck::NowPlaying;
use crate::key::KeyCode;
use crate::meters::crossfader_bar;
use crate::midi_learn::Action;
use crate::panels::Area;
use crate::text::{chars_of, find, find_text, minus, sat_sub};
use vstd::prelude::*;
use vstd::string::*;

verus! {

/// The crossfader: a click on its meter sets it.
pub open spec fn crossfader_place(area: Area, y: int) -> ClickTarget {
    let m = meter_width(area.width as nat);
    let x = area.x + 2 + minus(center_col(area.width as nat) as int, m as int / 2);
    place(
        x,
        y,
        m as u16,
        1,
        ClickAction::SetCrossfaderRange { x_min: coord(x), x_max: coord(x + m) },
        "crossfader",
        Some(Action::Crossfader),
    )
}

pub(crate) fn add_crossfader_place(targets: &mut Vec<ClickTarget>, area: Area, y: u128)
    ensures
        final(targets)@ == old(targets)@.push(crossfader_place(area, y as int)),
{
    let m: usize = meter_width_of(area.width as usize);
    let x: u128 = area.x as u128 + 2 + sat_sub(center_col_of(area.width as usize), m / 2) as u128;
    add_place(
        targets,
        x,
        y,
        m as u16,
        1,
        ClickAction::SetCrossfaderRange { x_min: coord_of(x), x_max: coord_of(x + m as u128) },
        "crossfader",
        Some(Action::Crossfader),
    );
}

/// The first two places of a label in a row: deck A's, then deck B's.
pub open spec fn both_of(row: Seq<char>, label: Seq<char>) -> (Option<int>, Option<int>) {
    match find(row, label, 0) {
        Some(i) => (Some(i), find(row, label, i + label.len())),
        None => (None, None),
    }
}

pub open spec fn opt_int(n: Option<usize>) -> Option<int> {
    match n {
        Some(i) => Some(i as int),
        None => None,
    }
}

fn both_places(row: &Vec<char>, label: &Vec<char>) -> (r: (Option<usize>, Option<usize>))
    ensures
        (opt_int(r.0), opt_int(r.1)) == both_of(row@, label@),
{
    let n: usize = row.len();
    assert(n == row@.len());
    match find_text(row, label, 0) {
        Some(i) => (Some(i), find_text(row, label, i + label.len())),
        None => (None, None),
    }
}

/// What a label offers to click for one deck: nothing where it is not shown.
pub open spec fn where_shown(at: Option<int>, x: int, f: spec_fn(int) -> Seq<ClickTarget>) -> Seq<
    ClickTarget,
> {
    match at {
        Some(i) => f(x + i),
        None => Seq::empty(),
    }
}

/// A cue label: focuses the cue control of its deck.
pub open spec fn cue_place(is_a: bool, x: int, y: int) -> Seq<ClickTarget> {
    if is_a {
        seq![
            place(
                x,
                y,
                3,
                1,
                ClickAction::FocusDashSection(CtrlSection::CueA),
                "cue_a",
                Some(Action::CueSet { is_a: true, slot: 0 }),
            ),
        ]
    } else {
        seq![
            place(
                x,
                y,
                3,
                1,
                ClickAction::FocusDashSection(CtrlSection::CueB),
                "cue_b",
                Some(Action::CueSet { is_a: false, slot: 0 }),
            ),
        ]
    }
}

/// A jump label: back, cycle the number of bars, forward.
pub open spec fn jump_places(is_a: bool, len: int, x: int, y: int) -> Seq<ClickTarget> {
    let back = ClickAction::SimulateKey(KeyCode::Char('<'));
    let fwd = ClickAction::SimulateKey(KeyCode::Char('>'));
    let cycle = ClickAction::CycleJumpBars;
    let midi_back = Some(Action::JumpBarsDeck { is_a, bars: (-8) as i32 });
    let midi_fwd = Some(Action::JumpBarsDeck { is_a, bars: 8 });
    if is_a {
        seq![
            place(x, y, 1, 1, back, "jump_back_a", midi_back),
            place(x + 1, y, coord(len - 2), 1, cycle, "jump_cycle_a", None),
            place(x + len - 1, y, 1, 1, fwd, "jump_fwd_a", midi_fwd),
        ]
    } else {
        seq![
            place(x, y, 1, 1, back, "jump_back_b", midi_back),
            place(x + 1, y, coord(len - 2), 1, cycle, "jump_cycle_b", None),
            place(x + len - 1, y, 1, 1, fwd, "jump_fwd_b", midi_fwd),
        ]
    }
}

/// A play label.
pub open spec fn play_place(is_a: bool, x: int, y: int) -> Seq<ClickTarget> {
    let p = ClickAction::SimulateKey(KeyCode::Char('p'));
    let midi = Some(Action::PlayPauseDeck { is_a });
    if is_a {
        seq![place(x, y, 4, 1, p, "play_a", midi)]
    } else {
        seq![place(x, y, 4, 1, p, "play_b", midi)]
    }
}

/// A nudge label: its arrows.
pub open spec fn nudge_places(is_a: bool, x: int, y: int) -> Seq<ClickTarget> {
    let back = ClickAction::SimulateKey(KeyCode::Char('['));
    let fwd = ClickAction::SimulateKey(KeyCode::Char(']'));
    let midi_back = Some(Action::NudgeDeck { is_a, direction: (-1) as i32 });
    let midi_fwd = Some(Action::NudgeDeck { is_a, direction: 1 });
    if is_a {
        seq![
            place(x, y, 1, 1, back, "nudge_back_a", midi_back),
            place(x + 8, y, 1, 1, fwd, "nudge_fwd_a", midi_fwd),
        ]
    } else {
        seq![
            place(x, y, 1, 1, back, "nudge_back_b", midi_back),
            place(x + 8, y, 1, 1, fwd, "nudge_fwd_b", midi_fwd),
        ]
    }
}

fn add_cue_place(targets: &mut Vec<ClickTarget>, is_a: bool, x: u128, y: u128)
    ensures
        final(targets)@ == old(targets)@ + cue_place(is_a, x as int, y as int),
{
    let ghost t0 = targets@;
    if is_a {
        let focus: ClickAction = ClickAction::FocusDashSection(CtrlSection::CueA);
        let midi: Option<Action> = Some(Action::CueSet { is_a: true, slot: 0 });
        add_place(targets, x, y, 3, 1, focus, "cue_a", midi);
    } else {
        let focus: ClickAction = ClickAction::FocusDashSection(CtrlSection::CueB);
        let midi: Option<Action> = Some(Action::CueSet { is_a: false, slot: 0 });
        add_place(targets, x, y, 3, 1, focus, "cue_b", midi);
    }
    assert(targets@ =~= t0 + cue_place(is_a, x as int, y as int));
}

fn add_jump_places(targets: &mut Vec<ClickTarget>, is_a: bool, len: u128, x: u128, y: u128)
    requires
        2 <= len <= 0xffff_ffff_ffff_ffff,
        x <= 0xffff_ffff_ffff_ffff_ffff,
    ensures
        final(targets)@ == old(targets)@ + jump_places(is_a, len as int, x as int, y as int),
{
    let ghost t0 = targets@;
    let back: ClickAction = ClickAction::SimulateKey(KeyCode::Char('<'));
    let fwd: ClickAction = ClickAction::SimulateKey(KeyCode::Char('>'));
    let cycle: ClickAction = ClickAction::CycleJumpBars;
    let mb: Option<Action> = Some(Action::JumpBarsDeck { is_a, bars: -8 });
    let mf: Option<Action> = Some(Action::JumpBarsDeck { is_a, bars: 8 });
    let mid: u16 = coord_of(len - 2);
    if is_a {
        add_place(targets, x, y, 1, 1, back, "jump_back_a", mb);
        add_place(targets, x + 1, y, mid, 1, cycle, "jump_cycle_a", None);
        add_place(targets, x + len - 1, y, 1, 1, fwd, "jump_fwd_a", mf);
    } else {
        add_place(targets, x, y, 1, 1, back, "jump_back_b", mb);
        add_place(targets, x + 1, y, mid, 1, cycle, "jump_cycle_b", None);
        add_place(targets, x + len - 1, y, 1, 1, fwd, "jump_fwd_b", mf);
    }
    assert(targets@ =~= t0 + jump_places(is_a, len as int, x as int, y as int));
}

fn add_play_place(targets: &mut Vec<ClickTarget>, is_a: bool, x: u128, y: u128)
    ensures
        final(targets)@ == old(targets)@ + play_place(is_a, x as int, y as int),
{
    let ghost t0 = targets@;
    let p: ClickAction = ClickAction::SimulateKey(KeyCode::Char('p'));
    let midi: Option<Action> = Some(Action::PlayPauseDeck { is_a });
    if is_a {
        add_place(targets, x, y, 4, 1, p, "play_a", midi);
    } else {
        add_place(targets, x, y, 4, 1, p, "play_b", midi);
    }
    assert(targets@ =~= t0 + play_place(is_a, x as int, y as int));
}

fn add_nudge_places(targets: &mut Vec<ClickTarget>, is_a: bool, x: u128, y: u128)
    requires
        x <= 0xffff_ffff_ffff_ffff_ffff,
    ensures
        final(targets)@ == old(targets)@ + nudge_places(is_a, x as int, y as int),
{
    let ghost t0 = targets@;
    let back: ClickAction = ClickAction::SimulateKey(KeyCode::Char('['));
    let fwd: ClickAction = ClickAction::SimulateKey(KeyCode::Char(']'));
    let mb: Option<Action> = Some(Action::NudgeDeck { is_a, direction: -1 });
    let mf: Option<Action> = Some(Action::NudgeDeck { is_a, direction: 1 });
    if is_a {
        add_place(targets, x, y, 1, 1, back, "nudge_back_a", mb);
        add_place(targets, x + 8, y, 1, 1, fwd, "nudge_fwd_a", mf);
    } else {
        add_place(targets, x, y, 1, 1, back, "nudge_back_b", mb);
        add_place(targets, x + 8, y, 1, 1, fwd, "nudge_fwd_b", mf);
    }
    assert(targets@ =~= t0 + nudge_places(is_a, x as int, y as int));
}

/// The labels of the crossfader row.
pub open spec fn row_one_labels(row: Seq<char>, jump: Seq<char>, x: int, y: int) -> Seq<ClickTarget> {
    let cues = both_of(row, "CUE"@);
    let jumps = both_of(row, jump);
    let len = jump.len() as int;
    where_shown(cues.0, x, |c: int| cue_place(true, c, y)) + where_shown(
        cues.1,
        x,
        |c: int| cue_place(false, c, y),
    ) + where_shown(jumps.0, x, |c: int| jump_places(true, len, c, y)) + where_shown(
        jumps.1,
        x,
        |c: int| jump_places(false, len, c, y),
    )
}

fn add_row_one_labels(targets: &mut Vec<ClickTarget>, row: &Vec<char>, jump: &Vec<char>, x: u128, y: u128)
    requires
        jump@.len() >= 2,
        x <= 0xffff_ffff,
    ensures
        final(targets)@ == old(targets)@ + row_one_labels(row@, jump@, x as int, y as int),
{
    let ghost t0 = targets@;
    let cue: Vec<char> = chars_of("CUE");
    let cues: (Option<usize>, Option<usize>) = both_places(row, &cue);
    let jumps: (Option<usize>, Option<usize>) = both_places(row, jump);
    let len: u128 = jump.len() as u128;
    if let Some(i) = cues.0 {
        add_cue_place(targets, true, x + i as u128, y);
    }
    let ghost p1 = where_shown(opt_int(cues.0), x as int, |c: int| cue_place(true, c, y as int));
    assert(targets@ =~= t0 + p1);
    if let Some(i) = cues.1 {
        add_cue_place(targets, false, x + i as u128, y);
    }
    let ghost p2 = where_shown(opt_int(cues.1), x as int, |c: int| cue_place(false, c, y as int));
    assert(targets@ =~= t0 + p1 + p2);
    if let Some(i) = jumps.0 {
        add_jump_places(targets, true, len, x + i as u128, y);
    }
    let ghost p3 = where_shown(
        opt_int(jumps.0),
        x as int,
        |c: int| jump_places(true, len as int, c, y as int),
    );
    assert(targets@ =~= t0 + p1 + p2 + p3);
    if let Some(i) = jumps.1 {
        add_jump_places(targets, false, len, x + i as u128, y);
    }
    let ghost p4 = where_shown(
        opt_int(jumps.1),
        x as int,
        |c: int| jump_places(false, len as int, c, y as int),
    );
    assert(targets@ =~= t0 + p1 + p2 + p3 + p4);
    assert(targets@ =~= t0 + row_one_labels(row@, jump@, x as int, y as int));
}

/// The labels of the phase row.
pub open spec fn row_two_labels(row: Seq<char>, x: int, y: int) -> Seq<ClickTarget> {
    let plays = both_of(row, "PLAY"@);
    let nudges = both_of(row, "◀ NUDGE ▶"@);
    where_shown(plays.0, x, |c: int| play_place(true, c, y)) + where_shown(
        plays.1,
        x,
        |c: int| play_place(false, c, y),
    ) + where_shown(nudges.0, x, |c: int| nudge_places(true, c, y)) + where_shown(
        nudges.1,
        x,
        |c: int| nudge_places(false, c, y),
    )
}

fn add_row_two_labels(targets: &mut Vec<ClickTarget>, row: &Vec<char>, x: u128, y: u128)
    requires
        x <= 0xffff_ffff,
    ensures
        final(targets)@ == old(targets)@ + row_two_labels(row@, x as int, y as int),
{
    let ghost t0 = targets@;
    let play: Vec<char> = chars_of("PLAY");
    let nudge: Vec<char> = chars_of("◀ NUDGE ▶");
    let plays: (Option<usize>, Option<usize>) = both_places(row, &play);
    let nudges: (Option<usize>, Option<usize>) = both_places(row, &nudge);
    if let Some(i) = plays.0 {
        add_play_place(targets, true, x + i as u128, y);
    }
    let ghost p1 = where_shown(opt_int(plays.0), x as int, |c: int| play_place(true, c, y as int));
    assert(targets@ =~= t0 + p1);
    if let Some(i) = plays.1 {
        add_play_place(targets, false, x + i as u128, y);
    }
    let ghost p2 = where_shown(opt_int(plays.1), x as int, |c: int| play_place(false, c, y as int));
    assert(targets@ =~= t0 + p1 + p2);
    if let Some(i) = nudges.0 {
        add_nudge_places(targets, true, x + i as u128, y);
    }
    let ghost p3 = where_shown(
        opt_int(nudges.0),
        x as int,
        |c: int| nudge_places(true, c, y as int),
    );
    assert(targets@ =~= t0 + p1 + p2 + p3);
    if let Some(i) = nudges.1 {
        add_nudge_places(targets, false, x + i as u128, y);
    }
    let ghost p4 = where_shown(
        opt_int(nudges.1),
        x as int,
        |c: int| nudge_places(false, c, y as int),
    );
    assert(targets@ =~= t0 + p1 + p2 + p3 + p4);
    assert(targets@ =~= t0 + row_two_labels(row@, x as int, y as int));
}

/// Where a hot cue is shown at or after `from`, set or not.
pub open spec fn cue_at(row: Seq<char>, slot: int, from: int) -> Option<int> {
    let digit = seq![cue_digit(slot)];
    match (find(row, "● "@ + digit, from), find(row, "○ "@ + digit, from)) {
        (Some(f), Some(e)) => Some(
            if f <= e {
                f
            } else {
                e
            },
        ),
        (Some(f), None) => Some(f),
        (None, e) => e,
    }
}

pub open spec fn cue_digit(slot: int) -> char {
    if slot == 1 {
        '1'
    } else if slot == 2 {
        '2'
    } else if slot == 3 {
        '3'
    } else {
        '4'
    }
}

/// The name of a hot cue.
pub open spec fn cue_name(is_a: bool, slot: int) -> &'static str {
    if is_a {
        if slot == 1 {
            "hot_cue_1_a"
        } else if slot == 2 {
            "hot_cue_2_a"
        } else if slot == 3 {
            "hot_cue_3_a"
        } else {
            "hot_cue_4_a"
        }
    } else {
        if slot == 1 {
            "hot_cue_1_b"
        } else if slot == 2 {
            "hot_cue_2_b"
        } else if slot == 3 {
            "hot_cue_3_b"
        } else {
            "hot_cue_4_b"
        }
    }
}

/// A hot cue of a deck.
pub open spec fn hot_cue_place(is_a: bool, slot: int, x: int, y: int) -> ClickTarget {
    place(
        x,
        y,
        3,
        1,
        ClickAction::SimulateKey(KeyCode::Char(cue_digit(slot))),
        cue_name(is_a, slot),
        Some(Action::Cue { is_a, slot: (slot - 1) as u8 }),
    )
}

/// The hot cues of one slot: deck A's first.
pub open spec fn slot_places(row: Seq<char>, slot: int, x: int, y: int) -> Seq<ClickTarget> {
    match cue_at(row, slot, 0) {
        Some(a) => seq![hot_cue_place(true, slot, x + a, y)] + match cue_at(row, slot, a + 3) {
            Some(b) => seq![hot_cue_place(false, slot, x + b, y)],
            None => Seq::empty(),
        },
        None => Seq::empty(),
    }
}

/// The hot cues of the crossfader row.
pub open spec fn hot_cue_places(row: Seq<char>, x: int, y: int) -> Seq<ClickTarget> {
    slot_places(row, 1, x, y) + slot_places(row, 2, x, y) + slot_places(row, 3, x, y)
        + slot_places(row, 4, x, y)
}

fn cue_digit_of(slot: u8) -> (c: char)
    ensures
        c == cue_digit(slot as int),
{
    if slot == 1 {
        '1'
    } else if slot == 2 {
        '2'
    } else if slot == 3 {
        '3'
    } else {
        '4'
    }
}

fn cue_name_of(is_a: bool, slot: u8) -> (s: &'static str)
    ensures
        s == cue_name(is_a, slot as int),
{
    if is_a {
        if slot == 1 {
            "hot_cue_1_a"
        } else if slot == 2 {
            "hot_cue_2_a"
        } else if slot == 3 {
            "hot_cue_3_a"
        } else {
            "hot_cue_4_a"
        }
    } else {
        if slot == 1 {
            "hot_cue_1_b"
        } else if slot == 2 {
            "hot_cue_2_b"
        } else if slot == 3 {
            "hot_cue_3_b"
        } else {
            "hot_cue_4_b"
        }
    }
}

fn cue_position(row: &Vec<char>, slot: u8, from: usize) -> (r: Option<usize>)
    requires
        from <= row@.len(),
    ensures
        opt_int(r) == cue_at(row@, slot as int, from as int),
        r matches Some(i) ==> from <= i && i + 3 <= row@.len(),
{
    let c: char = cue_digit_of(slot);
    let mut full: Vec<char> = chars_of("● ");
    full.push(c);
    let mut hollow: Vec<char> = chars_of("○ ");
    hollow.push(c);
    proof {
        reveal_strlit("● ");
        reveal_strlit("○ ");
        assert("● "@.len() == 2 && "○ "@.len() == 2);
        assert(full@ =~= "● "@ + seq![c]);
        assert(hollow@ =~= "○ "@ + seq![c]);
    }
    match (find_text(row, &full, from), find_text(row, &hollow, from)) {
        (Some(f), Some(e)) => Some(
            if f <= e {
                f
            } else {
                e
            },
        ),
        (Some(f), None) => Some(f),
        (None, Some(e)) => Some(e),
        (None, None) => None,
    }
}

fn add_hot_cue(targets: &mut Vec<ClickTarget>, is_a: bool, slot: u8, x: u128, y: u128)
    requires
        1 <= slot,
    ensures
        final(targets)@ == old(targets)@.push(hot_cue_place(is_a, slot as int, x as int, y as int)),
{
    add_place(
        targets,
        x,
        y,
        3,
        1,
        ClickAction::SimulateKey(KeyCode::Char(cue_digit_of(slot))),
        cue_name_of(is_a, slot),
        Some(Action::Cue { is_a, slot: slot - 1 }),
    );
}

fn add_slot(targets: &mut Vec<ClickTarget>, row: &Vec<char>, slot: u8, x: u128, y: u128)
    requires
        1 <= slot,
        x <= 0xffff_ffff,
    ensures
        final(targets)@ == old(targets)@ + slot_places(row@, slot as int, x as int, y as int),
{
    let ghost t0 = targets@;
    let n: usize = row.len();
    assert(n == row@.len());
    if let Some(a) = cue_position(row, slot, 0) {
        add_hot_cue(targets, true, slot, x + a as u128, y);
        if let Some(b) = cue_position(row, slot, a + 3) {
            add_hot_cue(targets, false, slot, x + b as u128, y);
        }
    }
    assert(targets@ =~= t0 + slot_places(row@, slot as int, x as int, y as int));
}

fn add_hot_cues(targets: &mut Vec<ClickTarget>, row: &Vec<char>, x: u128, y: u128)
    requires
        x <= 0xffff_ffff,
    ensures
        final(targets)@ == old(targets)@ + hot_cue_places(row@, x as int, y as int),
{
    let ghost t0 = targets@;
    add_slot(targets, row, 1, x, y);
    add_slot(targets, row, 2, x, y);
    add_slot(targets, row, 3, x, y);
    add_slot(targets, row, 4, x, y);
    assert(targets@ =~= t0 + hot_cue_places(row@, x as int, y as int));
}

/// The loop buttons of a deck: 1, 2, 4, 8 and 16 beats, and off.
pub open spec fn loop_places(is_a: bool, x: int, y: int) -> Seq<ClickTarget> {
    let on = |beats: u32| ClickAction::LoopEngageDeck { is_a, beats };
    let off = ClickAction::LoopOffDeck { is_a };
    if is_a {
        seq![
            place(x, y, 1, 1, on(1), "loop_1_a", None),
            place(x + 3, y, 1, 1, on(2), "loop_2_a", None),
            place(x + 6, y, 1, 1, on(4), "loop_4_a", None),
            place(x + 9, y, 1, 1, on(8), "loop_8_a", None),
            place(x + 12, y, 2, 1, on(16), "loop_16_a", None),
            place(x + 16, y, 3, 1, off, "loop_off_a", None),
        ]
    } else {
        seq![
            place(x, y, 1, 1, on(1), "loop_1_b", None),
            place(x + 3, y, 1, 1, on(2), "loop_2_b", None),
            place(x + 6, y, 1, 1, on(4), "loop_4_b", None),
            place(x + 9, y, 1, 1, on(8), "loop_8_b", None),
            place(x + 12, y, 2, 1, on(16), "loop_16_b", None),
            place(x + 16, y, 3, 1, off, "loop_off_b", None),
        ]
    }
}

fn add_loop_places(targets: &mut Vec<ClickTarget>, is_a: bool, x: u128, y: u128)
    requires
        x <= 0xffff_ffff,
    ensures
        final(targets)@ == old(targets)@ + loop_places(is_a, x as int, y as int),
{
    let ghost t0 = targets@;
    let l1: ClickAction = ClickAction::LoopEngageDeck { is_a, beats: 1 };
    let l2: ClickAction = ClickAction::LoopEngageDeck { is_a, beats: 2 };
    let l4: ClickAction = ClickAction::LoopEngageDeck { is_a, beats: 4 };
    let l8: ClickAction = ClickAction::LoopEngageDeck { is_a, beats: 8 };
    let l16: ClickAction = ClickAction::LoopEngageDeck { is_a, beats: 16 };
    let off: ClickAction = ClickAction::LoopOffDeck { is_a };
    if is_a {
        add_place(targets, x, y, 1, 1, l1, "loop_1_a", None);
        add_place(targets, x + 3, y, 1, 1, l2, "loop_2_a", None);
        add_place(targets, x + 6, y, 1, 1, l4, "loop_4_a", None);
        add_place(targets, x + 9, y, 1, 1, l8, "loop_8_a", None);
        add_place(targets, x + 12, y, 2, 1, l16, "loop_16_a", None);
        add_place(targets, x + 16, y, 3, 1, off, "loop_off_a", None);
    } else {
        add_place(targets, x, y, 1, 1, l1, "loop_1_b", None);
        add_place(targets, x + 3, y, 1, 1, l2, "loop_2_b", None);
        add_place(targets, x + 6, y, 1, 1, l4, "loop_4_b", None);
        add_place(targets, x + 9, y, 1, 1, l8, "loop_8_b", None);
        add_place(targets, x + 12, y, 2, 1, l16, "loop_16_b", None);
        add_place(targets, x + 16, y, 3, 1, off, "loop_off_b", None);
    }
    assert(targets@ =~= t0 + loop_places(is_a, x as int, y as int));
}

/// Everything to click on the crossfader row, at `y`, and the phase row below it.
#[verifier::opaque]
pub open spec fn row_places(
    area: Area,
    one: Seq<char>,
    two: Seq<char>,
    jump: Seq<char>,
    y: int,
) -> Seq<ClickTarget> {
    let x = area.x + 2;
    seq![crossfader_place(area, y)] + row_one_labels(one, jump, x, y) + row_two_labels(
        two,
        x,
        y + 1,
    ) + hot_cue_places(one, x, y) + loop_places(true, x + 19, y + 1) + loop_places(
        false,
        area.x + area.width - 40,
        y + 1,
    )
}

pub fn add_row_places(
    targets: &mut Vec<ClickTarget>,
    area: Area,
    one: &str,
    two: &str,
    jump: &str,
    y: u128,
)
    requires
        area.width >= 40,
        jump@.len() >= 2,
        y <= 0xffff_ffff_ffff_ffff_ffff,
    ensures
        final(targets)@ == old(targets)@ + row_places(area, one@, two@, jump@, y as int),
{
    let ghost t0 = targets@;
    let x: u128 = area.x as u128 + 2;
    let v1: Vec<char> = chars_of(one);
    let v2: Vec<char> = chars_of(two);
    let vj: Vec<char> = chars_of(jump);
    add_crossfader_place(targets, area, y);
    add_row_one_labels(targets, &v1, &vj, x, y);
    add_row_two_labels(targets, &v2, x, y + 1);
    add_hot_cues(targets, &v1, x, y);
    add_loop_places(targets, true, x + 19, y + 1);
    add_loop_places(targets, false, area.x as u128 + area.width as u128 - 40, y + 1);
    reveal(row_places);
    assert(targets@ =~= t0 + row_places(area, one@, two@, jump@, y as int));
}

/// The crossfader is clicked where its meter is drawn, as long as what stands
/// beside it leaves it in its place.
pub proof fn crossfader_is_clicked_on_its_meter(
    info: NowPlaying,
    sel: Option<CtrlSection>,
    area: Area,
    y: int,
)
    requires
        ({
            let w = area.width as nat;
            let m = meter_width(w);
            let left = left_one(info, sel);
            let right = right_one(info, sel);
            &&& left.len() + m / 2 + 2 <= center_col(w)
            &&& center_col(w) - m / 2 + m + 3 + right.len() <= w - 4
        }),
    ensures
        ({
            let w = area.width as nat;
            let m = meter_width(w);
            let at = center_col(w) - m / 2;
            &&& row_one(info, sel, w).subrange(at, at + m) == crossfader_bar(
                info.crossfader_visual as int,
                m,
            )
            &&& crossfader_place(area, y).x == coord(area.x + 2 + at)
            &&& crossfader_place(area, y).w == m
        }),
{
    let w = area.width as nat;
    let m = meter_width(w);
    let bar = crossfader_bar(info.crossfader_visual as int, m);
    let center = "A "@ + bar + " B"@;
    reveal_strlit("A ");
    reveal_strlit(" B");
    assert("A "@.len() == 2 && " B"@.len() == 2);
    assert(center.len() == m + 4);
    let total = minus(minus(w as int, 2) as int, 2);
    crate::boxes::ctrl_row_is_anchored(
        left_one(info, sel),
        center,
        right_one(info, sel),
        total,
        center_col(w),
    );
    let row = row_one(info, sel, w);
    let from = center_col(w) - (m + 4) as int / 2;
    assert(row.subrange(from, from + m + 4) == center);
    let at = center_col(w) - m / 2;
    assert(row.subrange(at, at + m) =~= row.subrange(from, from + m + 4).subrange(2, 2 + m as int));
    assert(center.subrange(2, 2 + m as int) =~= bar);
}

} // verus!
