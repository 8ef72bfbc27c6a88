//! What the places to click on the controller are for.
use crate::clicks::{ClickAction, ClickTarget};
use crate::control_places::{
    cue_place, hot_cue_place, jump_places, loop_places, nudge_places, play_place,
};
use crate::controller::{eq_section, strip_places};
use crate::controls::CtrlSection;
use crate::key::KeyCode;
use crate::midi_learn::Action;
use crate::mixer_laws::strip_deck;
use crate::mouse::{click_at, cue_set_char, wheel_key, Click, MouseKind};
use crate::panels::Area;
use crate::text::digits_value;
use vstd::prelude::*;

verus! {

/// The deck that the name of a place ends in.
pub open spec fn name_deck(t: ClickTarget) -> Option<bool> {
    match t.label {
        Some(l) => if l@.len() >= 2 && l@[l@.len() - 2] == '_' && l@.last() == 'a' {
            Some(true)
        } else if l@.len() >= 2 && l@[l@.len() - 2] == '_' && l@.last() == 'b' {
            Some(false)
        } else {
            None
        },
        None => None,
    }
}

/// The deck that a controller bound to an action works on.
pub open spec fn midi_deck(a: Action) -> Option<bool> {
    match a {
        Action::Crossfader => None,
        Action::ChannelFader { is_a } => Some(is_a),
        Action::Tempo { is_a } => Some(is_a),
        Action::EqLow { is_a } => Some(is_a),
        Action::EqMid { is_a } => Some(is_a),
        Action::EqHigh { is_a } => Some(is_a),
        Action::Filter { is_a } => Some(is_a),
        Action::Cue { is_a, .. } => Some(is_a),
        Action::CueSet { is_a, .. } => Some(is_a),
        Action::PlayPauseDeck { is_a } => Some(is_a),
        Action::JumpBarsDeck { is_a, .. } => Some(is_a),
        Action::NudgeDeck { is_a, .. } => Some(is_a),
    }
}

/// The deck that a control belongs to.
pub open spec fn control_deck(s: CtrlSection) -> Option<bool> {
    match s {
        CtrlSection::Crossfader => None,
        CtrlSection::TempoA
        | CtrlSection::VolumeA
        | CtrlSection::CueA
        | CtrlSection::PlayA
        | CtrlSection::JumpA
        | CtrlSection::NudgeA
        | CtrlSection::EqLowA
        | CtrlSection::EqMidA
        | CtrlSection::EqHighA
        | CtrlSection::FilterA => Some(true),
        _ => Some(false),
    }
}

/// The deck that a click works on, where it names one.
pub open spec fn click_deck(a: ClickAction) -> Option<bool> {
    match a {
        ClickAction::LoopEngageDeck { is_a, .. } => Some(is_a),
        ClickAction::LoopOffDeck { is_a } => Some(is_a),
        ClickAction::WaveformZoom(is_a) => Some(is_a),
        ClickAction::FocusDashSection(s) => control_deck(s),
        ClickAction::SetVerticalRange { control, .. } => Some(strip_deck(control)),
        _ => None,
    }
}

/// The name of a place, what a click on it does and what a controller bound to it
/// does are about the same deck.
pub open spec fn is_of_one_deck(t: ClickTarget, deck: bool) -> bool {
    &&& name_deck(t) == Some(deck)
    &&& click_deck(t.action) is Some ==> click_deck(t.action) == Some(deck)
    &&& t.midi_action matches Some(m) ==> midi_deck(m) == Some(deck)
}

proof fn lemma_names()
    ensures
        "tempo_a"@ == seq!['t', 'e', 'm', 'p', 'o', '_', 'a'],
        "tempo_b"@ == seq!['t', 'e', 'm', 'p', 'o', '_', 'b'],
        "volume_a"@ == seq!['v', 'o', 'l', 'u', 'm', 'e', '_', 'a'],
        "volume_b"@ == seq!['v', 'o', 'l', 'u', 'm', 'e', '_', 'b'],
        "eq_high_a"@ == seq!['e', 'q', '_', 'h', 'i', 'g', 'h', '_', 'a'],
        "eq_mid_a"@ == seq!['e', 'q', '_', 'm', 'i', 'd', '_', 'a'],
        "eq_low_a"@ == seq!['e', 'q', '_', 'l', 'o', 'w', '_', 'a'],
        "filter_a"@ == seq!['f', 'i', 'l', 't', 'e', 'r', '_', 'a'],
        "eq_high_b"@ == seq!['e', 'q', '_', 'h', 'i', 'g', 'h', '_', 'b'],
        "eq_mid_b"@ == seq!['e', 'q', '_', 'm', 'i', 'd', '_', 'b'],
        "eq_low_b"@ == seq!['e', 'q', '_', 'l', 'o', 'w', '_', 'b'],
        "filter_b"@ == seq!['f', 'i', 'l', 't', 'e', 'r', '_', 'b'],
{
    reveal_strlit("tempo_a");
    reveal_strlit("tempo_b");
    reveal_strlit("volume_a");
    reveal_strlit("volume_b");
    reveal_strlit("eq_high_a");
    reveal_strlit("eq_mid_a");
    reveal_strlit("eq_low_a");
    reveal_strlit("filter_a");
    reveal_strlit("eq_high_b");
    reveal_strlit("eq_mid_b");
    reveal_strlit("eq_low_b");
    reveal_strlit("filter_b");
    assert("tempo_a"@ =~= seq!['t', 'e', 'm', 'p', 'o', '_', 'a']);
    assert("tempo_b"@ =~= seq!['t', 'e', 'm', 'p', 'o', '_', 'b']);
    assert("volume_a"@ =~= seq!['v', 'o', 'l', 'u', 'm', 'e', '_', 'a']);
    assert("volume_b"@ =~= seq!['v', 'o', 'l', 'u', 'm', 'e', '_', 'b']);
    assert("eq_high_a"@ =~= seq!['e', 'q', '_', 'h', 'i', 'g', 'h', '_', 'a']);
    assert("eq_mid_a"@ =~= seq!['e', 'q', '_', 'm', 'i', 'd', '_', 'a']);
    assert("eq_low_a"@ =~= seq!['e', 'q', '_', 'l', 'o', 'w', '_', 'a']);
    assert("filter_a"@ =~= seq!['f', 'i', 'l', 't', 'e', 'r', '_', 'a']);
    assert("eq_high_b"@ =~= seq!['e', 'q', '_', 'h', 'i', 'g', 'h', '_', 'b']);
    assert("eq_mid_b"@ =~= seq!['e', 'q', '_', 'm', 'i', 'd', '_', 'b']);
    assert("eq_low_b"@ =~= seq!['e', 'q', '_', 'l', 'o', 'w', '_', 'b']);
    assert("filter_b"@ =~= seq!['f', 'i', 'l', 't', 'e', 'r', '_', 'b']);
}

/// What a click sets or focuses is what a controller bound there sets.
pub open spec fn does_as_bound(t: ClickTarget) -> bool {
    match t.midi_action {
        Some(Action::Tempo { .. }) => t.action matches ClickAction::SetVerticalRange {
            control,
            ..
        } && (control is TempoA || control is TempoB),
        Some(Action::ChannelFader { .. }) => t.action matches ClickAction::SetVerticalRange {
            control,
            ..
        } && (control is VolumeA || control is VolumeB),
        Some(Action::EqHigh { .. }) => t.action matches ClickAction::FocusDashSection(s) && (
        s is EqHighA || s is EqHighB),
        Some(Action::EqMid { .. }) => t.action matches ClickAction::FocusDashSection(s) && (
        s is EqMidA || s is EqMidB),
        Some(Action::EqLow { .. }) => t.action matches ClickAction::FocusDashSection(s) && (
        s is EqLowA || s is EqLowB),
        Some(Action::Filter { .. }) => t.action matches ClickAction::FocusDashSection(s) && (
        s is FilterA || s is FilterB),
        _ => false,
    }
}

/// The strips and the readings of the equaliser are each of one deck, and those of
/// deck A stand left of those of deck B.
#[verifier::spinoff_prover]
#[verifier::rlimit(60)]
pub proof fn strips_are_of_one_deck(area: Area, y: int, i: int)
    requires
        0 <= i < strip_places(area, y).len(),
    ensures
        strip_places(area, y).len() == 12,
        is_of_one_deck(
            strip_places(area, y)[i],
            name_deck(strip_places(area, y)[i]) == Some(true),
        ),
        does_as_bound(strip_places(area, y)[i]),
{
    lemma_names();
}

/// Where the screen has room for both decks, what is clicked for deck A lies left
/// of what is clicked for deck B.
pub proof fn deck_a_is_left(area: Area, y: int, i: int, j: int)
    requires
        area.width >= 61,
        area.x + area.width <= 0xffff,
        0 <= i < 12,
        0 <= j < 12,
        name_deck(strip_places(area, y)[i]) == Some(true),
        name_deck(strip_places(area, y)[j]) == Some(false),
    ensures
        strip_places(area, y)[i].x < strip_places(area, y)[j].x,
{
    lemma_names();
}

/// A reading is clicked on the row that it stands on.
pub proof fn readings_are_clicked_on_their_row(is_a: bool, row: int, area: Area, y: int)
    requires
        row == 0 || row == 2 || row == 4 || row == 6,
        0 <= y,
        y + 6 <= 0xffff,
    ensures
        exists|i: int|
            {
                let t = #[trigger] strip_places(area, y)[i];
                &&& 0 <= i < strip_places(area, y).len()
                &&& t.y == y + row
                &&& eq_section(is_a, row) matches Some(s) && t.action
                    == ClickAction::FocusDashSection(s)
            },
{
    let places = strip_places(area, y);
    let i = (if is_a {
        4int
    } else {
        8
    }) + row / 2;
    assert(places[i].y == y + row);
}

proof fn lemma_label_names()
    ensures
        "cue_a"@ == seq!['c', 'u', 'e', '_', 'a'],
        "cue_b"@ == seq!['c', 'u', 'e', '_', 'b'],
        "play_a"@ == seq!['p', 'l', 'a', 'y', '_', 'a'],
        "play_b"@ == seq!['p', 'l', 'a', 'y', '_', 'b'],
        "jump_back_a"@ == seq!['j', 'u', 'm', 'p', '_', 'b', 'a', 'c', 'k', '_', 'a'],
        "jump_back_b"@ == seq!['j', 'u', 'm', 'p', '_', 'b', 'a', 'c', 'k', '_', 'b'],
        "jump_cycle_a"@ == seq!['j', 'u', 'm', 'p', '_', 'c', 'y', 'c', 'l', 'e', '_', 'a'],
        "jump_cycle_b"@ == seq!['j', 'u', 'm', 'p', '_', 'c', 'y', 'c', 'l', 'e', '_', 'b'],
        "jump_fwd_a"@ == seq!['j', 'u', 'm', 'p', '_', 'f', 'w', 'd', '_', 'a'],
        "jump_fwd_b"@ == seq!['j', 'u', 'm', 'p', '_', 'f', 'w', 'd', '_', 'b'],
        "nudge_back_a"@ == seq!['n', 'u', 'd', 'g', 'e', '_', 'b', 'a', 'c', 'k', '_', 'a'],
        "nudge_back_b"@ == seq!['n', 'u', 'd', 'g', 'e', '_', 'b', 'a', 'c', 'k', '_', 'b'],
        "nudge_fwd_a"@ == seq!['n', 'u', 'd', 'g', 'e', '_', 'f', 'w', 'd', '_', 'a'],
        "nudge_fwd_b"@ == seq!['n', 'u', 'd', 'g', 'e', '_', 'f', 'w', 'd', '_', 'b'],
{
    reveal_strlit("cue_a");
    reveal_strlit("cue_b");
    reveal_strlit("play_a");
    reveal_strlit("play_b");
    reveal_strlit("jump_back_a");
    reveal_strlit("jump_back_b");
    reveal_strlit("jump_cycle_a");
    reveal_strlit("jump_cycle_b");
    reveal_strlit("jump_fwd_a");
    reveal_strlit("jump_fwd_b");
    reveal_strlit("nudge_back_a");
    reveal_strlit("nudge_back_b");
    reveal_strlit("nudge_fwd_a");
    reveal_strlit("nudge_fwd_b");
    assert("cue_a"@ =~= seq!['c', 'u', 'e', '_', 'a']);
    assert("cue_b"@ =~= seq!['c', 'u', 'e', '_', 'b']);
    assert("play_a"@ =~= seq!['p', 'l', 'a', 'y', '_', 'a']);
    assert("play_b"@ =~= seq!['p', 'l', 'a', 'y', '_', 'b']);
    assert("jump_back_a"@ =~= seq!['j', 'u', 'm', 'p', '_', 'b', 'a', 'c', 'k', '_', 'a']);
    assert("jump_back_b"@ =~= seq!['j', 'u', 'm', 'p', '_', 'b', 'a', 'c', 'k', '_', 'b']);
    assert("jump_cycle_a"@ =~= seq!['j', 'u', 'm', 'p', '_', 'c', 'y', 'c', 'l', 'e', '_', 'a']);
    assert("jump_cycle_b"@ =~= seq!['j', 'u', 'm', 'p', '_', 'c', 'y', 'c', 'l', 'e', '_', 'b']);
    assert("jump_fwd_a"@ =~= seq!['j', 'u', 'm', 'p', '_', 'f', 'w', 'd', '_', 'a']);
    assert("jump_fwd_b"@ =~= seq!['j', 'u', 'm', 'p', '_', 'f', 'w', 'd', '_', 'b']);
    assert("nudge_back_a"@ =~= seq!['n', 'u', 'd', 'g', 'e', '_', 'b', 'a', 'c', 'k', '_', 'a']);
    assert("nudge_back_b"@ =~= seq!['n', 'u', 'd', 'g', 'e', '_', 'b', 'a', 'c', 'k', '_', 'b']);
    assert("nudge_fwd_a"@ =~= seq!['n', 'u', 'd', 'g', 'e', '_', 'f', 'w', 'd', '_', 'a']);
    assert("nudge_fwd_b"@ =~= seq!['n', 'u', 'd', 'g', 'e', '_', 'f', 'w', 'd', '_', 'b']);
}

/// The labels of a deck are of that deck, and an arrow to the left goes back where
/// one to the right goes forward.
#[verifier::spinoff_prover]
#[verifier::rlimit(60)]
pub proof fn labels_are_of_their_deck(is_a: bool, len: int, x: int, y: int)
    requires
        0 <= x,
        3 <= len,
        x + len + 8 <= 0xffff,
    ensures
        is_of_one_deck(cue_place(is_a, x, y)[0], is_a),
        is_of_one_deck(play_place(is_a, x, y)[0], is_a),
        play_place(is_a, x, y)[0].midi_action == Some(Action::PlayPauseDeck { is_a }),
        forall|i: int|
            0 <= i < 3 ==> is_of_one_deck(#[trigger] jump_places(is_a, len, x, y)[i], is_a),
        forall|i: int| 0 <= i < 2 ==> is_of_one_deck(#[trigger] nudge_places(is_a, x, y)[i], is_a),
        ({
            let back = jump_places(is_a, len, x, y)[0];
            let fwd = jump_places(is_a, len, x, y)[2];
            &&& back.x < fwd.x
            &&& back.action == ClickAction::SimulateKey(KeyCode::Char('<'))
            &&& fwd.action == ClickAction::SimulateKey(KeyCode::Char('>'))
            &&& back.midi_action matches Some(Action::JumpBarsDeck { bars: b, .. })
                && fwd.midi_action matches Some(Action::JumpBarsDeck { bars: f, .. }) && b < 0
                && f == -b
        }),
        ({
            let back = nudge_places(is_a, x, y)[0];
            let fwd = nudge_places(is_a, x, y)[1];
            &&& back.x < fwd.x
            &&& back.action == ClickAction::SimulateKey(KeyCode::Char('['))
            &&& fwd.action == ClickAction::SimulateKey(KeyCode::Char(']'))
            &&& back.midi_action matches Some(Action::NudgeDeck { direction: b, .. })
                && fwd.midi_action matches Some(Action::NudgeDeck { direction: f, .. }) && b < 0
                && f == -b
        }),
{
    lemma_label_names();
}

/// A hot cue goes by the same number on the screen, in its name and for a
/// controller, which counts from none.
pub proof fn hot_cues_go_by_their_number(is_a: bool, slot: int, x: int, y: int)
    requires
        1 <= slot <= 4,
    ensures
        ({
            let t = hot_cue_place(is_a, slot, x, y);
            &&& is_of_one_deck(t, is_a)
            &&& t.action matches ClickAction::SimulateKey(KeyCode::Char(c)) && digits_value(seq![c])
                == slot
            &&& t.label matches Some(l) && l@.len() == 11 && digits_value(seq![l@[8]]) == slot
            &&& t.midi_action == Some(Action::Cue { is_a, slot: (slot - 1) as u8 })
        }),
{
    reveal_strlit("hot_cue_1_a");
    reveal_strlit("hot_cue_2_a");
    reveal_strlit("hot_cue_3_a");
    reveal_strlit("hot_cue_4_a");
    reveal_strlit("hot_cue_1_b");
    reveal_strlit("hot_cue_2_b");
    reveal_strlit("hot_cue_3_b");
    reveal_strlit("hot_cue_4_b");
    lemma_one('1', 1);
    lemma_one('2', 2);
    lemma_one('3', 3);
    lemma_one('4', 4);
}

proof fn lemma_one(c: char, n: nat)
    requires
        n < 10,
        c == ('0' as u8 + n) as u8 as char,
    ensures
        digits_value(seq![c]) == n,
{
    crate::readings::decimal_reads_back(n);
    assert(seq![c] =~= crate::text::decimal(n));
}

proof fn lemma_two(c: char, d: char, n: nat)
    requires
        10 <= n < 100,
        c == ('0' as u8 + n / 10) as u8 as char,
        d == ('0' as u8 + n % 10) as u8 as char,
    ensures
        digits_value(seq![c, d]) == n,
{
    crate::readings::decimal_reads_back(n);
    crate::readings::decimal_reads_back(n / 10);
    assert(seq![c, d] =~= crate::text::decimal(n));
}

/// A loop button loops its own deck for as many beats as its name reads; the last
/// one releases the loop.
#[verifier::spinoff_prover]
#[verifier::rlimit(40)]
pub proof fn loops_go_by_their_number(is_a: bool, x: int, y: int, i: int)
    requires
        0 <= i < 6,
    ensures
        ({
            let t = loop_places(is_a, x, y)[i];
            &&& loop_places(is_a, x, y).len() == 6
            &&& is_of_one_deck(t, is_a)
            &&& i < 5 ==> (t.action matches ClickAction::LoopEngageDeck { beats, .. } && (t.label
                matches Some(l) && l@.len() >= 8 && digits_value(l@.subrange(5, l@.len() - 2))
                == beats))
            &&& i == 5 ==> t.action is LoopOffDeck
        }),
{
    reveal_strlit("loop_1_a");
    reveal_strlit("loop_2_a");
    reveal_strlit("loop_4_a");
    reveal_strlit("loop_8_a");
    reveal_strlit("loop_16_a");
    reveal_strlit("loop_off_a");
    reveal_strlit("loop_1_b");
    reveal_strlit("loop_2_b");
    reveal_strlit("loop_4_b");
    reveal_strlit("loop_8_b");
    reveal_strlit("loop_16_b");
    reveal_strlit("loop_off_b");
    lemma_one('1', 1);
    lemma_one('2', 2);
    lemma_one('4', 4);
    lemma_one('8', 8);
    lemma_two('1', '6', 16);
    let l = loop_places(is_a, x, y)[i].label->0@;
    if i == 0 {
        assert(l.subrange(5, l.len() - 2) =~= seq!['1']);
    } else if i == 1 {
        assert(l.subrange(5, l.len() - 2) =~= seq!['2']);
    } else if i == 2 {
        assert(l.subrange(5, l.len() - 2) =~= seq!['4']);
    } else if i == 3 {
        assert(l.subrange(5, l.len() - 2) =~= seq!['8']);
    } else if i == 4 {
        assert(l.subrange(5, l.len() - 2) =~= seq!['1', '6']);
    }
}

/// The wheel turns the way of the arrow keys; up undoes down, and left undoes
/// right.
pub proof fn wheel_goes_the_way_of_the_arrows(kind: MouseKind)
    ensures
        kind is ScrollUp <==> wheel_key(kind) == Some(KeyCode::Up),
        kind is ScrollDown <==> wheel_key(kind) == Some(KeyCode::Down),
        kind is ScrollLeft <==> wheel_key(kind) == Some(KeyCode::Left),
        kind is ScrollRight <==> wheel_key(kind) == Some(KeyCode::Right),
{
}

/// A click does what the target that was drawn last there does; with Shift it sets
/// a hot cue instead, and only a hot cue.
pub proof fn clicks_do_what_they_hit(
    targets: Seq<ClickTarget>,
    t: ClickTarget,
    col: u16,
    row: u16,
    shift: bool,
)
    ensures
        t.covers(col as int, row as int) ==> match click_at(targets.push(t), col, row, false) {
            Click::Key(k) => t.action == ClickAction::SimulateKey(k.code),
            Click::Do(a) => t.action == a,
            Click::Miss => false,
        },
        !t.covers(col as int, row as int) ==> click_at(targets.push(t), col, row, shift)
            == click_at(targets, col, row, shift),
        cue_set_char(t.action) is None ==> t.covers(col as int, row as int) ==> click_at(
            targets.push(t),
            col,
            row,
            true,
        ) == click_at(targets.push(t), col, row, false),
{
    assert(targets.push(t).drop_last() =~= targets);
    assert(targets.push(t).last() == t);
}

} // verus!
