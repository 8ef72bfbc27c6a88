//! What the rules editor changes, and what it shows of a rule.
use crate::key::KeyCode;
use crate::readings::decimal_reads_back;
use crate::rules::{any_condition, ActionV, ConditionV, RuleV};
use crate::rules_editor::{
    added_choice, adjusted, choices_of, edited, editor_step, field_index, kind_index, new_rule,
    removed_choice, stepped_choice, stepped_transition, transition_index, value_text, with_field,
    EditV, EditorV, KeyResult, ModeV, TRANSITIONS,
};
use crate::rules_view::{condition_text, percent_text, rule_line};
use crate::text::{decimal, digits_value};
use vstd::prelude::*;

verus! {

/// The amount in a field of a condition, where it is one that can be raised and
/// lowered; in hundredths, steps, minutes.
pub open spec fn amount(c: ConditionV, field: int) -> Option<int> {
    if field == 1 && c.bpm_gap_pct_gt is Some {
        Some(c.bpm_gap_pct_gt->0 as int)
    } else if field == 2 && c.bpm_gap_pct_lt is Some {
        Some(c.bpm_gap_pct_lt->0 as int)
    } else if field == 3 && c.key_dist_eq is Some {
        Some(c.key_dist_eq->0 as int)
    } else if field == 4 && c.key_dist_lte is Some {
        Some(c.key_dist_lte->0 as int)
    } else if field == 5 && c.key_dist_gte is Some {
        Some(c.key_dist_gte->0 as int)
    } else if field == 8 && c.energy_delta_gt is Some {
        Some(c.energy_delta_gt->0 as int)
    } else if field == 9 && c.energy_delta_lt is Some {
        Some(c.energy_delta_lt->0 as int)
    } else if field == 11 && c.time_in_set_min_gt is Some {
        Some(c.time_in_set_min_gt->0 as int)
    } else if field == 12 && c.time_in_set_min_lt is Some {
        Some(c.time_in_set_min_lt->0 as int)
    } else {
        None
    }
}

/// A step of a field, and the ends of what it can hold.
pub open spec fn stride(field: int) -> int {
    if field == 1 || field == 2 {
        100
    } else if 3 <= field <= 5 {
        1
    } else {
        5
    }
}

pub open spec fn limits(field: int) -> (int, int) {
    if 3 <= field <= 5 {
        (0, 6)
    } else if field == 8 || field == 9 {
        (-100, 100)
    } else if field == 11 || field == 12 {
        (0, u32::MAX as int)
    } else {
        (0, i64::MAX as int)
    }
}

/// Up raises the amount of the field in force by its step, Down lowers it, and
/// neither leaves its limits; the field stays the one in force.
#[verifier::spinoff_prover]
#[verifier::rlimit(40)]
pub proof fn amounts_are_raised_and_lowered(c: ConditionV, field: int, v: int)
    requires
        field == field_index(c),
        amount(c, field) == Some(v),
        limits(field).0 <= v <= limits(field).1,
    ensures
        field_index(adjusted(c, field, 1)) == field,
        field_index(adjusted(c, field, -1)) == field,
        v + stride(field) <= limits(field).1 ==> amount(adjusted(c, field, 1), field) == Some(
            v + stride(field),
        ),
        v + stride(field) > limits(field).1 ==> amount(adjusted(c, field, 1), field) == Some(
            limits(field).1,
        ),
        v - stride(field) >= limits(field).0 ==> amount(adjusted(c, field, -1), field) == Some(
            v - stride(field),
        ),
        v - stride(field) < limits(field).0 ==> amount(adjusted(c, field, -1), field) == Some(
            limits(field).0,
        ),
{
}

/// Only the field in force changes.
#[verifier::spinoff_prover]
#[verifier::rlimit(40)]
pub proof fn other_fields_stay(c: ConditionV, field: int, step: int, other: int)
    requires
        0 <= field < 13,
        0 <= other < 13,
        other != field,
    ensures
        amount(adjusted(c, field, step), other) == amount(c, other),
        value_text(adjusted(c, field, step), other) == value_text(c, other),
{
}

/// A yes or no is turned round, twice comes back.
pub proof fn flag_is_turned_round(c: ConditionV, b: bool, step: int)
    requires
        c.phrase_is_drop == Some(b),
    ensures
        adjusted(c, 10, step).phrase_is_drop == Some(!b),
        adjusted(adjusted(c, 10, step), 10, step) == c,
{
}

proof fn lemma_transitions_differ(i: int, j: int)
    requires
        0 <= i < 5,
        0 <= j < 5,
        i != j,
    ensures
        TRANSITIONS@[i]@ != TRANSITIONS@[j]@,
{
    reveal_strlit("BeatMatched");
    reveal_strlit("EchoOut");
    reveal_strlit("BassSwap");
    reveal_strlit("FilterSweep");
    reveal_strlit("LoopRoll");
    assert("BeatMatched"@[0] == 'B' && "BeatMatched"@.len() == 11);
    assert("EchoOut"@[0] == 'E');
    assert("BassSwap"@[0] == 'B' && "BassSwap"@.len() == 8);
    assert("FilterSweep"@[0] == 'F');
    assert("LoopRoll"@[0] == 'L');
}

proof fn lemma_transition_index(i: int)
    requires
        0 <= i < 5,
    ensures
        transition_index(TRANSITIONS@[i]@) == i,
{
    if i != 0 {
        lemma_transitions_differ(i, 0);
    }
    if i != 1 {
        lemma_transitions_differ(i, 1);
    }
    if i != 2 {
        lemma_transitions_differ(i, 2);
    }
    if i != 3 {
        lemma_transitions_differ(i, 3);
    }
    if i != 4 {
        lemma_transitions_differ(i, 4);
    }
}

/// The transitions go round: one further and one back is the same one, five further
/// too, and one further is another.
pub proof fn transitions_go_round(i: int)
    requires
        0 <= i < 5,
    ensures
        ({
            let name = TRANSITIONS@[i]@;
            &&& stepped_transition(stepped_transition(name, 1), -1) == name
            &&& stepped_transition(stepped_transition(name, -1), 1) == name
            &&& stepped_transition(name, 1) != name
            &&& i < 4 ==> stepped_transition(name, 1) == TRANSITIONS@[i + 1]@
        }),
{
    lemma_transition_index(i);
    lemma_transition_index((i + 1) % 5);
    lemma_transition_index((i - 1) % 5);
    lemma_transitions_differ(i, (i + 1) % 5);
}

/// Left undoes Right on the field of a condition, and on the kind of an action.
pub proof fn left_undoes_right(s: EditV)
    ensures
        s.focus is When ==> field_index(
            edited(edited(s, KeyCode::Right), KeyCode::Left).rule.when,
        ) == field_index(s.rule.when),
        s.focus is Then ==> kind_index(
            edited(edited(s, KeyCode::Right), KeyCode::Left).rule.action,
        ) == kind_index(s.rule.action),
        s.focus is When ==> edited(s, KeyCode::Right).rule.action == s.rule.action,
        s.focus is Then ==> edited(s, KeyCode::Right).rule.when == s.rule.when,
{
    if s.focus is When {
        let f = field_index(s.rule.when);
        let c = with_field(s.rule.when, (f + 1) % 13);
        crate::rules_editor::chosen_field_is_in_force(s.rule.when, (f + 1) % 13);
        crate::rules_editor::chosen_field_is_in_force(c, ((f + 1) % 13 - 1) % 13);
    }
    if s.focus is Then {
        let k = kind_index(s.rule.action);
        crate::rules_editor::built_action_keeps_choices((k + 1) % 3, choices_of(s.rule.action));
        let a = crate::rules_editor::built_action((k + 1) % 3, choices_of(s.rule.action));
        crate::rules_editor::built_action_keeps_choices(((k + 1) % 3 - 1) % 3, choices_of(a));
    }
}

/// Down selects the next choice of an action, Up the one before.
pub proof fn choices_are_walked(s: EditV)
    requires
        s.focus is List,
        0 <= s.action_selected < choices_of(s.rule.action).len(),
    ensures
        s.action_selected + 1 < choices_of(s.rule.action).len() ==> edited(
            s,
            KeyCode::Down,
        ).action_selected == s.action_selected + 1,
        s.action_selected > 0 ==> edited(s, KeyCode::Up).action_selected == s.action_selected - 1,
        edited(s, KeyCode::Down).rule == s.rule,
        edited(s, KeyCode::Up).rule == s.rule,
{
    let n = choices_of(s.rule.action).len() as int;
    let a = s.action_selected;
    if a + 1 < n {
        assert((a + 1) % n == a + 1) by (nonlinear_arith)
            requires
                0 <= a + 1 < n,
        ;
    }
    if a > 0 {
        assert((a - 1) % n == a - 1) by (nonlinear_arith)
            requires
                0 <= a - 1 < n,
        ;
    }
}

/// Right on a weight adds one to it, Left takes one off, and the other choices stay
/// as they are.
pub proof fn weights_are_raised_and_lowered(w: Seq<(Seq<char>, i64)>, at: int, other: int)
    requires
        0 <= at < w.len(),
        0 <= other < w.len(),
        other != at,
        100 <= w[at].1 <= 1_000_000,
    ensures
        stepped_choice(ActionV::Weighted(w), at, 1) matches ActionV::Weighted(v) && v.len()
            == w.len() && v[at] == (w[at].0, (w[at].1 + 100) as i64) && v[other] == w[other],
        stepped_choice(ActionV::Weighted(w), at, -1) matches ActionV::Weighted(v) && v.len()
            == w.len() && v[at] == (w[at].0, (w[at].1 - 100) as i64) && v[other] == w[other],
{
}

/// A choice that is added comes last; one that is removed was the one selected, and
/// the last of them stays.
pub proof fn choices_are_added_and_removed(s: EditV, w: Seq<(Seq<char>, i64)>)
    requires
        s.rule.action == ActionV::Weighted(w),
        0 <= s.action_selected < w.len(),
    ensures
        added_choice(s.rule.action) matches ActionV::Weighted(v) && v.drop_last() == w,
        w.len() > 1 ==> (removed_choice(s).rule.action matches ActionV::Weighted(v) && v == w.remove(
            s.action_selected,
        )),
        w.len() == 1 ==> removed_choice(s) == s,
        removed_choice(s).rule.when == s.rule.when,
        removed_choice(s).action_selected < choices_of(removed_choice(s).rule.action).len(),
{
    assert(w.push(("BeatMatched"@, crate::rules_editor::WEIGHT_ONE)).drop_last() =~= w);
}

/// Enter on a rule edits that rule; Enter again puts what was edited in its place
/// and leaves the others alone; a new one comes last.
pub proof fn edited_rule_goes_back_to_its_place(
    e: EditorV,
    s: EditV,
    smart: Seq<RuleV>,
    smart_default: Seq<char>,
    other: int,
)
    requires
        e.wf(),
        e.mode == ModeV::Edit(s),
        0 <= other < e.rules.len(),
        s.idx != Some(other),
    ensures
        ({
            let after = editor_step(e, KeyCode::Enter, smart, smart_default).0;
            &&& after.mode is List && after.dirty && after.default == e.default
            &&& after.rules[other] == e.rules[other]
            &&& s.idx matches Some(i) ==> after.rules.len() == e.rules.len() && after.rules[i]
                == s.rule
            &&& s.idx is None ==> after.rules.len() == e.rules.len() + 1 && after.rules.last()
                == s.rule
        }),
{
}

pub proof fn selected_rule_is_edited(e: EditorV, smart: Seq<RuleV>, smart_default: Seq<char>)
    requires
        e.wf(),
        e.mode is List,
        e.selected < e.rules.len(),
    ensures
        editor_step(e, KeyCode::Enter, smart, smart_default).0.mode matches ModeV::Edit(s) && s.idx
            == Some(e.selected) && s.rule == e.rules[e.selected],
        editor_step(e, KeyCode::Char('i'), smart, smart_default).0.mode matches ModeV::Edit(s)
            && s.idx is None && s.rule == new_rule(),
        editor_step(e, KeyCode::Char('D'), smart, smart_default).0.rules == e.rules.remove(
            e.selected,
        ),
        editor_step(e, KeyCode::Char('D'), smart, smart_default).0.dirty,
{
}

/// A rule that is moved changes places with its neighbour, and stays selected.
pub proof fn moved_rule_stays_selected(e: EditorV, smart: Seq<RuleV>, smart_default: Seq<char>)
    requires
        e.wf(),
        e.mode is List,
        0 < e.selected < e.rules.len(),
    ensures
        ({
            let up = editor_step(e, KeyCode::Char('{'), smart, smart_default).0;
            &&& up.selected == e.selected - 1
            &&& up.rules[up.selected] == e.rules[e.selected]
            &&& up.rules[e.selected] == e.rules[e.selected - 1]
            &&& up.dirty
        }),
{
}

/// Moving about marks nothing as changed.
pub proof fn moving_about_changes_no_rule(
    e: EditorV,
    code: KeyCode,
    smart: Seq<RuleV>,
    smart_default: Seq<char>,
)
    requires
        e.mode is List,
        code is Up || code is Down || code is Esc,
    ensures
        ({
            let (after, r) = editor_step(e, code, smart, smart_default);
            &&& after.rules == e.rules && after.default == e.default && after.dirty == e.dirty
            &&& code is Esc <==> r == KeyResult::CloseSaved
            &&& code is Up && e.selected > 0 ==> after.selected == e.selected - 1
            &&& code is Down && e.selected < e.rules.len() ==> after.selected == e.selected + 1
        }),
{
}

/// A condition with one field set is shown under the name of that field, with the
/// amount in it.
pub proof fn conditions_are_named_by_their_field(gap: i64, distance: usize, minutes: u32)
    requires
        gap >= 0,
        gap % 100 == 0,
    ensures
        ({
            let c = ConditionV { bpm_gap_pct_gt: Some(gap), ..any_condition() };
            condition_text(c) == "bpm_gap_pct_gt"@ + " "@ + decimal((gap / 100) as nat)
        }),
        ({
            let c = ConditionV { bpm_gap_pct_lt: Some(gap), ..any_condition() };
            condition_text(c) == "bpm_gap_pct_lt"@ + " "@ + decimal((gap / 100) as nat)
        }),
        ({
            let c = ConditionV { key_dist_eq: Some(distance), ..any_condition() };
            condition_text(c) == "key_dist_eq"@ + " "@ + decimal(distance as nat)
        }),
        ({
            let c = ConditionV { key_dist_lte: Some(distance), ..any_condition() };
            condition_text(c) == "key_dist_lte"@ + " "@ + decimal(distance as nat)
        }),
        ({
            let c = ConditionV { key_dist_gte: Some(distance), ..any_condition() };
            condition_text(c) == "key_dist_gte"@ + " "@ + decimal(distance as nat)
        }),
        ({
            let c = ConditionV { time_in_set_min_gt: Some(minutes), ..any_condition() };
            condition_text(c) == "time_in_set_min_gt"@ + " "@ + decimal(minutes as nat)
        }),
        ({
            let c = ConditionV { time_in_set_min_lt: Some(minutes), ..any_condition() };
            condition_text(c) == "time_in_set_min_lt"@ + " "@ + decimal(minutes as nat)
        }),
{
    decimal_reads_back((gap / 100) as nat);
    decimal_reads_back(distance as nat);
    decimal_reads_back(minutes as nat);
    reveal_strlit("");
    assert(""@ + decimal((gap / 100) as nat) + ""@ =~= decimal((gap / 100) as nat));
}

/// A rule of the list is numbered from one.
pub proof fn rules_are_numbered_from_one(i: int, rule: RuleV, selected: bool)
    requires
        0 <= i < 99,
    ensures
        ({
            let text = rule_line(i, rule, selected)[0].text;
            &&& text.len() > 4
            &&& digits_value(
                text.subrange(
                    if i < 9 {
                        3
                    } else {
                        2
                    },
                    4,
                ),
            ) == i + 1
            &&& text[0] == '▸' <==> selected
        }),
{
    reveal_strlit("▸ ");
    reveal_strlit("  ");
    reveal_strlit(". when  ");
    decimal_reads_back((i + 1) as nat);
    let text = rule_line(i, rule, selected)[0].text;
    assert("▸ "@.len() == 2 && "  "@.len() == 2 && ". when  "@.len() == 8);
    assert(text.subrange(
        if i < 9 {
            3
        } else {
            2
        },
        4,
    ) =~= decimal((i + 1) as nat));
}

/// A choice that has all the weight has a hundred percent, one that has none has
/// none, and one with half of it fifty.
pub proof fn shares_are_of_the_total(total: nat, half: nat)
    requires
        0 < total <= i64::MAX,
        total == 2 * half,
    ensures
        digits_value(percent_text(total as i64, 100, total)) == 100,
        digits_value(percent_text(half as i64, 100, total)) == 50,
        digits_value(percent_text(0, 100, total)) == 0,
{
    decimal_reads_back(100);
    decimal_reads_back(50);
    decimal_reads_back(0);
    let t = total as int;
    let h = half as int;
    assert((t * 100) / t == 100 && (t * 100) % t == 0) by (nonlinear_arith)
        requires
            t > 0,
    ;
    assert((h * 100) / t == 50 && (h * 100) % t == 0) by (nonlinear_arith)
        requires
            t > 0,
            t == 2 * h,
    ;
    assert((0 * 100int) / t == 0 && (0 * 100int) % t == 0) by (nonlinear_arith)
        requires
            t > 0,
    ;
}

} // verus!
