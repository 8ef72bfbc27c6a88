//! The transition-rules editor: a list of rules to scroll, reorder and delete,
//! and a form that edits the condition and the action of one rule.
use crate::key::{KeyCode, KeyEvent};
use crate::rules::{
    any_condition, choices_view, clone_choices, rules_view, Action, ActionV, Condition, ConditionV,
    Rule, RuleConfig, RuleV,
};
use crate::text::{
    clone_strs, concat3, decimal, decimal_str, fixed2, fixed2_str, max_of, min_of, str_eq, strs,
};
use vstd::prelude::*;
use vstd::string::*;

verus! {

/// All transition names in a stable order. The editor cycles through this list.
pub const TRANSITIONS: [&'static str; 5] = [
    "BeatMatched",
    "EchoOut",
    "BassSwap",
    "FilterSweep",
    "LoopRoll",
];

/// The condition fields the editor exposes. The first one restricts nothing.
pub const CONDITION_FIELDS: [&'static str; 13] = [
    "(any — matches always)",
    "bpm_gap_pct_gt",
    "bpm_gap_pct_lt",
    "key_dist_eq",
    "key_dist_lte",
    "key_dist_gte",
    "last_transition_eq",
    "mix_count_mod",
    "energy_delta_gt",
    "energy_delta_lt",
    "phrase_is_drop",
    "time_in_set_min_gt",
    "time_in_set_min_lt",
];

pub const ACTION_KINDS: [&'static str; 3] = ["force", "cycle", "weighted"];

/// Weight 1, in hundredths.
pub const WEIGHT_ONE: i64 = 100;

#[derive(Debug, Clone, Copy, PartialEq, Eq, Structural)]
pub enum Focus {
    When,
    Then,
    List,
}

/// A rule being edited.
pub struct EditState {
    /// Index of the rule; `None` for a new one.
    pub idx: Option<usize>,
    pub rule: Rule,
    pub focus: Focus,
    /// The selected choice of a cycle or weighted action.
    pub action_selected: usize,
}

pub enum Mode {
    List,
    Edit(EditState),
}

pub struct RulesEditor {
    pub config: RuleConfig,
    /// The selected rule; one past the last rule is the "Default" row.
    pub selected: usize,
    pub mode: Mode,
    pub dirty: bool,
}

/// A rule being edited, by its contents.
#[verifier::ext_equal]
pub struct EditV {
    pub idx: Option<int>,
    pub rule: RuleV,
    pub focus: Focus,
    pub action_selected: int,
}

#[verifier::ext_equal]
pub enum ModeV {
    List,
    Edit(EditV),
}

/// The editor, by its contents.
#[verifier::ext_equal]
pub struct EditorV {
    pub rules: Seq<RuleV>,
    pub default: Seq<char>,
    pub selected: int,
    pub mode: ModeV,
    pub dirty: bool,
}

impl View for EditState {
    type V = EditV;

    open spec fn view(&self) -> EditV {
        EditV {
            idx: match self.idx {
                Some(i) => Some(i as int),
                None => None,
            },
            rule: self.rule@,
            focus: self.focus,
            action_selected: self.action_selected as int,
        }
    }
}

impl View for Mode {
    type V = ModeV;

    open spec fn view(&self) -> ModeV {
        match self {
            Mode::List => ModeV::List,
            Mode::Edit(s) => ModeV::Edit(s@),
        }
    }
}

impl View for RulesEditor {
    type V = EditorV;

    open spec fn view(&self) -> EditorV {
        EditorV {
            rules: rules_view(self.config.rules@),
            default: self.config.default@,
            selected: self.selected as int,
            mode: self.mode@,
            dirty: self.dirty,
        }
    }
}

impl EditorV {
    /// The selection is a rule or the default row, and an existing rule being
    /// edited exists.
    pub open spec fn wf(self) -> bool {
        &&& 0 <= self.selected <= self.rules.len()
        &&& match self.mode {
            ModeV::Edit(s) => s.idx matches Some(i) ==> 0 <= i < self.rules.len(),
            ModeV::List => true,
        }
    }
}

impl RulesEditor {
    pub fn new(config: RuleConfig) -> (e: RulesEditor)
        ensures
            e.config == config,
            e.selected == 0,
            e.mode is List,
            !e.dirty,
            e@.wf(),
    {
        RulesEditor { config, selected: 0, mode: Mode::List, dirty: false }
    }
}

pub fn blank_condition() -> (c: Condition)
    ensures
        c@ == any_condition(),
{
    Condition::default()
}

/// A new rule: always, the first transition.
pub open spec fn new_rule() -> RuleV {
    RuleV { when: any_condition(), action: ActionV::Force("BeatMatched"@) }
}

pub fn blank_rule() -> (r: Rule)
    ensures
        r@ == new_rule(),
{
    Rule { when: blank_condition(), action: Action::Force("BeatMatched".to_owned()) }
}

/// The position of the first field that is set, zero for none.
pub open spec fn field_index(c: ConditionV) -> int {
    if c.bpm_gap_pct_gt is Some {
        1
    } else if c.bpm_gap_pct_lt is Some {
        2
    } else if c.key_dist_eq is Some {
        3
    } else if c.key_dist_lte is Some {
        4
    } else if c.key_dist_gte is Some {
        5
    } else if c.last_transition_eq is Some {
        6
    } else if c.mix_count_mod is Some {
        7
    } else if c.energy_delta_gt is Some {
        8
    } else if c.energy_delta_lt is Some {
        9
    } else if c.phrase_is_drop is Some {
        10
    } else if c.time_in_set_min_gt is Some {
        11
    } else if c.time_in_set_min_lt is Some {
        12
    } else {
        0
    }
}

pub fn condition_field_idx(c: &Condition) -> (i: usize)
    ensures
        i == field_index(c@),
        i < 13,
{
    if c.bpm_gap_pct_gt.is_some() {
        return 1;
    }
    if c.bpm_gap_pct_lt.is_some() {
        return 2;
    }
    if c.key_dist_eq.is_some() {
        return 3;
    }
    if c.key_dist_lte.is_some() {
        return 4;
    }
    if c.key_dist_gte.is_some() {
        return 5;
    }
    if c.last_transition_eq.is_some() {
        return 6;
    }
    if c.mix_count_mod.is_some() {
        return 7;
    }
    if c.energy_delta_gt.is_some() {
        return 8;
    }
    if c.energy_delta_lt.is_some() {
        return 9;
    }
    if c.phrase_is_drop.is_some() {
        return 10;
    }
    if c.time_in_set_min_gt.is_some() {
        return 11;
    }
    if c.time_in_set_min_lt.is_some() {
        return 12;
    }
    0
}

pub open spec fn bool_text(b: bool) -> Seq<char> {
    if b {
        "true"@
    } else {
        "false"@
    }
}

pub open spec fn opt_fixed2(v: Option<i64>) -> Seq<char> {
    match v {
        Some(x) => fixed2(x as int),
        None => Seq::empty(),
    }
}

pub open spec fn opt_decimal(v: Option<u32>) -> Seq<char> {
    match v {
        Some(x) => decimal(x as nat),
        None => Seq::empty(),
    }
}

pub open spec fn opt_whole(v: Option<usize>) -> Seq<char> {
    match v {
        Some(x) => decimal(x as nat),
        None => Seq::empty(),
    }
}

/// The value of a field as text; nothing where the field is not set.
pub open spec fn value_text(c: ConditionV, field: int) -> Seq<char> {
    if field == 1 {
        opt_fixed2(c.bpm_gap_pct_gt)
    } else if field == 2 {
        opt_fixed2(c.bpm_gap_pct_lt)
    } else if field == 3 {
        opt_whole(c.key_dist_eq)
    } else if field == 4 {
        opt_whole(c.key_dist_lte)
    } else if field == 5 {
        opt_whole(c.key_dist_gte)
    } else if field == 6 {
        match c.last_transition_eq {
            Some(s) => s,
            None => Seq::empty(),
        }
    } else if field == 7 {
        match c.mix_count_mod {
            Some((m, r)) => decimal(m as nat) + ","@ + decimal(r as nat),
            None => Seq::empty(),
        }
    } else if field == 8 {
        opt_fixed2(c.energy_delta_gt)
    } else if field == 9 {
        opt_fixed2(c.energy_delta_lt)
    } else if field == 10 {
        match c.phrase_is_drop {
            Some(b) => bool_text(b),
            None => Seq::empty(),
        }
    } else if field == 11 {
        opt_decimal(c.time_in_set_min_gt)
    } else if field == 12 {
        opt_decimal(c.time_in_set_min_lt)
    } else {
        Seq::empty()
    }
}

fn fixed2_or_empty(v: Option<i64>) -> (s: String)
    ensures
        s@ == opt_fixed2(v),
{
    match v {
        Some(x) => fixed2_str(x),
        None => String::new(),
    }
}

fn decimal_or_empty(v: Option<u32>) -> (s: String)
    ensures
        s@ == opt_decimal(v),
{
    match v {
        Some(x) => decimal_str(x as u64),
        None => String::new(),
    }
}

fn whole_or_empty(v: Option<usize>) -> (s: String)
    ensures
        s@ == opt_whole(v),
{
    match v {
        Some(x) => decimal_str(x as u64),
        None => String::new(),
    }
}

pub fn condition_value_str(c: &Condition, field_idx: usize) -> (s: String)
    ensures
        s@ == value_text(c@, field_idx as int),
{
    match field_idx {
        1 => fixed2_or_empty(c.bpm_gap_pct_gt),
        2 => fixed2_or_empty(c.bpm_gap_pct_lt),
        3 => whole_or_empty(c.key_dist_eq),
        4 => whole_or_empty(c.key_dist_lte),
        5 => whole_or_empty(c.key_dist_gte),
        6 => match &c.last_transition_eq {
            Some(s) => s.clone(),
            None => String::new(),
        },
        7 => match c.mix_count_mod {
            Some((m, r)) => concat3(
                decimal_str(m as u64).as_str(),
                ",",
                decimal_str(r as u64).as_str(),
            ),
            None => String::new(),
        },
        8 => fixed2_or_empty(c.energy_delta_gt),
        9 => fixed2_or_empty(c.energy_delta_lt),
        10 => match c.phrase_is_drop {
            Some(true) => "true".to_owned(),
            Some(false) => "false".to_owned(),
            None => String::new(),
        },
        11 => decimal_or_empty(c.time_in_set_min_gt),
        12 => decimal_or_empty(c.time_in_set_min_lt),
        _ => String::new(),
    }
}

/// The tempo gap in force, or 8 percent.
pub open spec fn kept_gap(c: ConditionV) -> i64 {
    if field_index(c) == 1 {
        c.bpm_gap_pct_gt->0
    } else if field_index(c) == 2 {
        c.bpm_gap_pct_lt->0
    } else {
        800
    }
}

/// The key distance in force, or the given one.
pub open spec fn kept_distance(c: ConditionV, default: usize) -> usize {
    if field_index(c) == 3 {
        c.key_dist_eq->0
    } else if field_index(c) == 4 {
        c.key_dist_lte->0
    } else if field_index(c) == 5 {
        c.key_dist_gte->0
    } else {
        default
    }
}

/// The energy change in force, or the given one.
pub open spec fn kept_energy(c: ConditionV, default: i64) -> i64 {
    if field_index(c) == 8 {
        c.energy_delta_gt->0
    } else if field_index(c) == 9 {
        c.energy_delta_lt->0
    } else {
        default
    }
}

/// The time in force, or half an hour.
pub open spec fn kept_minutes(c: ConditionV) -> u32 {
    if field_index(c) == 11 {
        c.time_in_set_min_gt->0
    } else if field_index(c) == 12 {
        c.time_in_set_min_lt->0
    } else {
        30
    }
}

/// The condition with just one field: it takes over the value in force where
/// that is of the same type, and begins with a sensible one otherwise.
pub open spec fn with_field(c: ConditionV, field: int) -> ConditionV {
    let blank = any_condition();
    if field == 1 {
        ConditionV { bpm_gap_pct_gt: Some(kept_gap(c)), ..blank }
    } else if field == 2 {
        ConditionV { bpm_gap_pct_lt: Some(kept_gap(c)), ..blank }
    } else if field == 3 {
        ConditionV { key_dist_eq: Some(kept_distance(c, 0)), ..blank }
    } else if field == 4 {
        ConditionV { key_dist_lte: Some(kept_distance(c, 1)), ..blank }
    } else if field == 5 {
        ConditionV { key_dist_gte: Some(kept_distance(c, 2)), ..blank }
    } else if field == 6 {
        ConditionV {
            last_transition_eq: Some(
                if field_index(c) == 6 {
                    c.last_transition_eq->0
                } else {
                    "BassSwap"@
                },
            ),
            ..blank
        }
    } else if field == 7 {
        ConditionV {
            mix_count_mod: Some(
                if field_index(c) == 7 {
                    c.mix_count_mod->0
                } else {
                    (3, 0)
                },
            ),
            ..blank
        }
    } else if field == 8 {
        ConditionV { energy_delta_gt: Some(kept_energy(c, 10)), ..blank }
    } else if field == 9 {
        ConditionV { energy_delta_lt: Some(kept_energy(c, (-10) as i64)), ..blank }
    } else if field == 10 {
        ConditionV {
            phrase_is_drop: Some(
                if field_index(c) == 10 {
                    c.phrase_is_drop->0
                } else {
                    true
                },
            ),
            ..blank
        }
    } else if field == 11 {
        ConditionV { time_in_set_min_gt: Some(kept_minutes(c)), ..blank }
    } else if field == 12 {
        ConditionV { time_in_set_min_lt: Some(kept_minutes(c)), ..blank }
    } else {
        blank
    }
}

fn gap_of(c: &Condition, field: usize) -> (v: i64)
    requires
        field == field_index(c@),
    ensures
        v == kept_gap(c@),
{
    match (field, c.bpm_gap_pct_gt, c.bpm_gap_pct_lt) {
        (1, Some(v), _) => v,
        (2, _, Some(v)) => v,
        _ => 800,
    }
}

fn distance_of(c: &Condition, field: usize, default: usize) -> (v: usize)
    requires
        field == field_index(c@),
    ensures
        v == kept_distance(c@, default),
{
    match (field, c.key_dist_eq, c.key_dist_lte, c.key_dist_gte) {
        (3, Some(v), _, _) => v,
        (4, _, Some(v), _) => v,
        (5, _, _, Some(v)) => v,
        _ => default,
    }
}

fn energy_of(c: &Condition, field: usize, default: i64) -> (v: i64)
    requires
        field == field_index(c@),
    ensures
        v == kept_energy(c@, default),
{
    match (field, c.energy_delta_gt, c.energy_delta_lt) {
        (8, Some(v), _) => v,
        (9, _, Some(v)) => v,
        _ => default,
    }
}

fn minutes_of(c: &Condition, field: usize) -> (v: u32)
    requires
        field == field_index(c@),
    ensures
        v == kept_minutes(c@),
{
    match (field, c.time_in_set_min_gt, c.time_in_set_min_lt) {
        (11, Some(v), _) => v,
        (12, _, Some(v)) => v,
        _ => 30,
    }
}

/// Replaces the field in force by the one at `new_field_idx`, keeping the value
/// when the types align. Clears the other fields.
pub fn set_condition_field(c: &mut Condition, new_field_idx: usize)
    ensures
        final(c)@ == with_field(old(c)@, new_field_idx as int),
{
    let cur: usize = condition_field_idx(c);
    let mut n: Condition = blank_condition();
    match new_field_idx {
        1 => {
            n.bpm_gap_pct_gt = Some(gap_of(c, cur));
        },
        2 => {
            n.bpm_gap_pct_lt = Some(gap_of(c, cur));
        },
        3 => {
            n.key_dist_eq = Some(distance_of(c, cur, 0));
        },
        4 => {
            n.key_dist_lte = Some(distance_of(c, cur, 1));
        },
        5 => {
            n.key_dist_gte = Some(distance_of(c, cur, 2));
        },
        6 => {
            let name: String = match (cur, &c.last_transition_eq) {
                (6, Some(s)) => s.clone(),
                _ => "BassSwap".to_owned(),
            };
            n.last_transition_eq = Some(name);
        },
        7 => {
            let pair: (u32, u32) = match (cur, c.mix_count_mod) {
                (7, Some(p)) => p,
                _ => (3, 0),
            };
            n.mix_count_mod = Some(pair);
        },
        8 => {
            n.energy_delta_gt = Some(energy_of(c, cur, 10));
        },
        9 => {
            n.energy_delta_lt = Some(energy_of(c, cur, -10));
        },
        10 => {
            let b: bool = match (cur, c.phrase_is_drop) {
                (10, Some(b)) => b,
                _ => true,
            };
            n.phrase_is_drop = Some(b);
        },
        11 => {
            n.time_in_set_min_gt = Some(minutes_of(c, cur));
        },
        12 => {
            n.time_in_set_min_lt = Some(minutes_of(c, cur));
        },
        _ => {},
    }
    *c = n;
}

/// Where a transition stands in the list; an unknown one counts as the first.
pub open spec fn transition_index(name: Seq<char>) -> int {
    if name == TRANSITIONS@[0]@ {
        0
    } else if name == TRANSITIONS@[1]@ {
        1
    } else if name == TRANSITIONS@[2]@ {
        2
    } else if name == TRANSITIONS@[3]@ {
        3
    } else if name == TRANSITIONS@[4]@ {
        4
    } else {
        0
    }
}

/// The transition `step` places further in the list, round and round.
pub open spec fn stepped_transition(name: Seq<char>, step: int) -> Seq<char> {
    TRANSITIONS@[(transition_index(name) + step) % 5]@
}

fn transition_pos(name: &str) -> (i: usize)
    ensures
        i == transition_index(name@),
        i < 5,
{
    let mut i: usize = 0;
    while i < 5
        invariant
            i <= 5,
            forall|j: int| 0 <= j < i ==> #[trigger] TRANSITIONS@[j]@ != name@,
        decreases 5 - i,
    {
        if str_eq(TRANSITIONS[i], name) {
            assert(transition_index(name@) == i) by {
                if i > 0 {
                    assert(TRANSITIONS@[0]@ != name@);
                }
                if i > 1 {
                    assert(TRANSITIONS@[1]@ != name@);
                }
                if i > 2 {
                    assert(TRANSITIONS@[2]@ != name@);
                }
                if i > 3 {
                    assert(TRANSITIONS@[3]@ != name@);
                }
            }
            return i;
        }
        i += 1;
    }
    assert(TRANSITIONS@[0]@ != name@);
    assert(TRANSITIONS@[1]@ != name@);
    assert(TRANSITIONS@[2]@ != name@);
    assert(TRANSITIONS@[3]@ != name@);
    assert(TRANSITIONS@[4]@ != name@);
    0
}

/// A multiple of ten above every step.
const LIFT: i64 = 2_147_483_650;

fn step_transition(name: &str, step: i32) -> (s: String)
    ensures
        s@ == stepped_transition(name@, step as int),
{
    let i: usize = transition_pos(name);
    let n: i64 = (i as i64 + step as i64 + LIFT) % 5;
    assert(n == (i + step) % 5);
    TRANSITIONS[n as usize].to_owned()
}

/// A number of hundredths moved by whole steps, never below zero.
pub open spec fn moved_gap(v: i64, step: int) -> i64 {
    min_of(max_of(v + 100 * step, 0), i64::MAX as int) as i64
}

pub open spec fn moved_distance(v: usize, step: int) -> usize {
    min_of(max_of(v + step, 0), 6) as usize
}

pub open spec fn moved_energy(v: i64, step: int) -> i64 {
    min_of(max_of(v + 5 * step, -100), 100) as i64
}

pub open spec fn moved_minutes(v: u32, step: int) -> u32 {
    min_of(max_of(v + 5 * step, 0), u32::MAX as int) as u32
}

pub open spec fn opt_map_gap(v: Option<i64>, step: int) -> Option<i64> {
    match v {
        Some(x) => Some(moved_gap(x, step)),
        None => None,
    }
}

pub open spec fn opt_map_distance(v: Option<usize>, step: int) -> Option<usize> {
    match v {
        Some(x) => Some(moved_distance(x, step)),
        None => None,
    }
}

pub open spec fn opt_map_energy(v: Option<i64>, step: int) -> Option<i64> {
    match v {
        Some(x) => Some(moved_energy(x, step)),
        None => None,
    }
}

pub open spec fn opt_map_minutes(v: Option<u32>, step: int) -> Option<u32> {
    match v {
        Some(x) => Some(moved_minutes(x, step)),
        None => None,
    }
}

/// The condition with the value of one field moved by `step`: percentages by
/// 1, distances by 1 within 0 to 6, energies by 0.05 within ±1, times by five
/// minutes; a transition goes round its list, a remainder round 0 to 9, and a
/// yes/no flips.
pub open spec fn adjusted(c: ConditionV, field: int, step: int) -> ConditionV {
    if field == 1 {
        ConditionV { bpm_gap_pct_gt: opt_map_gap(c.bpm_gap_pct_gt, step), ..c }
    } else if field == 2 {
        ConditionV { bpm_gap_pct_lt: opt_map_gap(c.bpm_gap_pct_lt, step), ..c }
    } else if field == 3 {
        ConditionV { key_dist_eq: opt_map_distance(c.key_dist_eq, step), ..c }
    } else if field == 4 {
        ConditionV { key_dist_lte: opt_map_distance(c.key_dist_lte, step), ..c }
    } else if field == 5 {
        ConditionV { key_dist_gte: opt_map_distance(c.key_dist_gte, step), ..c }
    } else if field == 6 {
        ConditionV {
            last_transition_eq: match c.last_transition_eq {
                Some(s) => Some(stepped_transition(s, step)),
                None => None,
            },
            ..c
        }
    } else if field == 7 {
        ConditionV {
            mix_count_mod: match c.mix_count_mod {
                Some((m, r)) => Some((m, ((r + step) % 10) as u32)),
                None => None,
            },
            ..c
        }
    } else if field == 8 {
        ConditionV { energy_delta_gt: opt_map_energy(c.energy_delta_gt, step), ..c }
    } else if field == 9 {
        ConditionV { energy_delta_lt: opt_map_energy(c.energy_delta_lt, step), ..c }
    } else if field == 10 {
        ConditionV {
            phrase_is_drop: match c.phrase_is_drop {
                Some(b) => Some(!b),
                None => None,
            },
            ..c
        }
    } else if field == 11 {
        ConditionV { time_in_set_min_gt: opt_map_minutes(c.time_in_set_min_gt, step), ..c }
    } else if field == 12 {
        ConditionV { time_in_set_min_lt: opt_map_minutes(c.time_in_set_min_lt, step), ..c }
    } else {
        c
    }
}

fn move_gap(v: i64, step: i32) -> (r: i64)
    ensures
        r == moved_gap(v, step as int),
{
    let n: i128 = v as i128 + 100 * step as i128;
    if n < 0 {
        0
    } else if n > i64::MAX as i128 {
        i64::MAX
    } else {
        n as i64
    }
}

fn gap_moved(v: Option<i64>, step: i32) -> (r: Option<i64>)
    ensures
        r == opt_map_gap(v, step as int),
{
    match v {
        Some(x) => Some(move_gap(x, step)),
        None => None,
    }
}

fn distance_moved(v: Option<usize>, step: i32) -> (r: Option<usize>)
    ensures
        r == opt_map_distance(v, step as int),
{
    match v {
        Some(x) => {
            let n: i128 = x as i128 + step as i128;
            if n < 0 {
                Some(0)
            } else if n > 6 {
                Some(6)
            } else {
                Some(n as usize)
            }
        },
        None => None,
    }
}

fn energy_moved(v: Option<i64>, step: i32) -> (r: Option<i64>)
    ensures
        r == opt_map_energy(v, step as int),
{
    match v {
        Some(x) => {
            let n: i128 = x as i128 + 5 * step as i128;
            if n < -100 {
                Some(-100)
            } else if n > 100 {
                Some(100)
            } else {
                Some(n as i64)
            }
        },
        None => None,
    }
}

fn minutes_moved(v: Option<u32>, step: i32) -> (r: Option<u32>)
    ensures
        r == opt_map_minutes(v, step as int),
{
    match v {
        Some(x) => {
            let n: i64 = x as i64 + 5 * step as i64;
            if n < 0 {
                Some(0)
            } else if n > u32::MAX as i64 {
                Some(u32::MAX)
            } else {
                Some(n as u32)
            }
        },
        None => None,
    }
}

/// Adjusts the value of a field by `step`.
pub fn adjust_condition_value(c: &mut Condition, field_idx: usize, step: i32)
    ensures
        final(c)@ == adjusted(old(c)@, field_idx as int, step as int),
{
    match field_idx {
        1 => {
            c.bpm_gap_pct_gt = gap_moved(c.bpm_gap_pct_gt, step);
        },
        2 => {
            c.bpm_gap_pct_lt = gap_moved(c.bpm_gap_pct_lt, step);
        },
        3 => {
            c.key_dist_eq = distance_moved(c.key_dist_eq, step);
        },
        4 => {
            c.key_dist_lte = distance_moved(c.key_dist_lte, step);
        },
        5 => {
            c.key_dist_gte = distance_moved(c.key_dist_gte, step);
        },
        6 => {
            let next: Option<String> = match &c.last_transition_eq {
                Some(s) => Some(step_transition(s.as_str(), step)),
                None => None,
            };
            c.last_transition_eq = next;
        },
        7 => {
            c.mix_count_mod = match c.mix_count_mod {
                Some((m, r)) => {
                    let n: i64 = (r as i64 + step as i64 + LIFT) % 10;
                    assert(n == (r + step) % 10);
                    Some((m, n as u32))
                },
                None => None,
            };
        },
        8 => {
            c.energy_delta_gt = energy_moved(c.energy_delta_gt, step);
        },
        9 => {
            c.energy_delta_lt = energy_moved(c.energy_delta_lt, step);
        },
        10 => {
            c.phrase_is_drop = match c.phrase_is_drop {
                Some(b) => Some(!b),
                None => None,
            };
        },
        11 => {
            c.time_in_set_min_gt = minutes_moved(c.time_in_set_min_gt, step);
        },
        12 => {
            c.time_in_set_min_lt = minutes_moved(c.time_in_set_min_lt, step);
        },
        _ => {},
    }
}

/// The kind of an action as the editor shows it; a skip counts as `force`.
pub open spec fn kind_index(a: ActionV) -> int {
    match a {
        ActionV::Force(_) => 0,
        ActionV::Cycle(_) => 1,
        ActionV::Weighted(_) => 2,
        ActionV::Skip(_) => 0,
    }
}

pub fn action_kind_idx(a: &Action) -> (i: usize)
    ensures
        i == kind_index(a@),
        i < 3,
{
    match a {
        Action::Force(_) => 0,
        Action::Cycle { .. } => 1,
        Action::Weighted { .. } => 2,
        Action::Skip { .. } => 0,
    }
}

/// The transitions of an action with their weights.
pub open spec fn choices_of(a: ActionV) -> Seq<(Seq<char>, i64)> {
    match a {
        ActionV::Force(s) => seq![(s, WEIGHT_ONE)],
        ActionV::Cycle(names) => Seq::new(names.len(), |i: int| (names[i], WEIGHT_ONE)),
        ActionV::Weighted(w) => w,
        ActionV::Skip(_) => seq![("BeatMatched"@, WEIGHT_ONE)],
    }
}

pub fn action_choices(a: &Action) -> (v: Vec<(String, i64)>)
    ensures
        choices_view(v@) == choices_of(a@),
{
    match a {
        Action::Force(s) => {
            let mut v: Vec<(String, i64)> = Vec::new();
            v.push((s.clone(), WEIGHT_ONE));
            assert(choices_view(v@) == choices_of(a@));
            v
        },
        Action::Cycle { cycle } => {
            let mut v: Vec<(String, i64)> = Vec::new();
            let mut i: usize = 0;
            while i < cycle.len()
                invariant
                    i <= cycle.len(),
                    a@ == ActionV::Cycle(strs(cycle@)),
                    choices_view(v@) == choices_of(a@).take(i as int),
                decreases cycle.len() - i,
            {
                let ghost before = choices_view(v@);
                v.push((cycle[i].clone(), WEIGHT_ONE));
                i += 1;
                assert(choices_view(v@) == before.push((cycle@[i - 1]@, WEIGHT_ONE)));
                assert(choices_of(a@).take(i as int) == choices_of(a@).take(i - 1).push(
                    (cycle@[i - 1]@, WEIGHT_ONE),
                ));
            }
            assert(choices_of(a@).take(i as int) == choices_of(a@));
            v
        },
        Action::Weighted { weighted } => clone_choices(weighted),
        Action::Skip { .. } => {
            let mut v: Vec<(String, i64)> = Vec::new();
            v.push(("BeatMatched".to_owned(), WEIGHT_ONE));
            assert(choices_view(v@) == choices_of(a@));
            v
        },
    }
}

/// The action of a kind with the given choices; without any, the first
/// transition is the only one.
pub open spec fn built_action(kind: int, choices: Seq<(Seq<char>, i64)>) -> ActionV {
    let some = if choices.len() == 0 {
        seq![("BeatMatched"@, WEIGHT_ONE)]
    } else {
        choices
    };
    if kind == 0 {
        ActionV::Force(some[0].0)
    } else if kind == 1 {
        ActionV::Cycle(Seq::new(some.len(), |i: int| some[i].0))
    } else {
        ActionV::Weighted(some)
    }
}

pub fn build_action(kind_idx: usize, choices: &Vec<(String, i64)>) -> (a: Action)
    ensures
        a@ == built_action(kind_idx as int, choices_view(choices@)),
{
    let mut all: Vec<(String, i64)> = clone_choices(choices);
    if all.len() == 0 {
        all.push(("BeatMatched".to_owned(), WEIGHT_ONE));
    }
    let ghost some = if choices@.len() == 0 {
        seq![("BeatMatched"@, WEIGHT_ONE)]
    } else {
        choices_view(choices@)
    };
    assert(choices_view(choices@).len() == choices@.len());
    assert(choices_view(all@) == some);
    assert(choices_view(all@).len() == all@.len());
    assert(some[0] == (all@[0].0@, all@[0].1));
    match kind_idx {
        0 => Action::Force(all[0].0.clone()),
        1 => {
            let mut cycle: Vec<String> = Vec::new();
            let ghost names = Seq::new(some.len(), |i: int| some[i].0);
            let mut i: usize = 0;
            while i < all.len()
                invariant
                    i <= all.len(),
                    choices_view(all@) == some,
                    names == Seq::new(some.len(), |i: int| some[i].0),
                    strs(cycle@) == names.take(i as int),
                decreases all.len() - i,
            {
                let ghost before = strs(cycle@);
                assert(choices_view(all@).len() == all@.len());
                assert(some[i as int] == (all@[i as int].0@, all@[i as int].1));
                cycle.push(all[i].0.clone());
                i += 1;
                assert(strs(cycle@) == before.push(all@[i - 1].0@));
                assert(names.take(i as int) == names.take(i - 1).push(names[i - 1]));
            }
            assert(names.take(i as int) == names);
            Action::Cycle { cycle }
        },
        _ => Action::Weighted { weighted: all },
    }
}

#[derive(Debug, Clone, Copy, PartialEq, Eq, Structural)]
pub enum KeyResult {
    Continue,
    /// Save and close.
    CloseSaved,
    /// The edit was cancelled.
    ContinueCancelled,
}

/// Two neighbours of a list, the later one first.
pub open spec fn swapped(rules: Seq<RuleV>, i: int) -> Seq<RuleV> {
    rules.update(i, rules[i + 1]).update(i + 1, rules[i])
}

/// What a key does in the list of rules.
pub open spec fn list_step(
    e: EditorV,
    code: KeyCode,
    smart_rules: Seq<RuleV>,
    smart_default: Seq<char>,
) -> (EditorV, KeyResult) {
    let n = e.rules.len() as int;
    match code {
        KeyCode::Up => (
            if e.selected > 0 {
                EditorV { selected: e.selected - 1, ..e }
            } else {
                e
            },
            KeyResult::Continue,
        ),
        KeyCode::Down => (
            if e.selected < n {
                EditorV { selected: e.selected + 1, ..e }
            } else {
                e
            },
            KeyResult::Continue,
        ),
        KeyCode::Enter => (
            if e.selected < n {
                EditorV {
                    mode: ModeV::Edit(
                        EditV {
                            idx: Some(e.selected),
                            rule: e.rules[e.selected],
                            focus: Focus::When,
                            action_selected: 0,
                        },
                    ),
                    ..e
                }
            } else {
                EditorV { default: stepped_transition(e.default, 1), dirty: true, ..e }
            },
            KeyResult::Continue,
        ),
        KeyCode::Char('i') => (
            EditorV {
                mode: ModeV::Edit(
                    EditV { idx: None, rule: new_rule(), focus: Focus::When, action_selected: 0 },
                ),
                ..e
            },
            KeyResult::Continue,
        ),
        KeyCode::Char('D') => (
            if e.selected < n {
                EditorV {
                    rules: e.rules.remove(e.selected),
                    selected: if e.selected > 0 && e.selected >= n - 1 {
                        e.selected - 1
                    } else {
                        e.selected
                    },
                    dirty: true,
                    ..e
                }
            } else {
                e
            },
            KeyResult::Continue,
        ),
        KeyCode::Char('{') => (
            if 0 < e.selected < n {
                EditorV {
                    rules: swapped(e.rules, e.selected - 1),
                    selected: e.selected - 1,
                    dirty: true,
                    ..e
                }
            } else {
                e
            },
            KeyResult::Continue,
        ),
        KeyCode::Char('}') => (
            if e.selected + 1 < n {
                EditorV {
                    rules: swapped(e.rules, e.selected),
                    selected: e.selected + 1,
                    dirty: true,
                    ..e
                }
            } else {
                e
            },
            KeyResult::Continue,
        ),
        KeyCode::Char('Z') => (
            EditorV {
                rules: smart_rules,
                default: smart_default,
                selected: 0,
                dirty: true,
                ..e
            },
            KeyResult::Continue,
        ),
        KeyCode::Esc => (e, KeyResult::CloseSaved),
        _ => (e, KeyResult::Continue),
    }
}

/// The selected choice, or the last one where there are fewer.
pub open spec fn choice_at(selected: int, n: int) -> int {
    min_of(selected, n - 1)
}

/// An action with its selected choice moved by `step`: a weight by one, never
/// below zero; a transition round the list.
pub open spec fn stepped_choice(a: ActionV, selected: int, step: int) -> ActionV {
    match a {
        ActionV::Weighted(w) => if w.len() > 0 {
            let i = choice_at(selected, w.len() as int);
            ActionV::Weighted(w.update(i, (w[i].0, moved_gap(w[i].1, step))))
        } else {
            a
        },
        ActionV::Cycle(names) => if names.len() > 0 {
            let i = choice_at(selected, names.len() as int);
            ActionV::Cycle(names.update(i, stepped_transition(names[i], step)))
        } else {
            a
        },
        ActionV::Force(s) => ActionV::Force(stepped_transition(s, step)),
        ActionV::Skip(_) => a,
    }
}

/// What Left (`step` -1) and Right (`step` 1) do to a rule being edited.
pub open spec fn sideways(s: EditV, step: int) -> EditV {
    match s.focus {
        Focus::When => EditV {
            rule: RuleV {
                when: with_field(s.rule.when, (field_index(s.rule.when) + step) % 13),
                ..s.rule
            },
            ..s
        },
        Focus::Then => EditV {
            rule: RuleV {
                action: built_action(
                    (kind_index(s.rule.action) + step) % 3,
                    choices_of(s.rule.action),
                ),
                ..s.rule
            },
            ..s
        },
        Focus::List => EditV {
            rule: RuleV {
                action: stepped_choice(s.rule.action, s.action_selected, step),
                ..s.rule
            },
            ..s
        },
    }
}

/// What Up (`step` 1) and Down (`step` -1) do to a rule being edited.
pub open spec fn upward(s: EditV, step: int) -> EditV {
    match s.focus {
        Focus::When => EditV {
            rule: RuleV {
                when: adjusted(s.rule.when, field_index(s.rule.when), step),
                ..s.rule
            },
            ..s
        },
        Focus::List => {
            let n = choices_of(s.rule.action).len();
            if n > 0 {
                EditV { action_selected: (s.action_selected - step) % (n as int), ..s }
            } else {
                s
            }
        },
        Focus::Then => s,
    }
}

pub open spec fn added_choice(a: ActionV) -> ActionV {
    match a {
        ActionV::Weighted(w) => ActionV::Weighted(w.push(("BeatMatched"@, WEIGHT_ONE))),
        ActionV::Cycle(names) => ActionV::Cycle(names.push("BeatMatched"@)),
        _ => a,
    }
}

/// A rule being edited without its selected choice; the last choice stays.
pub open spec fn removed_choice(s: EditV) -> EditV {
    match s.rule.action {
        ActionV::Weighted(w) => if w.len() > 1 {
            EditV {
                rule: RuleV {
                    action: ActionV::Weighted(
                        w.remove(choice_at(s.action_selected, w.len() as int)),
                    ),
                    ..s.rule
                },
                action_selected: choice_at(s.action_selected, w.len() - 1),
                ..s
            }
        } else {
            s
        },
        ActionV::Cycle(names) => if names.len() > 1 {
            EditV {
                rule: RuleV {
                    action: ActionV::Cycle(
                        names.remove(choice_at(s.action_selected, names.len() as int)),
                    ),
                    ..s.rule
                },
                action_selected: choice_at(s.action_selected, names.len() - 1),
                ..s
            }
        } else {
            s
        },
        _ => s,
    }
}

/// What a key does to a rule being edited, short of leaving it.
pub open spec fn edited(s: EditV, code: KeyCode) -> EditV {
    match code {
        KeyCode::Tab => EditV {
            focus: match s.focus {
                Focus::When => Focus::Then,
                Focus::Then => Focus::List,
                Focus::List => Focus::When,
            },
            ..s
        },
        KeyCode::Right => sideways(s, 1),
        KeyCode::Left => sideways(s, -1),
        KeyCode::Up => upward(s, 1),
        KeyCode::Down => upward(s, -1),
        KeyCode::Char('+') => EditV {
            rule: RuleV { action: added_choice(s.rule.action), ..s.rule },
            ..s
        },
        KeyCode::Char('D') => removed_choice(s),
        _ => s,
    }
}

/// What a key does while a rule is edited.
pub open spec fn edit_step(e: EditorV, s: EditV, code: KeyCode) -> (EditorV, KeyResult) {
    match code {
        KeyCode::Esc => (EditorV { mode: ModeV::List, ..e }, KeyResult::ContinueCancelled),
        KeyCode::Enter => (
            match s.idx {
                Some(i) => EditorV {
                    rules: e.rules.update(i, s.rule),
                    dirty: true,
                    mode: ModeV::List,
                    ..e
                },
                None => EditorV {
                    rules: e.rules.push(s.rule),
                    selected: e.rules.len() as int,
                    dirty: true,
                    mode: ModeV::List,
                    ..e
                },
            },
            KeyResult::Continue,
        ),
        _ => (EditorV { mode: ModeV::Edit(edited(s, code)), ..e }, KeyResult::Continue),
    }
}

/// What a key does in the editor.
pub open spec fn editor_step(
    e: EditorV,
    code: KeyCode,
    smart_rules: Seq<RuleV>,
    smart_default: Seq<char>,
) -> (EditorV, KeyResult) {
    match e.mode {
        ModeV::List => list_step(e, code, smart_rules, smart_default),
        ModeV::Edit(s) => edit_step(e, s, code),
    }
}

/// Exchanges a rule with the one behind it.
fn swap_rules(rules: &mut Vec<Rule>, i: usize)
    requires
        i + 1 < old(rules).len(),
    ensures
        rules_view(final(rules)@) == swapped(rules_view(old(rules)@), i as int),
{
    let ghost before = rules_view(rules@);
    let r: Rule = rules.remove(i + 1);
    rules.insert(i, r);
    assert(rules_view(rules@) == swapped(before, i as int));
}

fn list_key(editor: &mut RulesEditor, code: KeyCode, smart_defaults: RuleConfig) -> (r: KeyResult)
    requires
        old(editor)@.wf(),
        old(editor)@.mode is List,
    ensures
        (final(editor)@, r) == list_step(
            old(editor)@,
            code,
            rules_view(smart_defaults.rules@),
            smart_defaults.default@,
        ),
{
    match code {
        KeyCode::Up => {
            if editor.selected > 0 {
                editor.selected -= 1;
            }
            KeyResult::Continue
        },
        KeyCode::Down => {
            if editor.selected < editor.config.rules.len() {
                editor.selected += 1;
            }
            KeyResult::Continue
        },
        KeyCode::Enter => {
            if editor.selected < editor.config.rules.len() {
                let rule: Rule = editor.config.rules[editor.selected].clone();
                editor.mode = Mode::Edit(
                    EditState {
                        idx: Some(editor.selected),
                        rule,
                        focus: Focus::When,
                        action_selected: 0,
                    },
                );
            } else {
                editor.config.default = step_transition(editor.config.default.as_str(), 1);
                editor.dirty = true;
            }
            KeyResult::Continue
        },
        KeyCode::Char('i') => {
            editor.mode = Mode::Edit(
                EditState {
                    idx: None,
                    rule: blank_rule(),
                    focus: Focus::When,
                    action_selected: 0,
                },
            );
            KeyResult::Continue
        },
        KeyCode::Char('D') => {
            if editor.selected < editor.config.rules.len() {
                let ghost before = rules_view(editor.config.rules@);
                let at: usize = editor.selected;
                let _ = editor.config.rules.remove(at);
                assert(rules_view(editor.config.rules@) == before.remove(at as int));
                if editor.selected > 0 && editor.selected >= editor.config.rules.len() {
                    editor.selected -= 1;
                }
                editor.dirty = true;
            }
            KeyResult::Continue
        },
        KeyCode::Char('{') => {
            if editor.selected > 0 && editor.selected < editor.config.rules.len() {
                let at: usize = editor.selected - 1;
                swap_rules(&mut editor.config.rules, at);
                editor.selected -= 1;
                editor.dirty = true;
            }
            KeyResult::Continue
        },
        KeyCode::Char('}') => {
            if editor.config.rules.len() > 0 && editor.selected < editor.config.rules.len() - 1 {
                let at: usize = editor.selected;
                swap_rules(&mut editor.config.rules, at);
                editor.selected += 1;
                editor.dirty = true;
            }
            KeyResult::Continue
        },
        KeyCode::Char('Z') => {
            editor.config = smart_defaults;
            editor.selected = 0;
            editor.dirty = true;
            KeyResult::Continue
        },
        KeyCode::Esc => KeyResult::CloseSaved,
        _ => KeyResult::Continue,
    }
}

fn choice_index(selected: usize, n: usize) -> (i: usize)
    requires
        n > 0,
    ensures
        i == choice_at(selected as int, n as int),
        i < n,
{
    if selected < n - 1 {
        selected
    } else {
        n - 1
    }
}

fn step_choice(a: &Action, selected: usize, step: i32) -> (r: Action)
    ensures
        r@ == stepped_choice(a@, selected as int, step as int),
{
    match a {
        Action::Weighted { weighted } => {
            let mut w: Vec<(String, i64)> = clone_choices(weighted);
            let ghost before = choices_view(weighted@);
            assert(choices_view(w@).len() == w@.len());
            if w.len() > 0 {
                let i: usize = choice_index(selected, w.len());
                assert(before[i as int] == (w@[i as int].0@, w@[i as int].1)) by {
                    assert(choices_view(w@)[i as int] == (w@[i as int].0@, w@[i as int].1));
                }
                let name: String = w[i].0.clone();
                let weight: i64 = move_gap(w[i].1, step);
                w.set(i, (name, weight));
                assert(choices_view(w@) == before.update(
                    i as int,
                    (before[i as int].0, moved_gap(before[i as int].1, step as int)),
                ));
            }
            Action::Weighted { weighted: w }
        },
        Action::Cycle { cycle } => {
            let mut names: Vec<String> = clone_strs(cycle);
            let ghost before = strs(cycle@);
            assert(strs(names@).len() == names@.len());
            if names.len() > 0 {
                let i: usize = choice_index(selected, names.len());
                assert(before[i as int] == names@[i as int]@) by {
                    assert(strs(names@)[i as int] == names@[i as int]@);
                }
                let next: String = step_transition(names[i].as_str(), step);
                names.set(i, next);
                assert(strs(names@) == before.update(
                    i as int,
                    stepped_transition(before[i as int], step as int),
                ));
            }
            Action::Cycle { cycle: names }
        },
        Action::Force(s) => Action::Force(step_transition(s.as_str(), step)),
        Action::Skip { skip } => Action::Skip { skip: *skip },
    }
}

fn step_sideways(state: &mut EditState, step: i32)
    requires
        step == 1 || step == -1,
    ensures
        final(state)@ == sideways(old(state)@, step as int),
{
    match state.focus {
        Focus::When => {
            let cur: usize = condition_field_idx(&state.rule.when);
            let next: i64 = (cur as i64 + step as i64 + 13) % 13;
            set_condition_field(&mut state.rule.when, next as usize);
        },
        Focus::Then => {
            let cur: usize = action_kind_idx(&state.rule.action);
            let next: i64 = (cur as i64 + step as i64 + 3) % 3;
            let choices: Vec<(String, i64)> = action_choices(&state.rule.action);
            state.rule.action = build_action(next as usize, &choices);
        },
        Focus::List => {
            state.rule.action = step_choice(&state.rule.action, state.action_selected, step);
        },
    }
}

fn step_upward(state: &mut EditState, step: i32)
    requires
        step == 1 || step == -1,
    ensures
        final(state)@ == upward(old(state)@, step as int),
{
    match state.focus {
        Focus::When => {
            let field: usize = condition_field_idx(&state.rule.when);
            adjust_condition_value(&mut state.rule.when, field, step);
        },
        Focus::List => {
            let choices: Vec<(String, i64)> = action_choices(&state.rule.action);
            let n: usize = choices.len();
            assert(choices_of(state.rule.action@).len() == n);
            if n > 0 {
                let sel: i128 = state.action_selected as i128;
                let next: i128 = (sel - step as i128 + n as i128) % n as i128;
                proof {
                    let a = state.action_selected - step;
                    vstd::arithmetic::div_mod::lemma_mod_add_multiples_vanish(a, n as int);
                    assert((a + n) % (n as int) == a % (n as int));
                }
                state.action_selected = next as usize;
            }
        },
        Focus::Then => {},
    }
}

fn add_choice(state: &mut EditState)
    ensures
        final(state)@ == (EditV {
            rule: RuleV {
                action: added_choice(old(state)@.rule.action),
                ..old(state)@.rule
            },
            ..old(state)@
        }),
{
    match &mut state.rule.action {
        Action::Weighted { weighted } => {
            let ghost before = choices_view(weighted@);
            weighted.push(("BeatMatched".to_owned(), WEIGHT_ONE));
            assert(choices_view(weighted@) == before.push(("BeatMatched"@, WEIGHT_ONE)));
        },
        Action::Cycle { cycle } => {
            let ghost before = strs(cycle@);
            cycle.push("BeatMatched".to_owned());
            assert(strs(cycle@) == before.push("BeatMatched"@));
        },
        _ => {},
    }
}

fn remove_choice(state: &mut EditState)
    ensures
        final(state)@ == removed_choice(old(state)@),
{
    let selected: usize = state.action_selected;
    match &mut state.rule.action {
        Action::Weighted { weighted } => {
            let ghost before = choices_view(weighted@);
            if weighted.len() > 1 {
                let i: usize = choice_index(selected, weighted.len());
                let _ = weighted.remove(i);
                assert(choices_view(weighted@) == before.remove(i as int));
                let left: usize = weighted.len();
                state.action_selected = choice_index(selected, left);
            }
        },
        Action::Cycle { cycle } => {
            let ghost before = strs(cycle@);
            if cycle.len() > 1 {
                let i: usize = choice_index(selected, cycle.len());
                let _ = cycle.remove(i);
                assert(strs(cycle@) == before.remove(i as int));
                let left: usize = cycle.len();
                state.action_selected = choice_index(selected, left);
            }
        },
        _ => {},
    }
}

fn edit_key(editor: &mut RulesEditor, state: EditState, code: KeyCode) -> (r: KeyResult)
    requires
        state@.idx matches Some(i) ==> 0 <= i < old(editor)@.rules.len(),
    ensures
        (final(editor)@, r) == edit_step(old(editor)@, state@, code),
{
    let mut state: EditState = state;
    match code {
        KeyCode::Esc => {
            editor.mode = Mode::List;
            return KeyResult::ContinueCancelled;
        },
        KeyCode::Enter => {
            let ghost before = rules_view(editor.config.rules@);
            let rule: Rule = state.rule;
            match state.idx {
                Some(i) => {
                    editor.config.rules.set(i, rule);
                    assert(rules_view(editor.config.rules@) == before.update(i as int, rule@));
                },
                None => {
                    editor.config.rules.push(rule);
                    assert(rules_view(editor.config.rules@) == before.push(rule@));
                    editor.selected = editor.config.rules.len() - 1;
                },
            }
            editor.dirty = true;
            editor.mode = Mode::List;
            return KeyResult::Continue;
        },
        KeyCode::Tab => {
            state.focus = match state.focus {
                Focus::When => Focus::Then,
                Focus::Then => Focus::List,
                Focus::List => Focus::When,
            };
        },
        KeyCode::Right => {
            step_sideways(&mut state, 1);
        },
        KeyCode::Left => {
            step_sideways(&mut state, -1);
        },
        KeyCode::Up => {
            step_upward(&mut state, 1);
        },
        KeyCode::Down => {
            step_upward(&mut state, -1);
        },
        KeyCode::Char('+') => {
            add_choice(&mut state);
        },
        KeyCode::Char('D') => {
            remove_choice(&mut state);
        },
        _ => {},
    }
    editor.mode = Mode::Edit(state);
    KeyResult::Continue
}

/// Handles a key. `smart_defaults` is what `Z` resets the rules to.
pub fn handle_key(editor: &mut RulesEditor, key: KeyEvent, smart_defaults: RuleConfig) -> (r:
    KeyResult)
    requires
        old(editor)@.wf(),
    ensures
        (final(editor)@, r) == editor_step(
            old(editor)@,
            key.code,
            rules_view(smart_defaults.rules@),
            smart_defaults.default@,
        ),
        final(editor)@.wf(),
{
    let mut mode: Mode = Mode::List;
    std::mem::swap(&mut mode, &mut editor.mode);
    match mode {
        Mode::List => list_key(editor, key.code, smart_defaults),
        Mode::Edit(state) => edit_key(editor, state, key.code),
    }
}

/// Every key keeps the editor well-formed: the selection stays on a rule or on
/// the default row, and the rule being edited exists.
pub proof fn editor_step_keeps_wf(
    e: EditorV,
    code: KeyCode,
    smart_rules: Seq<RuleV>,
    smart_default: Seq<char>,
)
    requires
        e.wf(),
    ensures
        editor_step(e, code, smart_rules, smart_default).0.wf(),
{
}

/// Cancelling an edit leaves the rules, the default and the saved state as they
/// were.
pub proof fn cancel_changes_no_rule(
    e: EditorV,
    smart_rules: Seq<RuleV>,
    smart_default: Seq<char>,
)
    requires
        e.mode is Edit,
    ensures
        ({
            let (after, r) = editor_step(e, KeyCode::Esc, smart_rules, smart_default);
            r == KeyResult::ContinueCancelled && after == (EditorV { mode: ModeV::List, ..e })
        }),
{
}

/// Moving a rule down and up again gives back the same list.
pub proof fn reorder_is_undone(
    e: EditorV,
    smart_rules: Seq<RuleV>,
    smart_default: Seq<char>,
)
    requires
        e.wf(),
        e.mode is List,
        e.selected + 1 < e.rules.len(),
    ensures
        ({
            let down = editor_step(e, KeyCode::Char('}'), smart_rules, smart_default).0;
            let up = editor_step(down, KeyCode::Char('{'), smart_rules, smart_default).0;
            up == (EditorV { dirty: true, ..e })
        }),
{
    let down = editor_step(e, KeyCode::Char('}'), smart_rules, smart_default).0;
    assert(swapped(down.rules, e.selected) == e.rules);
}

/// Choosing a field shows that field and no other.
pub proof fn chosen_field_is_in_force(c: ConditionV, field: int)
    requires
        0 <= field < 13,
    ensures
        field_index(with_field(c, field)) == field,
        with_field(with_field(c, field), field) == with_field(c, field),
{
}

/// Whatever kind an action is turned into, it keeps at least one choice, and
/// turning it into a weighted action loses no choice.
pub proof fn built_action_keeps_choices(kind: int, choices: Seq<(Seq<char>, i64)>)
    ensures
        choices_of(built_action(kind, choices)).len() > 0,
        choices.len() > 0 && kind != 0 && kind != 1 ==> choices_of(built_action(kind, choices))
            == choices,
        0 <= kind < 3 ==> kind_index(built_action(kind, choices)) == kind,
{
}

} // verus!
