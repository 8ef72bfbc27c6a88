//! Transition rules: under which condition which transition is used.
use crate::text::{clone_strs, strs};
use vstd::prelude::*;
use vstd::string::*;

verus! {

/// When a rule applies. A field that is absent does not restrict the rule.
/// Percentages and energies are in hundredths, times in minutes.
pub struct Condition {
    pub bpm_gap_pct_gt: Option<i64>,
    pub bpm_gap_pct_lt: Option<i64>,
    pub key_dist_eq: Option<usize>,
    pub key_dist_lte: Option<usize>,
    pub key_dist_gte: Option<usize>,
    pub last_transition_eq: Option<String>,
    /// Modulus and remainder of the number of mixes so far.
    pub mix_count_mod: Option<(u32, u32)>,
    pub energy_delta_gt: Option<i64>,
    pub energy_delta_lt: Option<i64>,
    pub phrase_is_drop: Option<bool>,
    pub time_in_set_min_gt: Option<u32>,
    pub time_in_set_min_lt: Option<u32>,
}

/// A condition, by its contents.
#[verifier::ext_equal]
pub struct ConditionV {
    pub bpm_gap_pct_gt: Option<i64>,
    pub bpm_gap_pct_lt: Option<i64>,
    pub key_dist_eq: Option<usize>,
    pub key_dist_lte: Option<usize>,
    pub key_dist_gte: Option<usize>,
    pub last_transition_eq: Option<Seq<char>>,
    pub mix_count_mod: Option<(u32, u32)>,
    pub energy_delta_gt: Option<i64>,
    pub energy_delta_lt: Option<i64>,
    pub phrase_is_drop: Option<bool>,
    pub time_in_set_min_gt: Option<u32>,
    pub time_in_set_min_lt: Option<u32>,
}

impl View for Condition {
    type V = ConditionV;

    open spec fn view(&self) -> ConditionV {
        ConditionV {
            bpm_gap_pct_gt: self.bpm_gap_pct_gt,
            bpm_gap_pct_lt: self.bpm_gap_pct_lt,
            key_dist_eq: self.key_dist_eq,
            key_dist_lte: self.key_dist_lte,
            key_dist_gte: self.key_dist_gte,
            last_transition_eq: match self.last_transition_eq {
                Some(s) => Some(s@),
                None => None,
            },
            mix_count_mod: self.mix_count_mod,
            energy_delta_gt: self.energy_delta_gt,
            energy_delta_lt: self.energy_delta_lt,
            phrase_is_drop: self.phrase_is_drop,
            time_in_set_min_gt: self.time_in_set_min_gt,
            time_in_set_min_lt: self.time_in_set_min_lt,
        }
    }
}

/// The condition that always holds.
pub open spec fn any_condition() -> ConditionV {
    ConditionV {
        bpm_gap_pct_gt: None,
        bpm_gap_pct_lt: None,
        key_dist_eq: None,
        key_dist_lte: None,
        key_dist_gte: None,
        last_transition_eq: None,
        mix_count_mod: None,
        energy_delta_gt: None,
        energy_delta_lt: None,
        phrase_is_drop: None,
        time_in_set_min_gt: None,
        time_in_set_min_lt: None,
    }
}

impl Default for Condition {
    fn default() -> (c: Condition)
        ensures
            c@ == any_condition(),
    {
        Condition {
            bpm_gap_pct_gt: None,
            bpm_gap_pct_lt: None,
            key_dist_eq: None,
            key_dist_lte: None,
            key_dist_gte: None,
            last_transition_eq: None,
            mix_count_mod: None,
            energy_delta_gt: None,
            energy_delta_lt: None,
            phrase_is_drop: None,
            time_in_set_min_gt: None,
            time_in_set_min_lt: None,
        }
    }
}

impl Clone for Condition {
    fn clone(&self) -> (c: Condition)
        ensures
            c@ == self@,
    {
        Condition {
            bpm_gap_pct_gt: self.bpm_gap_pct_gt,
            bpm_gap_pct_lt: self.bpm_gap_pct_lt,
            key_dist_eq: self.key_dist_eq,
            key_dist_lte: self.key_dist_lte,
            key_dist_gte: self.key_dist_gte,
            last_transition_eq: match &self.last_transition_eq {
                Some(s) => Some(s.clone()),
                None => None,
            },
            mix_count_mod: self.mix_count_mod,
            energy_delta_gt: self.energy_delta_gt,
            energy_delta_lt: self.energy_delta_lt,
            phrase_is_drop: self.phrase_is_drop,
            time_in_set_min_gt: self.time_in_set_min_gt,
            time_in_set_min_lt: self.time_in_set_min_lt,
        }
    }
}

/// What a rule does: one transition, several in turn, several by weight (in
/// hundredths), or nothing.
pub enum Action {
    Force(String),
    Cycle { cycle: Vec<String> },
    Weighted { weighted: Vec<(String, i64)> },
    Skip { skip: bool },
}

/// An action, by its contents.
#[verifier::ext_equal]
pub enum ActionV {
    Force(Seq<char>),
    Cycle(Seq<Seq<char>>),
    Weighted(Seq<(Seq<char>, i64)>),
    Skip(bool),
}

pub open spec fn choices_view(v: Seq<(String, i64)>) -> Seq<(Seq<char>, i64)> {
    Seq::new(v.len(), |i: int| (v[i].0@, v[i].1))
}

impl View for Action {
    type V = ActionV;

    open spec fn view(&self) -> ActionV {
        match self {
            Action::Force(s) => ActionV::Force(s@),
            Action::Cycle { cycle } => ActionV::Cycle(strs(cycle@)),
            Action::Weighted { weighted } => ActionV::Weighted(choices_view(weighted@)),
            Action::Skip { skip } => ActionV::Skip(*skip),
        }
    }
}

/// Copies a list of weighted choices.
pub fn clone_choices(v: &Vec<(String, i64)>) -> (r: Vec<(String, i64)>)
    ensures
        choices_view(r@) == choices_view(v@),
{
    let mut r: Vec<(String, i64)> = Vec::new();
    let mut i: usize = 0;
    while i < v.len()
        invariant
            i <= v.len(),
            choices_view(r@) == choices_view(v@).take(i as int),
        decreases v.len() - i,
    {
        let ghost before = choices_view(r@);
        r.push((v[i].0.clone(), v[i].1));
        i += 1;
        assert(choices_view(r@) == before.push((v@[i - 1].0@, v@[i - 1].1)));
        assert(choices_view(v@).take(i as int) == choices_view(v@).take(i - 1).push(
            (v@[i - 1].0@, v@[i - 1].1),
        ));
    }
    assert(choices_view(v@).take(i as int) == choices_view(v@));
    r
}

impl Clone for Action {
    fn clone(&self) -> (a: Action)
        ensures
            a@ == self@,
    {
        match self {
            Action::Force(s) => Action::Force(s.clone()),
            Action::Cycle { cycle } => Action::Cycle { cycle: clone_strs(cycle) },
            Action::Weighted { weighted } => Action::Weighted { weighted: clone_choices(weighted) },
            Action::Skip { skip } => Action::Skip { skip: *skip },
        }
    }
}

pub struct Rule {
    pub when: Condition,
    pub action: Action,
}

/// A rule, by its contents.
#[verifier::ext_equal]
pub struct RuleV {
    pub when: ConditionV,
    pub action: ActionV,
}

impl View for Rule {
    type V = RuleV;

    open spec fn view(&self) -> RuleV {
        RuleV { when: self.when@, action: self.action@ }
    }
}

impl Clone for Rule {
    fn clone(&self) -> (r: Rule)
        ensures
            r@ == self@,
    {
        Rule { when: self.when.clone(), action: self.action.clone() }
    }
}

pub open spec fn rules_view(v: Seq<Rule>) -> Seq<RuleV> {
    Seq::new(v.len(), |i: int| v[i]@)
}

/// The rules, tried from the top, and what is used where none applies.
pub struct RuleConfig {
    pub rules: Vec<Rule>,
    pub default: String,
}

} // verus!
