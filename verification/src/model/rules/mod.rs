//! Rules: when a condition holds, set the state of other devices.
pub mod rule_error;

use vstd::prelude::*;

use crate::error::BrewError;
use crate::model::conditions::Condition;
use crate::seqs::{
    first_at, first_index, is_first_at, lemma_first_at_is, lemma_first_at_none, lemma_first_index_is,
    lemma_first_index_none,
};
use crate::model::Device;
use crate::state::{device_states_eq, DeviceState};
use crate::text::str_eq;

pub use rule_error::RuleError;

verus! {

/// A set of rules.
pub struct RuleSet(pub Vec<Rule>);

/// A target state for one device.
pub struct StateSet {
    pub device_id: String,
    pub target_state: DeviceState,
}

/// A rule: when the condition holds, set the states listed in `set`.
pub struct Rule {
    /// ID of the rule. Normal ID rules apply.
    pub id: String,
    /// Friendly name of the rule.
    pub name: String,
    /// ID of the condition to check.
    pub condition_id: String,
    /// The states to set.
    pub set: Vec<StateSet>,
}

/// The predicate "the string is this id".
pub open spec fn is_id(id: Seq<char>) -> spec_fn(String) -> bool {
    |s: String| s@ == id
}

/// Finds the index of the first id in `ids` equal to `id`.
pub fn find_id(ids: &Vec<String>, id: &str) -> (r: Option<usize>)
    ensures
        first_index(ids@, is_id(id@)) is None <==> r is None,
        r matches Some(j) ==> first_index(ids@, is_id(id@)) == Some(j as int) && j < ids@.len(),
{
    let mut i: usize = 0;
    while i < ids.len()
        invariant
            i <= ids@.len(),
            forall|k: int| 0 <= k < i ==> !is_id(id@)(#[trigger] ids@[k]),
        decreases ids@.len() - i,
    {
        if str_eq(ids[i].as_str(), id) {
            proof {
                lemma_first_index_is(ids@, is_id(id@), i as int);
            }
            return Some(i);
        }
        i = i + 1;
    }
    proof {
        lemma_first_index_none(ids@, is_id(id@));
    }
    None
}

/// The message of a rule whose condition is not defined.
pub open spec fn condition_not_found_message(condition_id: Seq<char>) -> Seq<char> {
    "condition `"@ + condition_id + "` was not found in the condition definitions file"@
}

/// The message of a rule whose triggering device is not in the collection.
pub open spec fn dependant_missing_message(device_id: Seq<char>, condition_id: Seq<char>) -> Seq<
    char,
> {
    "device `"@ + device_id
        + "` was not found in the collection, and it is needed to evaluate condition `"@
        + condition_id + "`"@
}

/// The message of a rule whose resultant device is not in the collection.
pub open spec fn resultant_missing_message(device_id: Seq<char>, rule_id: Seq<char>) -> Seq<char> {
    "device `"@ + device_id
        + "` was not found in the collection, and it is needed to set a new state because a rule (`"@
        + rule_id + "`) was triggered"@
}

/// What a rule does once its condition has been evaluated.
#[derive(Debug, PartialEq, Eq, Structural, Clone, Copy)]
pub enum RuleStep {
    /// The condition does not hold: the rule is done, and sets nothing.
    Finish,
    /// The condition holds: apply every state set of the rule.
    ApplySets,
    /// The evaluation failed: the rule fails, and sets nothing.
    Fail,
}

/// The step a rule takes after the evaluation of its condition gave `outcome`.
pub open spec fn step_after(outcome: Result<bool, BrewError>) -> RuleStep {
    match outcome {
        Ok(true) => RuleStep::ApplySets,
        Ok(false) => RuleStep::Finish,
        Err(_) => RuleStep::Fail,
    }
}

/// The index, among the devices with ids `ids`, of the device the `k`-th state set
/// of the rule names: the first one with its id, if any.
pub open spec fn set_device(rule: Rule, ids: Seq<String>, k: int) -> Option<int> {
    first_index(ids, is_id(rule.set@[k].device_id@))
}

/// The predicate "the `k`-th state set names no device among `ids`".
pub open spec fn set_device_missing(rule: Rule, ids: Seq<String>) -> spec_fn(int) -> bool {
    |k: int| set_device(rule, ids, k) is None
}

/// The first state set of the rule whose device is not among `ids`, if any.
pub open spec fn first_missing_set(rule: Rule, ids: Seq<String>) -> Option<int> {
    first_at(rule.set@.len() as int, set_device_missing(rule, ids))
}

/// The number of state sets applied before the first whose device is missing.
pub open spec fn sets_applied(rule: Rule, ids: Seq<String>) -> int {
    match first_missing_set(rule, ids) {
        Some(m) => m,
        None => rule.set@.len() as int,
    }
}

impl Rule {
    /// The error raised when the rule's condition is not among the definitions.
    pub fn condition_not_found(&self) -> (e: BrewError)
        ensures
            e.rule_message() == Some(condition_not_found_message(self.condition_id@)),
    {
        let mut msg = String::from_str("condition `");
        msg.append(self.condition_id.as_str());
        msg.append("` was not found in the condition definitions file");
        BrewError::RuleError(msg)
    }

    /// The index, among the devices with ids `device_ids`, of the device whose state
    /// triggers the rule: the first one the condition is attached to.
    pub fn dependant_device(&self, condition: &Condition, device_ids: &Vec<String>) -> (r: Result<
        usize,
        BrewError,
    >)
        ensures
            match first_index(device_ids@, is_id(condition.device_id@)) {
                Some(i) => r == Ok::<usize, BrewError>(i as usize) && i < device_ids@.len(),
                None => (r matches Err(e) && e.rule_message() == Some(
                    dependant_missing_message(condition.device_id@, condition.id@),
                )),
            },
    {
        match find_id(device_ids, condition.device_id.as_str()) {
            Some(i) => Ok(i),
            None => {
                let mut msg = String::from_str("device `");
                msg.append(condition.device_id.as_str());
                msg.append(
                    "` was not found in the collection, and it is needed to evaluate condition `",
                );
                msg.append(condition.id.as_str());
                msg.append("`");
                Err(BrewError::RuleError(msg))
            },
        }
    }

    /// The index, among the devices with ids `device_ids`, of the device whose state
    /// the `k`-th state set of the rule sets: the first one with its id.
    pub fn resultant_device(&self, k: usize, device_ids: &Vec<String>) -> (r: Result<
        usize,
        BrewError,
    >)
        requires
            k < self.set@.len(),
        ensures
            match first_index(device_ids@, is_id(self.set@[k as int].device_id@)) {
                Some(i) => r == Ok::<usize, BrewError>(i as usize) && i < device_ids@.len(),
                None => (r matches Err(e) && e.rule_message() == Some(
                    resultant_missing_message(self.set@[k as int].device_id@, self.id@),
                )),
            },
    {
        let wanted = self.set[k].device_id.as_str();
        match find_id(device_ids, wanted) {
            Some(i) => Ok(i),
            None => {
                let mut msg = String::from_str("device `");
                msg.append(wanted);
                msg.append(
                    "` was not found in the collection, and it is needed to set a new state because a rule (`",
                );
                msg.append(self.id.as_str());
                msg.append("`) was triggered");
                Err(BrewError::RuleError(msg))
            },
        }
    }
    /// Decides what the rule does after its condition was evaluated: when the
    /// condition holds, its state sets are applied; when it does not, the rule is
    /// done; when the evaluation failed, the rule fails.
    pub fn after_evaluation(&self, outcome: &Result<bool, BrewError>) -> (step: RuleStep)
        ensures
            step == step_after(*outcome),
            outcome matches Ok(false) ==> step == RuleStep::Finish,
            outcome matches Ok(true) ==> step == RuleStep::ApplySets,
            outcome is Err ==> step == RuleStep::Fail,
    {
        match outcome {
            Ok(true) => RuleStep::ApplySets,
            Ok(false) => RuleStep::Finish,
            Err(_) => RuleStep::Fail,
        }
    }

    /// The devices that applying the rule's state sets goes through, in the order of
    /// the state sets: the index of each set's device among the devices with ids
    /// `device_ids`, up to the first set whose device is missing, and the error raised
    /// for that set. Each of these devices is updated, then enacted when
    /// `apply_state_set` changes its state; the error is returned after them.
    pub fn resultant_devices(&self, device_ids: &Vec<String>) -> (r: (Vec<usize>, Option<BrewError>))
        ensures
            r.0@.len() == sets_applied(*self, device_ids@),
            forall|j: int|
                0 <= j < r.0@.len() ==> set_device(*self, device_ids@, j) == Some(
                    #[trigger] r.0@[j] as int,
                ),
            r.1 is Some <==> first_missing_set(*self, device_ids@) is Some,
            first_missing_set(*self, device_ids@) matches Some(m) ==> (r.1 matches Some(e)
                && e.rule_message() == Some(
                resultant_missing_message(self.set@[m].device_id@, self.id@),
            )),
    {
        let ghost missing = set_device_missing(*self, device_ids@);
        let mut indices: Vec<usize> = Vec::new();
        let mut k: usize = 0;
        while k < self.set.len()
            invariant
                k <= self.set@.len(),
                missing == set_device_missing(*self, device_ids@),
                indices@.len() == k,
                forall|j: int| 0 <= j < k ==> !#[trigger] missing(j),
                forall|j: int|
                    0 <= j < k ==> set_device(*self, device_ids@, j) == Some(
                        #[trigger] indices@[j] as int,
                    ),
            decreases self.set@.len() - k,
        {
            match self.resultant_device(k, device_ids) {
                Ok(i) => {
                    let ghost before = indices@;
                    let ghost fi = first_index(device_ids@, is_id(self.set@[k as int].device_id@));
                    assert(fi is Some);
                    assert(fi->0 as usize == i);
                    assert(0 <= fi->0);
                    assert(fi->0 < device_ids@.len());
                    assert(device_ids@.len() == device_ids.len());
                    assert(fi->0 <= usize::MAX);
                    assert(fi->0 == i as int);
                    assert(set_device(*self, device_ids@, k as int) == Some(i as int));
                    indices.push(i);
                    assert(forall|j: int| 0 <= j < k ==> indices@[j] == before[j]);
                },
                Err(e) => {
                    proof {
                        assert(missing(k as int));
                        assert(is_first_at(self.set@.len() as int, missing, k as int));
                        lemma_first_at_is(self.set@.len() as int, missing, k as int);
                    }
                    return (indices, Some(e));
                },
            }
            k = k + 1;
        }
        proof {
            lemma_first_at_none(self.set@.len() as int, missing);
        }
        (indices, None)
    }

    /// Applies the `k`-th state set of the rule to its device: sets the target state
    /// unless the device is already in it, with readings compared as `f64` values.
    /// Returns whether the state changed, which is when the device has to be enacted.
    pub fn apply_state_set(&self, k: usize, device: &mut Device) -> (changed: bool)
        requires
            k < self.set@.len(),
        ensures
            changed == !device_states_eq(old(device).state, self.set@[k as int].target_state),
            changed ==> final(device).state == self.set@[k as int].target_state,
            !changed ==> final(device).state == old(device).state,
            final(device).id == old(device).id,
            final(device).name == old(device).name,
            final(device).command_retries == old(device).command_retries,
            final(device).retry_delay == old(device).retry_delay,
            final(device).conn == old(device).conn,
    {
        let target = self.set[k].target_state;
        if !device.state.equals(&target) {
            device.state = target;
            true
        } else {
            false
        }
    }
}

/// Applying a state set a second time changes nothing, unless its target holds a
/// NaN reading, which compares unequal to every reading.
pub proof fn lemma_state_set_settles(before: DeviceState, target: DeviceState)
    requires
        !crate::state::has_nan_reading(target),
    ensures
        ({
            let after = if !device_states_eq(before, target) {
                target
            } else {
                before
            };
            device_states_eq(after, target)
        }),
{
    crate::state::lemma_device_state_eq_reflexive(target);
}

} // verus!
