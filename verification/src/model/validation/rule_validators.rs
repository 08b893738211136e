//! Validators for rules, against the conditions and the RTU they refer to.
use vstd::prelude::*;

use crate::controllers::{controller_name, Controller};
use crate::error::BrewError;
use crate::model::conditions::{condition_has_id, Condition, ConditionCollection};
use crate::model::rtu::{
    device_index, find_device, is_first_with_id, lemma_device_index_is_first, RTU,
};
use crate::model::rules::{Rule, RuleSet, StateSet};
use crate::model::Device;
use crate::seqs::{
    first_at, first_index, is_first, lemma_first_at_is, lemma_first_at_none, lemma_first_index_is,
    lemma_first_index_none,
};
use crate::text::str_eq;

verus! {

/// The message of a failed rule validation.
pub open spec fn fail_message(rule_id: Seq<char>, why: Seq<char>) -> Seq<char> {
    "rule validation failed on component `"@ + rule_id + "` because "@ + why
}

/// `res` is `Ok` when `expected` is `None`, else a validation error with the message.
pub open spec fn reports_rule(res: Result<(), BrewError>, expected: Option<Seq<char>>) -> bool {
    match expected {
        None => res is Ok,
        Some(m) => (res matches Err(e) && e.validation_message() == Some(m)),
    }
}

fn fail(rule_id: &str, why: &str) -> (r: Result<(), BrewError>)
    ensures
        reports_rule(r, Some(fail_message(rule_id@, why@))),
{
    let mut msg = String::from_str("rule validation failed on component `");
    msg.append(rule_id);
    msg.append("` because ");
    msg.append(why);
    Err(BrewError::ValidationError(msg))
}

// ---------------------------------------------------------------- conditions exist

/// The predicate "no condition has the id the rule uses".
pub open spec fn condition_unknown(conditions: Seq<Condition>) -> spec_fn(Rule) -> bool {
    |r: Rule| first_index(conditions, condition_has_id(r.condition_id@)) is None
}

/// Why a rule whose condition is unknown fails.
pub open spec fn unknown_condition_why(condition_id: Seq<char>) -> Seq<char> {
    "the condition it uses (`"@ + condition_id + "`) was not found in the conditions file"@
}

/// The failure of `all_used_conditions_exist`.
pub open spec fn used_conditions_failure(rules: Seq<Rule>, conditions: Seq<Condition>) -> Option<
    Seq<char>,
> {
    match first_index(rules, condition_unknown(conditions)) {
        None => None,
        Some(i) => Some(fail_message(rules[i].id@, unknown_condition_why(rules[i].condition_id@))),
    }
}

fn find_condition(conditions: &Vec<Condition>, id: &str) -> (r: Option<usize>)
    ensures
        first_index(conditions@, condition_has_id(id@)) is None <==> r is None,
        r matches Some(j) ==> first_index(conditions@, condition_has_id(id@)) == Some(j as int)
            && j < conditions@.len(),
{
    let mut i: usize = 0;
    while i < conditions.len()
        invariant
            i <= conditions@.len(),
            forall|k: int| 0 <= k < i ==> !condition_has_id(id@)(#[trigger] conditions@[k]),
        decreases conditions@.len() - i,
    {
        if str_eq(conditions[i].id.as_str(), id) {
            proof {
                lemma_first_index_is(conditions@, condition_has_id(id@), i as int);
            }
            return Some(i);
        }
        i = i + 1;
    }
    proof {
        lemma_first_index_none(conditions@, condition_has_id(id@));
    }
    None
}

/// Checks that every rule uses a condition that is defined.
pub fn all_used_conditions_exist(rules: &Vec<Rule>, conditions: &ConditionCollection) -> (res:
    Result<(), BrewError>)
    ensures
        reports_rule(res, used_conditions_failure(rules@, conditions.0@)),
{
    let n = rules.len();
    let mut i: usize = 0;
    while i < n
        invariant
            n == rules@.len(),
            i <= n,
            forall|k: int| 0 <= k < i ==> !condition_unknown(conditions.0@)(#[trigger] rules@[k]),
        decreases n - i,
    {
        let rule = &rules[i];
        if find_condition(&conditions.0, rule.condition_id.as_str()).is_none() {
            proof {
                lemma_first_index_is(rules@, condition_unknown(conditions.0@), i as int);
            }
            let mut why = String::from_str("the condition it uses (`");
            why.append(rule.condition_id.as_str());
            why.append("`) was not found in the conditions file");
            return fail(rule.id.as_str(), why.as_str());
        }
        i = i + 1;
    }
    proof {
        lemma_first_index_none(rules@, condition_unknown(conditions.0@));
    }
    Ok(())
}

// ---------------------------------------------------------------- devices exist

/// The predicate "no device has the id the state set names".
pub open spec fn set_device_missing(devices: Seq<Device>) -> spec_fn(StateSet) -> bool {
    |s: StateSet| device_index(devices, s.device_id@) is None
}

/// The predicate "some state set of the rule names a device that does not exist".
pub open spec fn rule_names_missing_device(devices: Seq<Device>) -> spec_fn(Rule) -> bool {
    |r: Rule| exists|j: int| 0 <= j < r.set@.len() && set_device_missing(devices)(#[trigger] r.set@[j])
}

/// Why a rule naming a missing device fails.
pub open spec fn missing_set_device_why(device_id: Seq<char>) -> Seq<char> {
    "it would set the state of a device (`"@ + device_id
        + "`) that couldn't be found in the RTU configuration"@
}

/// The failure of `all_used_devices_exist`: the first missing device of the first
/// rule that names one.
pub open spec fn used_devices_failure(rules: Seq<Rule>, devices: Seq<Device>) -> Option<Seq<char>> {
    match first_index(rules, rule_names_missing_device(devices)) {
        None => None,
        Some(i) => match first_index(rules[i].set@, set_device_missing(devices)) {
            None => None,
            Some(j) => Some(
                fail_message(rules[i].id@, missing_set_device_why(rules[i].set@[j].device_id@)),
            ),
        },
    }
}

/// Checks that every device whose state a rule sets exists in the RTU.
pub fn all_used_devices_exist(rules: &Vec<Rule>, rtu: &RTU) -> (res: Result<(), BrewError>)
    ensures
        reports_rule(res, used_devices_failure(rules@, rtu.devices@)),
{
    let n = rules.len();
    let mut i: usize = 0;
    while i < n
        invariant
            n == rules@.len(),
            i <= n,
            forall|k: int|
                0 <= k < i ==> !rule_names_missing_device(rtu.devices@)(#[trigger] rules@[k]),
        decreases n - i,
    {
        let rule = &rules[i];
        let m = rule.set.len();
        let mut j: usize = 0;
        while j < m
            invariant
                n == rules@.len(),
                i < n,
                *rule == rules@[i as int],
                m == rule.set@.len(),
                j <= m,
                forall|k: int|
                    0 <= k < i ==> !rule_names_missing_device(rtu.devices@)(#[trigger] rules@[k]),
                forall|k: int|
                    0 <= k < j ==> !set_device_missing(rtu.devices@)(#[trigger] rule.set@[k]),
            decreases m - j,
        {
            let set = &rule.set[j];
            if find_device(&rtu.devices, set.device_id.as_str()).is_none() {
                proof {
                    lemma_first_index_is(rules@, rule_names_missing_device(rtu.devices@), i as int);
                    lemma_first_index_is(rule.set@, set_device_missing(rtu.devices@), j as int);
                }
                let mut why = String::from_str("it would set the state of a device (`");
                why.append(set.device_id.as_str());
                why.append("`) that couldn't be found in the RTU configuration");
                return fail(rule.id.as_str(), why.as_str());
            }
            j = j + 1;
        }
        i = i + 1;
    }
    proof {
        lemma_first_index_none(rules@, rule_names_missing_device(rtu.devices@));
    }
    Ok(())
}

// ---------------------------------------------------------------- state fits device type

/// Whether the state set cannot have an effect on its device, a relay without a
/// relay state or a PID without a setpoint or relay state. A state set whose device
/// does not exist is left to `all_used_devices_exist`.
pub open spec fn set_is_ineffective(devices: Seq<Device>, s: StateSet) -> bool {
    match device_index(devices, s.device_id@) {
        None => false,
        Some(k) => if devices[k].conn.controller == Controller::CN7500 {
            s.target_state.sv is None && s.target_state.relay_state is None
        } else {
            s.target_state.relay_state is None
        },
    }
}

/// The predicate "the state set cannot have an effect on its device".
pub open spec fn ineffective_set(devices: Seq<Device>) -> spec_fn(StateSet) -> bool {
    |s: StateSet| set_is_ineffective(devices, s)
}

/// The predicate "some state set of the rule cannot have an effect".
pub open spec fn rule_has_ineffective_set(devices: Seq<Device>) -> spec_fn(Rule) -> bool {
    |r: Rule| exists|j: int| 0 <= j < r.set@.len() && set_is_ineffective(devices, #[trigger] r.set@[j])
}

/// Why a rule with a relay state set lacking a relay state fails.
pub open spec fn relay_without_state_why(c: Controller) -> Seq<char> {
    "this rule operates on a relay, but does not specify the target state when the rule triggers. relay_state should be set to On or Off in the target state for devices of type "@
        + controller_name(c)
}

/// Why a rule with a PID state set lacking a setpoint and relay state fails.
pub open spec fn pid_without_effect_why() -> Seq<char> {
    "this rule does not set the SV or relay state of a PID, so it has no effect. Either the SV or relay state should be set, or the rule should be removed"@
}

/// Why the state set `s` cannot have an effect on its device.
pub open spec fn ineffective_why(devices: Seq<Device>, s: StateSet) -> Seq<char> {
    match device_index(devices, s.device_id@) {
        Some(k) => if devices[k].conn.controller == Controller::CN7500 {
            pid_without_effect_why()
        } else {
            relay_without_state_why(devices[k].conn.controller)
        },
        None => Seq::empty(),
    }
}

/// The failure of `state_sets_are_correct_for_device_type`.
pub open spec fn device_type_sets_failure(rules: Seq<Rule>, devices: Seq<Device>) -> Option<
    Seq<char>,
> {
    match first_index(rules, rule_has_ineffective_set(devices)) {
        None => None,
        Some(i) => match first_index(rules[i].set@, ineffective_set(devices)) {
            None => None,
            Some(j) => Some(fail_message(rules[i].id@, ineffective_why(devices, rules[i].set@[j]))),
        },
    }
}

/// Whether a state set can change its device: for the first device with its id, a
/// CN7500 takes a setpoint or a relay state, and any other controller a relay
/// state. A state set naming no device is left to `all_used_devices_exist`.
pub open spec fn set_takes_effect(devices: Seq<Device>, s: StateSet) -> bool {
    forall|k: int|
        #![trigger is_first_with_id(devices, s.device_id@, k)]
        is_first_with_id(devices, s.device_id@, k) ==> (if devices[k].conn.controller
            == Controller::CN7500 {
            s.target_state.sv is Some || s.target_state.relay_state is Some
        } else {
            s.target_state.relay_state is Some
        })
}

/// The device type validator of rules accepts them exactly when every state set of
/// every rule can change its device: a state set on a CN7500 that sets a setpoint
/// or a relay state is accepted, and one on a relay board that sets a relay state.
pub proof fn lemma_device_type_sets_accept_effective_sets(rules: Seq<Rule>, devices: Seq<Device>)
    ensures
        device_type_sets_failure(rules, devices) is None <==> forall|i: int, j: int|
            0 <= i < rules.len() && 0 <= j < rules[i].set@.len() ==> set_takes_effect(
                devices,
                #[trigger] rules[i].set@[j],
            ),
{
    assert forall|s: StateSet| #[trigger] set_is_ineffective(devices, s) <==> !set_takes_effect(
        devices,
        s,
    ) by {
        lemma_device_index_is_first(devices, s.device_id@);
        match device_index(devices, s.device_id@) {
            None => {
                if exists|k: int| is_first_with_id(devices, s.device_id@, k) {
                    let k = choose|k: int| is_first_with_id(devices, s.device_id@, k);
                    assert(devices[k].id@ == s.device_id@);
                }
            },
            Some(k) => {
                assert(is_first_with_id(devices, s.device_id@, k));
            },
        }
    }
    crate::seqs::lemma_first_index_some(rules, rule_has_ineffective_set(devices));
    match first_index(rules, rule_has_ineffective_set(devices)) {
        None => {
            assert forall|i: int, j: int|
                0 <= i < rules.len() && 0 <= j < rules[i].set@.len() implies set_takes_effect(
                devices,
                #[trigger] rules[i].set@[j],
            ) by {
                if !set_takes_effect(devices, rules[i].set@[j]) {
                    assert(set_is_ineffective(devices, rules[i].set@[j]));
                    assert(rule_has_ineffective_set(devices)(rules[i]));
                }
            }
        },
        Some(i) => {
            assert(rule_has_ineffective_set(devices)(rules[i]));
            let j = choose|j: int|
                0 <= j < rules[i].set@.len() && set_is_ineffective(devices, #[trigger] rules[i].set@[j]);
            crate::seqs::lemma_first_index_some(rules[i].set@, ineffective_set(devices));
            assert(ineffective_set(devices)(rules[i].set@[j]));
            assert(!set_takes_effect(devices, rules[i].set@[j]));
        },
    }
}

fn ineffective_why_text(rtu: &RTU, k: usize, set: &StateSet) -> (s: String)
    requires
        device_index(rtu.devices@, set.device_id@) == Some(k as int),
        k < rtu.devices@.len(),
    ensures
        s@ == ineffective_why(rtu.devices@, *set),
{
    let controller = rtu.devices[k].conn.controller;
    if controller == Controller::CN7500 {
        String::from_str(
            "this rule does not set the SV or relay state of a PID, so it has no effect. Either the SV or relay state should be set, or the rule should be removed",
        )
    } else {
        let mut s = String::from_str(
            "this rule operates on a relay, but does not specify the target state when the rule triggers. relay_state should be set to On or Off in the target state for devices of type ",
        );
        s.append(controller.name());
        s
    }
}

/// Checks that each rule sets a state its devices can take: a relay state for
/// relays, a setpoint or relay state for PIDs. The RTU is not changed.
pub fn state_sets_are_correct_for_device_type(rules: &Vec<Rule>, rtu: &mut RTU) -> (res: Result<
    (),
    BrewError,
>)
    ensures
        *final(rtu) == *old(rtu),
        reports_rule(res, device_type_sets_failure(rules@, old(rtu).devices@)),
{
    let n = rules.len();
    let mut i: usize = 0;
    while i < n
        invariant
            n == rules@.len(),
            i <= n,
            forall|k: int|
                0 <= k < i ==> !rule_has_ineffective_set(rtu.devices@)(#[trigger] rules@[k]),
        decreases n - i,
    {
        let rule = &rules[i];
        let m = rule.set.len();
        let mut j: usize = 0;
        while j < m
            invariant
                n == rules@.len(),
                i < n,
                *rule == rules@[i as int],
                m == rule.set@.len(),
                j <= m,
                forall|k: int|
                    0 <= k < i ==> !rule_has_ineffective_set(rtu.devices@)(#[trigger] rules@[k]),
                forall|k: int| 0 <= k < j ==> !set_is_ineffective(rtu.devices@, #[trigger] rule.set@[k]),
            decreases m - j,
        {
            let set = &rule.set[j];
            if let Some(k) = find_device(&rtu.devices, set.device_id.as_str()) {
                let ts = &set.target_state;
                let ineffective = if rtu.devices[k].conn.controller == Controller::CN7500 {
                    ts.sv.is_none() && ts.relay_state.is_none()
                } else {
                    ts.relay_state.is_none()
                };
                if ineffective {
                    proof {
                        assert(set_is_ineffective(rtu.devices@, rule.set@[j as int]));
                        lemma_first_index_is(rules@, rule_has_ineffective_set(rtu.devices@), i as int);
                        lemma_first_index_is(rule.set@, ineffective_set(rtu.devices@), j as int);
                    }
                    let why = ineffective_why_text(rtu, k, set);
                    return fail(rule.id.as_str(), why.as_str());
                }
            }
            j = j + 1;
        }
        i = i + 1;
    }
    proof {
        lemma_first_index_none(rules@, rule_has_ineffective_set(rtu.devices@));
    }
    Ok(())
}

// ---------------------------------------------------------------- conflicting state sets

/// State set `j` of `sets` names the device of an earlier state set.
pub open spec fn repeats_earlier_device(sets: Seq<StateSet>, j: int) -> bool {
    exists|i: int| 0 <= i < j && #[trigger] sets[i].device_id@ == sets[j].device_id@
}

/// The predicate "the rule sets the state of some device more than once".
pub open spec fn sets_device_twice() -> spec_fn(Rule) -> bool {
    |r: Rule| exists|j: int| 0 <= j < r.set@.len() && #[trigger] repeats_earlier_device(r.set@, j)
}

/// The failure of `rules_do_not_have_conflicting_state_sets`.
pub open spec fn conflicting_sets_failure(rules: Seq<Rule>) -> Option<Seq<char>> {
    match first_index(rules, sets_device_twice()) {
        None => None,
        Some(i) => Some(
            fail_message(
                rules[i].id@,
                "this rule attempts to set a device's state multiple times, which is not allowed."@,
            ),
        ),
    }
}

fn repeats_device(sets: &Vec<StateSet>) -> (r: bool)
    ensures
        r == exists|j: int| 0 <= j < sets@.len() && #[trigger] repeats_earlier_device(sets@, j),
{
    let m = sets.len();
    let mut j: usize = 0;
    while j < m
        invariant
            m == sets@.len(),
            j <= m,
            forall|k: int| 0 <= k < j ==> !#[trigger] repeats_earlier_device(sets@, k),
        decreases m - j,
    {
        let mut i: usize = 0;
        while i < j
            invariant
                m == sets@.len(),
                i <= j < m,
                forall|k: int| 0 <= k < j ==> !#[trigger] repeats_earlier_device(sets@, k),
                forall|k: int| 0 <= k < i ==> #[trigger] sets@[k].device_id@ != sets@[j as int].device_id@,
            decreases j - i,
        {
            if sets[i].device_id == sets[j].device_id {
                assert(repeats_earlier_device(sets@, j as int));
                return true;
            }
            i = i + 1;
        }
        j = j + 1;
    }
    false
}

/// Checks that no rule sets the state of a device more than once.
pub fn rules_do_not_have_conflicting_state_sets(rules: &Vec<Rule>) -> (res: Result<(), BrewError>)
    ensures
        reports_rule(res, conflicting_sets_failure(rules@)),
{
    let n = rules.len();
    let mut i: usize = 0;
    while i < n
        invariant
            n == rules@.len(),
            i <= n,
            forall|k: int| 0 <= k < i ==> !sets_device_twice()(#[trigger] rules@[k]),
        decreases n - i,
    {
        if repeats_device(&rules[i].set) {
            proof {
                lemma_first_index_is(rules@, sets_device_twice(), i as int);
            }
            return fail(
                rules[i].id.as_str(),
                "this rule attempts to set a device's state multiple times, which is not allowed.",
            );
        }
        i = i + 1;
    }
    proof {
        lemma_first_index_none(rules@, sets_device_twice());
    }
    Ok(())
}

// ---------------------------------------------------------------- self-triggering rules

/// The predicate "the rule sets the state of the device its condition watches".
pub open spec fn sets_trigger_device(conditions: Seq<Condition>) -> spec_fn(Rule) -> bool {
    |r: Rule|
        match first_index(conditions, condition_has_id(r.condition_id@)) {
            None => false,
            Some(c) => exists|j: int|
                0 <= j < r.set@.len() && #[trigger] r.set@[j].device_id@ == conditions[c].device_id@,
        }
}

/// Why a rule that sets the state of its own trigger device fails.
pub open spec fn self_trigger_why(device_id: Seq<char>) -> Seq<char> {
    "this rule will change the state of device `"@ + device_id
        + "`, which is the same device that triggers the rule"@
}

/// The failure of `rules_cannot_set_state_of_device_that_triggered_them`.
pub open spec fn self_trigger_failure(rules: Seq<Rule>, conditions: Seq<Condition>) -> Option<
    Seq<char>,
> {
    match first_index(rules, sets_trigger_device(conditions)) {
        None => None,
        Some(i) => match first_index(conditions, condition_has_id(rules[i].condition_id@)) {
            None => None,
            Some(c) => Some(fail_message(rules[i].id@, self_trigger_why(conditions[c].device_id@))),
        },
    }
}

fn sets_device(sets: &Vec<StateSet>, device_id: &String) -> (r: bool)
    ensures
        r == exists|j: int| 0 <= j < sets@.len() && #[trigger] sets@[j].device_id@ == device_id@,
{
    let mut j: usize = 0;
    while j < sets.len()
        invariant
            j <= sets@.len(),
            forall|k: int| 0 <= k < j ==> #[trigger] sets@[k].device_id@ != device_id@,
        decreases sets@.len() - j,
    {
        if sets[j].device_id == *device_id {
            return true;
        }
        j = j + 1;
    }
    false
}

/// Checks that no rule sets the state of the device whose condition triggers it.
pub fn rules_cannot_set_state_of_device_that_triggered_them(
    rules: &Vec<Rule>,
    conditions: &ConditionCollection,
) -> (res: Result<(), BrewError>)
    ensures
        reports_rule(res, self_trigger_failure(rules@, conditions.0@)),
{
    let n = rules.len();
    let mut i: usize = 0;
    while i < n
        invariant
            n == rules@.len(),
            i <= n,
            forall|k: int| 0 <= k < i ==> !sets_trigger_device(conditions.0@)(#[trigger] rules@[k]),
        decreases n - i,
    {
        let rule = &rules[i];
        if let Some(c) = find_condition(&conditions.0, rule.condition_id.as_str()) {
            let trigger_device = &conditions.0[c].device_id;
            if sets_device(&rule.set, trigger_device) {
                proof {
                    lemma_first_index_is(rules@, sets_trigger_device(conditions.0@), i as int);
                }
                let mut why = String::from_str("this rule will change the state of device `");
                why.append(trigger_device.as_str());
                why.append("`, which is the same device that triggers the rule");
                return fail(rule.id.as_str(), why.as_str());
            }
        }
        i = i + 1;
    }
    proof {
        lemma_first_index_none(rules@, sets_trigger_device(conditions.0@));
    }
    Ok(())
}

// ---------------------------------------------------------------- all of them

/// The messages that the rule validators produce, in the order they run; a
/// validator that passes contributes none.
pub open spec fn rule_failures(rules: Seq<Rule>, conditions: Seq<Condition>, devices: Seq<Device>) -> Seq<
    Seq<char>,
> {
    present(
        seq![
            used_conditions_failure(rules, conditions),
            used_devices_failure(rules, devices),
            device_type_sets_failure(rules, devices),
            conflicting_sets_failure(rules),
            self_trigger_failure(rules, conditions),
        ],
    )
}

/// The values held by the `Some` entries, in order.
pub open spec fn present(opts: Seq<Option<Seq<char>>>) -> Seq<Seq<char>>
    decreases opts.len(),
{
    if opts.len() == 0 {
        Seq::empty()
    } else {
        match opts.last() {
            Some(m) => present(opts.drop_last()).push(m),
            None => present(opts.drop_last()),
        }
    }
}

/// The errors `errs` are validation errors with exactly the messages `msgs`.
pub open spec fn validation_messages_are(errs: Seq<BrewError>, msgs: Seq<Seq<char>>) -> bool {
    &&& errs.len() == msgs.len()
    &&& forall|k: int| 0 <= k < errs.len() ==> #[trigger] errs[k].validation_message() == Some(msgs[k])
}

fn push_failure(errors: &mut Vec<BrewError>, res: Result<(), BrewError>, Ghost(opts): Ghost<Seq<Option<Seq<char>>>>, Ghost(expected): Ghost<Option<Seq<char>>>)
    requires
        validation_messages_are(old(errors)@, present(opts)),
        reports_rule(res, expected),
    ensures
        validation_messages_are(final(errors)@, present(opts.push(expected))),
{
    proof {
        assert(opts.push(expected).drop_last() =~= opts);
    }
    if let Err(e) = res {
        errors.push(e);
    }
}

/// Runs every rule validator, collecting the error of each one that fails, in order.
pub fn all(rules: &RuleSet, conditions: &ConditionCollection, rtu: &mut RTU) -> (res: Result<
    (),
    Vec<BrewError>,
>)
    ensures
        *final(rtu) == *old(rtu),
        res is Ok <==> rule_failures(rules.0@, conditions.0@, old(rtu).devices@).len() == 0,
        res matches Err(errs) ==> validation_messages_are(
            errs@,
            rule_failures(rules.0@, conditions.0@, old(rtu).devices@),
        ),
{
    let ghost devices = rtu.devices@;
    let ghost r = rules.0@;
    let ghost c = conditions.0@;
    let mut errors: Vec<BrewError> = Vec::new();
    let ghost opts: Seq<Option<Seq<char>>> = Seq::empty();
    assert(present(opts) =~= Seq::<Seq<char>>::empty());
    let res1 = all_used_conditions_exist(&rules.0, conditions);
    push_failure(&mut errors, res1, Ghost(opts), Ghost(used_conditions_failure(r, c)));
    let ghost opts = opts.push(used_conditions_failure(r, c));
    let res2 = all_used_devices_exist(&rules.0, rtu);
    push_failure(&mut errors, res2, Ghost(opts), Ghost(used_devices_failure(r, devices)));
    let ghost opts = opts.push(used_devices_failure(r, devices));
    let res3 = state_sets_are_correct_for_device_type(&rules.0, rtu);
    push_failure(&mut errors, res3, Ghost(opts), Ghost(device_type_sets_failure(r, devices)));
    let ghost opts = opts.push(device_type_sets_failure(r, devices));
    let res4 = rules_do_not_have_conflicting_state_sets(&rules.0);
    push_failure(&mut errors, res4, Ghost(opts), Ghost(conflicting_sets_failure(r)));
    let ghost opts = opts.push(conflicting_sets_failure(r));
    let res5 = rules_cannot_set_state_of_device_that_triggered_them(&rules.0, conditions);
    push_failure(&mut errors, res5, Ghost(opts), Ghost(self_trigger_failure(r, c)));
    let ghost opts = opts.push(self_trigger_failure(r, c));
    assert(opts =~= seq![
        used_conditions_failure(r, c),
        used_devices_failure(r, devices),
        device_type_sets_failure(r, devices),
        conflicting_sets_failure(r),
        self_trigger_failure(r, c),
    ]);
    if errors.len() == 0 {
        return Ok(());
    }
    Err(errors)
}

} // verus!
