//! Conditions: predicates over the state of a device, used to trigger rules.
pub mod condition_definition;
pub mod condition_error;
pub mod condition_validators;

use vstd::prelude::*;

use crate::error::BrewError;
use crate::model::rtu::{has_id, RTU};
use crate::model::Device;
use crate::seqs::{first_index, lemma_first_index_is, lemma_first_index_none};
use crate::state::{reading_at_least, reading_ge, BinaryState, DeviceState, PV};
use crate::text::str_eq;
use condition_validators::{
    conditions_have_correct_device_type, conditions_have_existing_device,
    conditions_have_no_whitespace, conditions_have_unique_ids, device_type_failure,
    existing_device_failure, unique_condition_ids_failure, whitespace_condition_failure,
    ConditionFailure,
};

pub use condition_error::ConditionError;

verus! {

/// The kinds of condition that can be evaluated on a device.
#[derive(Debug, PartialEq, Eq, Structural, Clone, Copy)]
pub enum ConditionKind {
    RelayStateIs,
    PVIsAtLeast,
    PVIsAround,
    PVMeetsSV,
}

/// The name a condition kind is debug-printed with.
pub open spec fn kind_name(k: ConditionKind) -> Seq<char> {
    match k {
        ConditionKind::RelayStateIs => "RelayStateIs"@,
        ConditionKind::PVIsAtLeast => "PVIsAtLeast"@,
        ConditionKind::PVIsAround => "PVIsAround"@,
        ConditionKind::PVMeetsSV => "PVMeetsSV"@,
    }
}

impl ConditionKind {
    /// The name this kind is debug-printed with.
    pub fn name(&self) -> (s: &'static str)
        ensures
            s@ == kind_name(*self),
    {
        match self {
            ConditionKind::RelayStateIs => "RelayStateIs",
            ConditionKind::PVIsAtLeast => "PVIsAtLeast",
            ConditionKind::PVIsAround => "PVIsAround",
            ConditionKind::PVMeetsSV => "PVMeetsSV",
        }
    }
}

/// A condition over the state of one device.
#[derive(Debug, Clone)]
pub struct Condition {
    /// Name of the condition.
    pub name: String,
    /// Condition ID. Normal rules apply (unique, no whitespace).
    pub id: String,
    /// Kind of condition.
    pub kind: ConditionKind,
    /// ID of the device.
    pub device_id: String,
    /// Target state.
    pub state: DeviceState,
    /// Margin above the target for the condition to be met (PVIsAround, PVMeetsSV),
    /// as the bit pattern of an `f64`.
    pub margin_above: u64,
    /// Margin below the target for the condition to be met (PVIsAround, PVMeetsSV),
    /// as the bit pattern of an `f64`.
    pub margin_below: u64,
}

/// A collection of condition definitions.
pub struct ConditionCollection(pub Vec<Condition>);

/// The predicate "the condition is attached to this device".
pub open spec fn on_device(device_id: Seq<char>) -> spec_fn(Condition) -> bool {
    |c: Condition| c.device_id@ == device_id
}

/// The predicate "the condition has this id".
pub open spec fn condition_has_id(id: Seq<char>) -> spec_fn(Condition) -> bool {
    |c: Condition| c.id@ == id
}

impl ConditionCollection {
    /// Keeps only the conditions attached to the device, in their order.
    pub fn filter_for_device(self, device_id: &str) -> (r: ConditionCollection)
        ensures
            r.0@ == self.0@.filter(on_device(device_id@)),
    {
        let ghost all = self.0@;
        let mut kept: Vec<Condition> = Vec::new();
        let mut rest = self.0;
        let mut i: usize = 0;
        let n = rest.len();
        let ghost p = on_device(device_id@);
        while i < n
            invariant
                n == all.len(),
                rest@ == all,
                i <= n,
                kept@ == all.take(i as int).filter(p),
                p == on_device(device_id@),
            decreases n - i,
        {
            proof {
                reveal_with_fuel(Seq::<_>::filter, 1);
                assert(all.take(i + 1).drop_last() =~= all.take(i as int));
            }
            if str_eq(rest[i].device_id.as_str(), device_id) {
                kept.push(rest[i].clone_condition());
            }
            i = i + 1;
        }
        assert(all.take(n as int) =~= all);
        ConditionCollection(kept)
    }

    /// The first condition with the id, if any.
    pub fn find_by_id(self, condition_id: &str) -> (r: Option<Condition>)
        ensures
            match first_index(self.0@, condition_has_id(condition_id@)) {
                None => r is None,
                Some(i) => r == Some(self.0@[i]),
            },
    {
        let ghost all = self.0@;
        let mut v = self.0;
        let mut i: usize = 0;
        while i < v.len()
            invariant
                v@ == all,
                all == self.0@,
                i <= all.len(),
                forall|k: int|
                    0 <= k < i ==> !condition_has_id(condition_id@)(#[trigger] all[k]),
            decreases all.len() - i,
        {
            if str_eq(v[i].id.as_str(), condition_id) {
                proof {
                    lemma_first_index_is(all, condition_has_id(condition_id@), i as int);
                }
                return Some(v.remove(i));
            }
            i = i + 1;
        }
        proof {
            lemma_first_index_none(all, condition_has_id(condition_id@));
        }
        None
    }
}

/// The failure of `ConditionCollection::validate`: that of the first validator that
/// fails, in the order ids, existing device, device type, whitespace.
pub open spec fn collection_failure(conditions: Seq<Condition>, rtu: RTU) -> Option<
    ConditionFailure,
> {
    if unique_condition_ids_failure(conditions) is Some {
        unique_condition_ids_failure(conditions)
    } else if existing_device_failure(conditions, rtu) is Some {
        existing_device_failure(conditions, rtu)
    } else if device_type_failure(conditions, rtu) is Some {
        device_type_failure(conditions, rtu)
    } else {
        whitespace_condition_failure(conditions)
    }
}

/// `res` is `Ok` when `expected` is `None`, else the condition validation error
/// with the expected details.
pub open spec fn reports_collection(res: Result<(), BrewError>, expected: Option<ConditionFailure>) -> bool {
    match expected {
        None => res is Ok,
        Some(f) => (res matches Err(BrewError::ConditionValidation(e)) && e.is_validation(f.0, f.1)),
    }
}

impl ConditionCollection {
    /// Runs all condition validators against the devices of the RTU, returning the
    /// error of the first one that fails.
    pub fn validate(&self, rtu: &RTU) -> (res: Result<(), BrewError>)
        ensures
            reports_collection(res, collection_failure(self.0@, *rtu)),
    {
        if let Err(e) = conditions_have_unique_ids(&self.0) {
            return Err(BrewError::ConditionValidation(e));
        }
        if let Err(e) = conditions_have_existing_device(&self.0, rtu) {
            return Err(BrewError::ConditionValidation(e));
        }
        if let Err(e) = conditions_have_correct_device_type(&self.0, rtu) {
            return Err(BrewError::ConditionValidation(e));
        }
        if let Err(e) = conditions_have_no_whitespace(&self.0) {
            return Err(BrewError::ConditionValidation(e));
        }
        Ok(())
    }
}

/// What remains to decide a condition once its values are known to be present.
///
/// Process values, setpoints and margins are `f64` bit patterns. Comparisons of
/// readings are decided here; the bounds of a range around a target are `f64` sums,
/// computed by the caller, which then decides with `reading_within`.
#[derive(Debug, PartialEq, Eq, Structural, Clone, Copy)]
pub enum Evaluation {
    /// The condition's truth is known.
    Decided(bool),
    /// True exactly when `target - margin_below <= actual <= target + margin_above`,
    /// computed in `f64`.
    Around { actual: PV, target: PV, margin_below: u64, margin_above: u64 },
}

/// The message of a condition that lacks a target value.
pub open spec fn missing_target_message(condition_id: Seq<char>, name: Seq<char>) -> Seq<char> {
    "condition `"@ + condition_id + "` is missing target value `"@ + name + "`"@
}

/// The message of a device that lacks the value a condition needs.
pub open spec fn missing_actual_message(
    condition_id: Seq<char>,
    name: Seq<char>,
    device_id: Seq<char>,
) -> Seq<char> {
    "when evaluating condition `"@ + condition_id + "`, missing target value `"@ + name
        + "` which should be provided by device `"@ + device_id + "`"@
}

/// How a condition is evaluated on a device: the remaining comparison, or the
/// message of the error raised because a value is missing.
pub open spec fn planned_evaluation(c: Condition, d: Device) -> Result<Evaluation, Seq<char>> {
    match c.kind {
        ConditionKind::RelayStateIs => {
            if c.state.relay_state is None {
                Err(missing_target_message(c.id@, "relay_state"@))
            } else if d.state.relay_state is None {
                Err(missing_actual_message(c.id@, "relay_state"@, d.id@))
            } else {
                Ok(Evaluation::Decided(d.state.relay_state == c.state.relay_state))
            }
        },
        ConditionKind::PVIsAtLeast => {
            if c.state.pv is None {
                Err(missing_target_message(c.id@, "pv"@))
            } else if d.state.pv is None {
                Err(missing_actual_message(c.id@, "pv"@, d.id@))
            } else {
                Ok(Evaluation::Decided(reading_ge(d.state.pv->0, c.state.pv->0)))
            }
        },
        ConditionKind::PVIsAround => {
            if d.state.pv is None {
                Err(missing_actual_message(c.id@, "pv"@, d.id@))
            } else if c.state.pv is None {
                Err(missing_target_message(c.id@, "pv"@))
            } else {
                Ok(
                    Evaluation::Around {
                        actual: d.state.pv->0,
                        target: c.state.pv->0,
                        margin_below: c.margin_below,
                        margin_above: c.margin_above,
                    },
                )
            }
        },
        ConditionKind::PVMeetsSV => {
            if d.state.pv is None {
                Err(missing_actual_message(c.id@, "pv"@, d.id@))
            } else if d.state.sv is None {
                Err(missing_actual_message(c.id@, "sv"@, d.id@))
            } else {
                Ok(
                    Evaluation::Around {
                        actual: d.state.pv->0,
                        target: d.state.sv->0,
                        margin_below: c.margin_below,
                        margin_above: c.margin_above,
                    },
                )
            }
        },
    }
}

/// A condition on a process value compares the device's reading: with a
/// `PVIsAround` condition, against the condition's own target, and with a
/// `PVMeetsSV` condition, against the device's setpoint, both with the condition's
/// margins; with a `PVIsAtLeast` condition, the reading must be at least the
/// condition's target.
pub proof fn lemma_process_value_targets(c: Condition, d: Device)
    ensures
        c.kind == ConditionKind::PVIsAround && c.state.pv is Some && d.state.pv is Some
            ==> planned_evaluation(c, d) == Ok::<Evaluation, Seq<char>>(
            Evaluation::Around {
                actual: d.state.pv->0,
                target: c.state.pv->0,
                margin_below: c.margin_below,
                margin_above: c.margin_above,
            },
        ),
        c.kind == ConditionKind::PVMeetsSV && d.state.pv is Some && d.state.sv is Some
            ==> planned_evaluation(c, d) == Ok::<Evaluation, Seq<char>>(
            Evaluation::Around {
                actual: d.state.pv->0,
                target: d.state.sv->0,
                margin_below: c.margin_below,
                margin_above: c.margin_above,
            },
        ),
        c.kind == ConditionKind::PVIsAtLeast && c.state.pv is Some && d.state.pv is Some
            ==> planned_evaluation(c, d) == Ok::<Evaluation, Seq<char>>(
            Evaluation::Decided(reading_ge(d.state.pv->0, c.state.pv->0)),
        ),
        c.kind == ConditionKind::RelayStateIs && c.state.relay_state is Some
            && d.state.relay_state is Some ==> planned_evaluation(c, d) == Ok::<
            Evaluation,
            Seq<char>,
        >(Evaluation::Decided(d.state.relay_state == c.state.relay_state)),
{
}

/// `res` is the outcome owed for the planned evaluation `plan`.
pub open spec fn reports_evaluation(
    res: Result<Evaluation, BrewError>,
    plan: Result<Evaluation, Seq<char>>,
) -> bool {
    match plan {
        Ok(ev) => res == Ok::<Evaluation, BrewError>(ev),
        Err(m) => (res matches Err(e) && e.condition_message() == Some(m)),
    }
}

impl Condition {
    fn missing_target(&self, name: &str) -> (e: BrewError)
        ensures
            e.condition_message() == Some(missing_target_message(self.id@, name@)),
    {
        let mut msg = String::from_str("condition `");
        msg.append(self.id.as_str());
        msg.append("` is missing target value `");
        msg.append(name);
        msg.append("`");
        BrewError::ConditionError(msg)
    }

    fn missing_actual(&self, name: &str, device: &Device) -> (e: BrewError)
        ensures
            e.condition_message() == Some(missing_actual_message(self.id@, name@, device.id@)),
    {
        let mut msg = String::from_str("when evaluating condition `");
        msg.append(self.id.as_str());
        msg.append("`, missing target value `");
        msg.append(name);
        msg.append("` which should be provided by device `");
        msg.append(device.id.as_str());
        msg.append("`");
        BrewError::ConditionError(msg)
    }

    /// Checks that the values the condition needs are present, and returns what
    /// remains to decide it. It does not poll the device: update the device first.
    pub fn evaluation(&self, device: &Device) -> (res: Result<Evaluation, BrewError>)
        ensures
            reports_evaluation(res, planned_evaluation(*self, *device)),
    {
        match self.kind {
            ConditionKind::RelayStateIs => {
                match (self.state.relay_state, device.state.relay_state) {
                    (None, _) => Err(self.missing_target("relay_state")),
                    (Some(_), None) => Err(self.missing_actual("relay_state", device)),
                    (Some(target), Some(actual)) => Ok(Evaluation::Decided(actual == target)),
                }
            },
            ConditionKind::PVIsAtLeast => {
                match (self.state.pv, device.state.pv) {
                    (None, _) => Err(self.missing_target("pv")),
                    (Some(_), None) => Err(self.missing_actual("pv", device)),
                    (Some(target), Some(actual)) => Ok(Evaluation::Decided(reading_at_least(actual, target))),
                }
            },
            ConditionKind::PVIsAround => {
                match (self.state.pv, device.state.pv) {
                    (_, None) => Err(self.missing_actual("pv", device)),
                    (Some(target), Some(actual)) => Ok(
                        Evaluation::Around {
                            actual,
                            target,
                            margin_below: self.margin_below,
                            margin_above: self.margin_above,
                        },
                    ),
                    (None, Some(_)) => Err(self.missing_target("pv")),
                }
            },
            ConditionKind::PVMeetsSV => {
                match (device.state.pv, device.state.sv) {
                    (None, _) => Err(self.missing_actual("pv", device)),
                    (Some(_), None) => Err(self.missing_actual("sv", device)),
                    (Some(actual), Some(target)) => Ok(
                        Evaluation::Around {
                            actual,
                            target,
                            margin_below: self.margin_below,
                            margin_above: self.margin_above,
                        },
                    ),
                }
            },
        }
    }

    /// A copy of this condition with the same fields.
    pub fn clone_condition(&self) -> (c: Condition)
        ensures
            c == *self,
    {
        Condition {
            name: self.name.clone(),
            id: self.id.clone(),
            kind: self.kind,
            device_id: self.device_id.clone(),
            state: self.state,
            margin_above: self.margin_above,
            margin_below: self.margin_below,
        }
    }
}

} // verus!
