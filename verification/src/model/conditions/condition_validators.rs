//! Validators for condition definitions.
use vstd::prelude::*;

use crate::controllers::{controller_name, Controller};
use crate::model::conditions::{kind_name, Condition, ConditionError, ConditionKind};
use crate::model::rtu::{
    device_index, find_device, is_first_with_id, lemma_device_index_is_first, RTU,
};
use crate::model::Device;
use crate::seqs::{
    first_at, first_index, lemma_first_at_is, lemma_first_at_none, lemma_first_index_is,
    lemma_first_index_none,
};
use crate::text::{contains_whitespace, has_white_space};

verus! {

/// The details of a condition validation failure: condition id and message.
pub type ConditionFailure = (Seq<char>, Seq<char>);

/// `res` is the outcome owed by a condition validator whose expected failure is
/// `expected`: `Ok` when there is none, else the validation error with those details.
pub open spec fn reports_condition(
    res: Result<(), ConditionError>,
    expected: Option<ConditionFailure>,
) -> bool {
    match expected {
        None => res is Ok,
        Some(f) => (res matches Err(e) && e.is_validation(f.0, f.1)),
    }
}

// ---------------------------------------------------------------- unique ids

/// Condition `j` has the id of an earlier condition.
pub open spec fn repeats_earlier_condition_id(conditions: Seq<Condition>, j: int) -> bool {
    exists|i: int| 0 <= i < j && #[trigger] conditions[i].id@ == conditions[j].id@
}

/// The predicate "condition `j` has the id of an earlier condition".
pub open spec fn condition_repeat_at(conditions: Seq<Condition>) -> spec_fn(int) -> bool {
    |j: int| repeats_earlier_condition_id(conditions, j)
}

/// The failure of `conditions_have_unique_ids`.
pub open spec fn unique_condition_ids_failure(conditions: Seq<Condition>) -> Option<
    ConditionFailure,
> {
    match first_at(conditions.len() as int, condition_repeat_at(conditions)) {
        None => None,
        Some(j) => Some((conditions[j].id@, "conditions must have unique IDs"@)),
    }
}

/// Returns `Ok(())` if every condition has a unique ID.
pub fn conditions_have_unique_ids(conditions: &Vec<Condition>) -> (res: Result<(), ConditionError>)
    ensures
        reports_condition(res, unique_condition_ids_failure(conditions@)),
{
    let n = conditions.len();
    let mut j: usize = 0;
    while j < n
        invariant
            n == conditions@.len(),
            j <= n,
            forall|k: int| 0 <= k < j ==> !#[trigger] repeats_earlier_condition_id(conditions@, k),
        decreases n - j,
    {
        let mut i: usize = 0;
        while i < j
            invariant
                n == conditions@.len(),
                i <= j < n,
                forall|k: int|
                    0 <= k < j ==> !#[trigger] repeats_earlier_condition_id(conditions@, k),
                forall|k: int|
                    0 <= k < i ==> #[trigger] conditions@[k].id@ != conditions@[j as int].id@,
            decreases j - i,
        {
            if conditions[i].id == conditions[j].id {
                proof {
                    assert(repeats_earlier_condition_id(conditions@, j as int));
                    lemma_first_at_is(n as int, condition_repeat_at(conditions@), j as int);
                }
                return Err(
                    ConditionError::validation_error(
                        conditions[j].id.as_str(),
                        String::from_str("conditions must have unique IDs"),
                    ),
                );
            }
            i = i + 1;
        }
        j = j + 1;
    }
    proof {
        lemma_first_at_none(n as int, condition_repeat_at(conditions@));
    }
    Ok(())
}

// ---------------------------------------------------------------- whitespace

/// The predicate "the condition id contains white space".
pub open spec fn whitespace_condition_id() -> spec_fn(Condition) -> bool {
    |c: Condition| has_white_space(c.id@)
}

/// The failure of `conditions_have_no_whitespace`.
pub open spec fn whitespace_condition_failure(conditions: Seq<Condition>) -> Option<
    ConditionFailure,
> {
    match first_index(conditions, whitespace_condition_id()) {
        None => None,
        Some(i) => Some((conditions[i].id@, "condition ID cannot contain whitespace"@)),
    }
}

/// Returns `Ok(())` if no condition ID contains whitespace.
pub fn conditions_have_no_whitespace(conditions: &Vec<Condition>) -> (res: Result<
    (),
    ConditionError,
>)
    ensures
        reports_condition(res, whitespace_condition_failure(conditions@)),
{
    let n = conditions.len();
    let mut i: usize = 0;
    while i < n
        invariant
            n == conditions@.len(),
            i <= n,
            forall|k: int| 0 <= k < i ==> !#[trigger] has_white_space(conditions@[k].id@),
        decreases n - i,
    {
        if contains_whitespace(conditions[i].id.as_str()) {
            proof {
                lemma_first_index_is(conditions@, whitespace_condition_id(), i as int);
            }
            return Err(
                ConditionError::validation_error(
                    conditions[i].id.as_str(),
                    String::from_str("condition ID cannot contain whitespace"),
                ),
            );
        }
        i = i + 1;
    }
    proof {
        lemma_first_index_none(conditions@, whitespace_condition_id());
    }
    Ok(())
}

// ---------------------------------------------------------------- existing device

/// The predicate "no device in `devices` has the id the condition is attached to".
pub open spec fn device_missing(devices: Seq<Device>) -> spec_fn(Condition) -> bool {
    |c: Condition| device_index(devices, c.device_id@) is None
}

/// The message of a condition attached to a device that does not exist.
pub open spec fn missing_device_message(device_id: Seq<char>) -> Seq<char> {
    "conditions must be attached to a device that exists in the configuration. Could not find `"@
        + device_id + "`"@
}

/// The failure of `conditions_have_existing_device`.
pub open spec fn existing_device_failure(conditions: Seq<Condition>, rtu: RTU) -> Option<
    ConditionFailure,
> {
    match first_index(conditions, device_missing(rtu.devices@)) {
        None => None,
        Some(i) => Some((conditions[i].id@, missing_device_message(conditions[i].device_id@))),
    }
}

/// Returns `Ok(())` if each condition is attached to a device of the RTU.
pub fn conditions_have_existing_device(conditions: &Vec<Condition>, rtu: &RTU) -> (res: Result<
    (),
    ConditionError,
>)
    ensures
        reports_condition(res, existing_device_failure(conditions@, *rtu)),
{
    let n = conditions.len();
    let mut i: usize = 0;
    while i < n
        invariant
            n == conditions@.len(),
            i <= n,
            forall|k: int|
                0 <= k < i ==> !device_missing(rtu.devices@)(#[trigger] conditions@[k]),
        decreases n - i,
    {
        let cond = &conditions[i];
        if find_device(&rtu.devices, cond.device_id.as_str()).is_none() {
            proof {
                lemma_first_index_is(conditions@, device_missing(rtu.devices@), i as int);
            }
            let mut msg = String::from_str(
                "conditions must be attached to a device that exists in the configuration. Could not find `",
            );
            msg.append(cond.device_id.as_str());
            msg.append("`");
            return Err(ConditionError::validation_error(cond.id.as_str(), msg));
        }
        i = i + 1;
    }
    proof {
        lemma_first_index_none(conditions@, device_missing(rtu.devices@));
    }
    Ok(())
}

// ---------------------------------------------------------------- device type

/// Whether a condition of the kind applies to a device on the controller: relay
/// conditions to relay boards, process value conditions to the CN7500.
pub open spec fn kind_fits(kind: ConditionKind, controller: Controller) -> bool {
    match kind {
        ConditionKind::RelayStateIs => controller != Controller::CN7500,
        _ => controller == Controller::CN7500,
    }
}

/// The predicate "the condition's device is missing or has the wrong type".
pub open spec fn wrong_device(devices: Seq<Device>) -> spec_fn(Condition) -> bool {
    |c: Condition|
        match device_index(devices, c.device_id@) {
            None => true,
            Some(i) => !kind_fits(c.kind, devices[i].conn.controller),
        }
}

/// The message of a condition whose device has the wrong type.
pub open spec fn wrong_type_message(c: Condition, d: Device) -> Seq<char> {
    "Condition called '"@ + c.name@ + "' (id `"@ + c.id@ + "`) with kind `"@ + kind_name(c.kind)
        + "` is not applicable to device called "@ + d.name@ + " (id `"@ + d.id@
        + "`) because the device has type `"@ + controller_name(d.conn.controller) + "`"@
}

/// The message of a condition whose device cannot be found when checking its type.
pub open spec fn lost_device_message(device_id: Seq<char>) -> Seq<char> {
    "Couldn't find device `"@ + device_id
        + "` attached to condition, even though I already checked for it. This shouldn't happen."@
}

/// The failure of `conditions_have_correct_device_type`.
pub open spec fn device_type_failure(conditions: Seq<Condition>, rtu: RTU) -> Option<
    ConditionFailure,
> {
    match first_index(conditions, wrong_device(rtu.devices@)) {
        None => None,
        Some(i) => {
            let c = conditions[i];
            Some(
                (
                    c.id@,
                    match device_index(rtu.devices@, c.device_id@) {
                        None => lost_device_message(c.device_id@),
                        Some(j) => wrong_type_message(c, rtu.devices@[j]),
                    },
                ),
            )
        },
    }
}

/// Whether a condition fits the device it names: the device is there, and the
/// first device with that id is a relay board for a relay condition and a CN7500 for
/// any process value condition.
pub open spec fn condition_fits_device(devices: Seq<Device>, c: Condition) -> bool {
    &&& exists|k: int| is_first_with_id(devices, c.device_id@, k)
    &&& forall|k: int|
        #![trigger is_first_with_id(devices, c.device_id@, k)]
        is_first_with_id(devices, c.device_id@, k) ==> (if c.kind == ConditionKind::RelayStateIs {
            devices[k].conn.controller != Controller::CN7500
        } else {
            devices[k].conn.controller == Controller::CN7500
        })
}

/// The device type validator accepts the conditions exactly when each names a
/// device, and a relay condition names a relay board while a process value condition
/// (`PVIsAtLeast`, `PVIsAround`, `PVMeetsSV`) names a CN7500.
pub proof fn lemma_device_type_accepts_fitting_conditions(conditions: Seq<Condition>, rtu: RTU)
    ensures
        device_type_failure(conditions, rtu) is None <==> forall|i: int|
            0 <= i < conditions.len() ==> condition_fits_device(
                rtu.devices@,
                #[trigger] conditions[i],
            ),
{
    let devices = rtu.devices@;
    crate::seqs::lemma_first_index_some(conditions, wrong_device(devices));
    assert forall|i: int| 0 <= i < conditions.len() implies wrong_device(devices)(
        #[trigger] conditions[i],
    ) <==> !condition_fits_device(devices, conditions[i]) by {
        let c = conditions[i];
        lemma_device_index_is_first(devices, c.device_id@);
        match device_index(devices, c.device_id@) {
            None => {
                if exists|k: int| is_first_with_id(devices, c.device_id@, k) {
                    let k = choose|k: int| is_first_with_id(devices, c.device_id@, k);
                    assert(devices[k].id@ == c.device_id@);
                }
            },
            Some(j) => {
                assert(is_first_with_id(devices, c.device_id@, j));
            },
        }
    }
    if device_type_failure(conditions, rtu) is None {
        assert forall|i: int| 0 <= i < conditions.len() implies condition_fits_device(
            devices,
            #[trigger] conditions[i],
        ) by {
            assert(!wrong_device(devices)(conditions[i]));
        }
    } else {
        let i = first_index(conditions, wrong_device(devices))->0;
        assert(wrong_device(devices)(conditions[i]));
    }
}

fn wrong_type_text(c: &Condition, d: &Device) -> (s: String)
    ensures
        s@ == wrong_type_message(*c, *d),
{
    let mut s = String::from_str("Condition called '");
    s.append(c.name.as_str());
    s.append("' (id `");
    s.append(c.id.as_str());
    s.append("`) with kind `");
    s.append(c.kind.name());
    s.append("` is not applicable to device called ");
    s.append(d.name.as_str());
    s.append(" (id `");
    s.append(d.id.as_str());
    s.append("`) because the device has type `");
    s.append(d.conn.controller.name());
    s.append("`");
    s
}

fn kind_fits_controller(kind: ConditionKind, controller: Controller) -> (b: bool)
    ensures
        b == kind_fits(kind, controller),
{
    match kind {
        ConditionKind::RelayStateIs => controller != Controller::CN7500,
        _ => controller == Controller::CN7500,
    }
}

/// Returns `Ok(())` if each condition applies to the type of its device.
pub fn conditions_have_correct_device_type(conditions: &Vec<Condition>, rtu: &RTU) -> (res: Result<
    (),
    ConditionError,
>)
    ensures
        reports_condition(res, device_type_failure(conditions@, *rtu)),
{
    let n = conditions.len();
    let mut i: usize = 0;
    while i < n
        invariant
            n == conditions@.len(),
            i <= n,
            forall|k: int| 0 <= k < i ==> !wrong_device(rtu.devices@)(#[trigger] conditions@[k]),
        decreases n - i,
    {
        let cond = &conditions[i];
        match find_device(&rtu.devices, cond.device_id.as_str()) {
            None => {
                proof {
                    lemma_first_index_is(conditions@, wrong_device(rtu.devices@), i as int);
                }
                let mut msg = String::from_str("Couldn't find device `");
                msg.append(cond.device_id.as_str());
                msg.append(
                    "` attached to condition, even though I already checked for it. This shouldn't happen.",
                );
                return Err(ConditionError::validation_error(cond.id.as_str(), msg));
            },
            Some(j) => {
                let device = &rtu.devices[j];
                if !kind_fits_controller(cond.kind, device.conn.controller) {
                    proof {
                        lemma_first_index_is(conditions@, wrong_device(rtu.devices@), i as int);
                    }
                    let msg = wrong_type_text(cond, device);
                    return Err(ConditionError::validation_error(cond.id.as_str(), msg));
                }
            },
        }
        i = i + 1;
    }
    proof {
        lemma_first_index_none(conditions@, wrong_device(rtu.devices@));
    }
    Ok(())
}

} // verus!
