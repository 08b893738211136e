//! Validation of the model structs against each other.
//!
//! Takes a generated RTU, condition collection and rule set and makes sure they are
//! valid and compatible with each other: a device with a bad port, or a rule over a
//! device that doesn't exist, is reported here. YAML syntax errors are caught
//! earlier, when the files are deserialized.
pub mod rule_validators;

use vstd::prelude::*;

use crate::error::BrewError;
use crate::model::conditions::{collection_failure, ConditionCollection};
use crate::model::rtu::RTU;
use crate::model::rules::RuleSet;
use crate::model::validators::{all_validators, rtu_failure};
use rule_validators::{rule_failures, validation_messages_are};

verus! {

/// The number of errors the RTU's own validation contributes: 1 when it fails.
pub open spec fn rtu_error_count(rtu: RTU) -> int {
    if rtu_failure(rtu) is Some {
        1
    } else {
        0
    }
}

/// The number of errors the conditions' validation contributes: 1 when it fails.
pub open spec fn condition_error_count(conditions: ConditionCollection, rtu: RTU) -> int {
    if collection_failure(conditions.0@, rtu) is Some {
        1
    } else {
        0
    }
}

/// `errs` are the errors of a validation in which the RTU, the conditions and the
/// rules fail as described: the RTU's validation error first if it fails, then the
/// conditions' error if they fail, then the rule validation errors in order.
pub open spec fn all_errors_are(
    errs: Seq<BrewError>,
    rtu: RTU,
    conditions: ConditionCollection,
    rules: RuleSet,
) -> bool {
    let rf = rtu_failure(rtu);
    let cf = collection_failure(conditions.0@, rtu);
    let rules_msgs = rule_failures(rules.0@, conditions.0@, rtu.devices@);
    let a = rtu_error_count(rtu);
    let b = condition_error_count(conditions, rtu);
    &&& errs.len() == a + b + rules_msgs.len()
    &&& rf matches Some(f) ==> (errs[0] matches BrewError::ModelError(m) && m.is_validation(
        f.0,
        f.1,
        f.2,
        f.3,
    ))
    &&& cf matches Some(f) ==> (errs[a] matches BrewError::ConditionValidation(e) && e.is_validation(
        f.0,
        f.1,
    ))
    &&& validation_messages_are(errs.subrange(a + b, errs.len() as int), rules_msgs)
}

/// Validates the RTU, the conditions against the RTU, and the rules against both,
/// collecting every error. The RTU is not changed.
pub fn validate_all(rtu: &mut RTU, conditions: &ConditionCollection, rules: &RuleSet) -> (res:
    Result<(), Vec<BrewError>>)
    ensures
        *final(rtu) == *old(rtu),
        res is Ok <==> {
            &&& rtu_failure(*old(rtu)) is None
            &&& collection_failure(conditions.0@, *old(rtu)) is None
            &&& rule_failures(rules.0@, conditions.0@, old(rtu).devices@).len() == 0
        },
        res matches Err(errs) ==> all_errors_are(errs@, *old(rtu), *conditions, *rules),
{
    let mut all_errors: Vec<BrewError> = Vec::new();
    if let Err(e) = all_validators(rtu) {
        all_errors.push(BrewError::ModelError(e));
    }
    let ghost after_rtu = all_errors@;
    if let Err(e) = conditions.validate(rtu) {
        all_errors.push(e);
    }
    let ghost after_conditions = all_errors@;
    let rules_result = rule_validators::all(rules, conditions, rtu);
    if let Err(mut errors) = rules_result {
        all_errors.append(&mut errors);
    }
    proof {
        let rules_msgs = rule_failures(rules.0@, conditions.0@, rtu.devices@);
        let a = rtu_error_count(*rtu);
        let b = condition_error_count(*conditions, *rtu);
        assert(after_conditions.len() == a + b);
        if rules_result is Err {
            assert(all_errors@.subrange(a + b, all_errors@.len() as int) =~= rules_result->Err_0@);
        } else {
            assert(all_errors@.subrange(a + b, all_errors@.len() as int) =~= Seq::<BrewError>::empty());
        }
    }
    if all_errors.len() == 0 {
        return Ok(());
    }
    Err(all_errors)
}

} // verus!
