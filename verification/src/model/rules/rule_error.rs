//! Errors raised by rules.
use vstd::prelude::*;

use crate::model::conditions::ConditionError;
use crate::model::ModelError;

verus! {

/// An error raised when validating or applying a rule.
#[derive(Debug)]
pub enum RuleError {
    IOError(std::io::Error),
    SerdeParseError(serde_yaml::Error),
    /// The condition a rule uses is not defined.
    ConditionNotFoundError(String),
    /// A device a rule needs is not defined.
    DeviceNotFoundError { device_id: String, rule_id: String },
    ConditionError(ConditionError),
    ModelError(ModelError),
    /// A rule failed validation.
    ValidationError { rule_id: String, msg: String },
}

impl From<ModelError> for RuleError {
    fn from(error: ModelError) -> (r: Self) {
        RuleError::ModelError(error)
    }
}

impl vstd::std_specs::convert::FromSpecImpl<ModelError> for RuleError {
    open spec fn obeys_from_spec() -> bool {
        true
    }

    open spec fn from_spec(error: ModelError) -> Self {
        RuleError::ModelError(error)
    }
}

} // verus!
