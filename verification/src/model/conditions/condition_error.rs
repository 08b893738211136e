//! Errors when validating or evaluating a condition.
use vstd::prelude::*;

verus! {

/// An error when validating or evaluating a condition.
#[derive(Debug)]
pub enum ConditionError {
    IOError(std::io::Error),
    SerdeParseError(serde_yaml::Error),
    /// The condition definition lacks the target state it needs.
    MissingTargetValueError { condition_id: String, state_name: String },
    /// The device lacks the actual value the condition needs.
    MissingActualValueError { condition_id: String, device_id: String, state_name: String },
    /// The device named by the condition is not in the device list.
    MissingDeviceError { condition_id: String, device_id: String },
    /// Error when validating the configuration.
    ValidationError { condition_id: String, msg: String },
}

impl ConditionError {
    /// This is a `ValidationError` for the condition, with the message.
    pub open spec fn is_validation(&self, id: Seq<char>, message: Seq<char>) -> bool {
        match self {
            ConditionError::ValidationError { condition_id, msg } => condition_id@ == id && msg@
                == message,
            _ => false,
        }
    }

    /// Constructs a `ConditionError::ValidationError`.
    pub fn validation_error(condition_id: &str, msg: String) -> (e: Self)
        ensures
            e.is_validation(condition_id@, msg@),
    {
        ConditionError::ValidationError { condition_id: condition_id.to_owned(), msg }
    }
}

} // verus!
