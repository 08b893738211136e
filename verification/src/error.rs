//! The crate-wide error type.
use vstd::prelude::*;

use crate::model::conditions::ConditionError;
use crate::model::ModelError;

verus! {

/// An I/O error from the standard library, carried through unchanged.
#[verifier::external_type_specification]
#[verifier::external_body]
pub struct ExIoError(std::io::Error);

/// A YAML parse error, carried through unchanged.
#[verifier::external_type_specification]
#[verifier::external_body]
pub struct ExYamlError(serde_yaml::Error);

/// Errors raised by the configuration model and its evaluation.
#[derive(Debug)]
pub enum BrewError {
    /// Reading a configuration file failed.
    IOError(std::io::Error),
    /// A configuration file is not valid YAML for the model.
    YamlError(serde_yaml::Error),
    /// The RTU configuration failed one of its validators.
    ModelError(ModelError),
    /// A condition definition failed one of its validators.
    ConditionValidation(ConditionError),
    /// A condition could not be evaluated.
    ConditionError(String),
    /// A rule could not be applied.
    RuleError(String),
    /// A rule failed one of its validators.
    ValidationError(String),
}

impl BrewError {
    /// The message of an `BrewError::ValidationError`.
    pub open spec fn validation_message(&self) -> Option<Seq<char>> {
        match self {
            BrewError::ValidationError(m) => Some(m@),
            _ => None,
        }
    }

    /// The message of an `BrewError::ConditionError`.
    pub open spec fn condition_message(&self) -> Option<Seq<char>> {
        match self {
            BrewError::ConditionError(m) => Some(m@),
            _ => None,
        }
    }

    /// The message of an `BrewError::RuleError`.
    pub open spec fn rule_message(&self) -> Option<Seq<char>> {
        match self {
            BrewError::RuleError(m) => Some(m@),
            _ => None,
        }
    }
}

} // verus!
