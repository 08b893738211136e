//! Errors that occur when working with the RTU model.
use vstd::prelude::*;

verus! {

/// Error types that could occur when working with models.
#[derive(Debug)]
pub enum ModelError {
    FileNotFound,
    IOError(std::io::Error),
    PermissionError,
    SerdeParseError(serde_yaml::Error),
    /// Error when validating the configuration.
    ValidationError {
        /// The item that failed validation, usually a device id.
        item_id: String,
        /// The key of the value that broke the rule.
        key: String,
        /// The value that broke the rule.
        value: String,
        /// Description of the rule being broken.
        rule: String,
    },
}

impl ModelError {
    /// This is a `ValidationError` with exactly these item, key, value and rule.
    pub open spec fn is_validation(
        &self,
        item: Seq<char>,
        key: Seq<char>,
        value: Seq<char>,
        rule: Seq<char>,
    ) -> bool {
        match self {
            ModelError::ValidationError { item_id, key: k, value: v, rule: r } => {
                &&& item_id@ == item
                &&& k@ == key
                &&& v@ == value
                &&& r@ == rule
            },
            _ => false,
        }
    }

    /// Constructs a `ModelError::ValidationError`.
    pub fn validation_error(item_id: &str, key_value: (&str, &str), rule: &str) -> (e: ModelError)
        ensures
            e.is_validation(item_id@, key_value.0@, key_value.1@, rule@),
    {
        ModelError::ValidationError {
            item_id: item_id.to_owned(),
            key: key_value.0.to_owned(),
            value: key_value.1.to_owned(),
            rule: rule.to_owned(),
        }
    }
}

} // verus!
