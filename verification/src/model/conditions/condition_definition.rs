//! The definition of a condition as written in the conditions file.
use vstd::prelude::*;

use crate::model::conditions::ConditionKind;
use crate::state::DeviceState;

verus! {

/// A condition definition as written in the conditions file.
pub struct ConditionDefinition {
    /// Name of the condition.
    pub name: String,
    /// Condition ID. Normal rules apply (unique, no whitespace).
    pub id: String,
    /// Kind of condition.
    pub kind: ConditionKind,
    /// ID of the device.
    pub device_id: String,
    /// Target state.
    pub state: DeviceState,
    /// Margin above the value for the condition to be met, as `f64` bits.
    pub margin_above: u64,
    /// Margin below the value for the condition to be met, as `f64` bits.
    pub margin_below: u64,
}

} // verus!
