//! Generalized states for controllers.
//!
//! Process values and setpoints are floating point readings. The library carries
//! them as the IEEE-754 bit pattern of the `f64` reading (`f64::to_bits`), so that
//! a reading passes through unchanged; arithmetic on readings is done by the caller.
use vstd::prelude::*;

verus! {

/// A process value: the bit pattern of an `f64` reading.
pub type PV = u64;

/// A setpoint value: the bit pattern of an `f64` reading.
pub type SV = u64;

/// A binary state, as used in a relay or similar. This can be 'On' or 'Off'.
#[derive(Debug, PartialEq, Eq, Structural, Clone, Copy)]
pub enum BinaryState {
    On,
    Off,
}

/// The state named by a string, as accepted by `BinaryState::from_str`.
pub open spec fn binary_state_named(s: Seq<char>) -> Option<BinaryState> {
    if s == "On"@ || s == "ON"@ || s == "on"@ {
        Some(BinaryState::On)
    } else if s == "Off"@ || s == "OFF"@ || s == "off"@ {
        Some(BinaryState::Off)
    } else {
        None
    }
}

/// The text a binary state is displayed with.
pub open spec fn binary_state_text(b: BinaryState) -> Seq<char> {
    match b {
        BinaryState::On => "On"@,
        BinaryState::Off => "Off"@,
    }
}

/// The binary state of a boolean: `true` is `On`.
pub open spec fn binary_state_of(value: bool) -> BinaryState {
    if value {
        BinaryState::On
    } else {
        BinaryState::Off
    }
}

/// A generalized state that is attached to all devices.
///
/// Each controller uses a different set of these values: a relay board uses
/// `relay_state` but never touches `pv` or `sv`.
#[derive(Debug, PartialEq, Eq, Structural, Clone, Copy)]
pub struct DeviceState {
    pub relay_state: Option<BinaryState>,
    pub pv: Option<PV>,
    pub sv: Option<SV>,
}

impl Default for DeviceState {
    /// The state used when none is configured: every value absent.
    fn default() -> (r: Self)
        ensures
            r.relay_state is None,
            r.pv is None,
            r.sv is None,
    {
        DeviceState { relay_state: None, pv: None, sv: None }
    }
}

/// A general state error: a bad state value was passed, or the wrong type of state
/// was given to a device.
#[derive(Debug)]
pub enum StateError {
    Deserialize(String),
    BadValue(DeviceState),
    NullState,
}

impl BinaryState {
    /// Parses "On", "ON", "on", "Off", "OFF" or "off"; anything else is a
    /// `StateError::Deserialize` carrying the input.
    pub fn parse(s: &str) -> (res: Result<BinaryState, StateError>)
        ensures
            binary_state_named(s@) matches Some(b) ==> res == Ok::<BinaryState, StateError>(b),
            binary_state_named(s@) is None ==> (res matches Err(StateError::Deserialize(t)) && t@
                == s@),
    {
        let owned = s.to_owned();
        if owned == String::from_str("On") || owned == String::from_str("ON") || owned
            == String::from_str("on") {
            Ok(BinaryState::On)
        } else if owned == String::from_str("Off") || owned == String::from_str("OFF") || owned
            == String::from_str("off") {
            Ok(BinaryState::Off)
        } else {
            Err(StateError::Deserialize(owned))
        }
    }

    /// The text this state is displayed with: "On" or "Off".
    pub fn to_string(&self) -> (s: String)
        ensures
            s@ == binary_state_text(*self),
    {
        match self {
            BinaryState::On => String::from_str("On"),
            BinaryState::Off => String::from_str("Off"),
        }
    }
}

impl std::str::FromStr for BinaryState {
    type Err = StateError;

    /// Parses "On", "ON", "on", "Off", "OFF" or "off"; anything else is a
    /// `StateError::Deserialize` carrying the input.
    fn from_str(s: &str) -> (res: Result<Self, Self::Err>)
        ensures
            binary_state_named(s@) matches Some(b) ==> res == Ok::<BinaryState, StateError>(b),
            binary_state_named(s@) is None ==> (res matches Err(StateError::Deserialize(t)) && t@
                == s@),
    {
        BinaryState::parse(s)
    }
}

impl From<bool> for BinaryState {
    /// `true` is `On`, `false` is `Off`.
    fn from(value: bool) -> (r: Self) {
        if value {
            BinaryState::On
        } else {
            BinaryState::Off
        }
    }
}

impl vstd::std_specs::convert::FromSpecImpl<bool> for BinaryState {
    open spec fn obeys_from_spec() -> bool {
        true
    }

    open spec fn from_spec(value: bool) -> Self {
        binary_state_of(value)
    }
}

impl Default for BinaryState {
    /// Defaults to `Off`.
    fn default() -> (r: Self)
        ensures
            r == BinaryState::Off,
    {
        BinaryState::Off
    }
}

/// Parsing the displayed text of a state gives the state back.
pub proof fn lemma_binary_state_text_parses(b: BinaryState)
    ensures
        binary_state_named(binary_state_text(b)) == Some(b),
{
    reveal_strlit("On");
    reveal_strlit("ON");
    reveal_strlit("on");
    reveal_strlit("Off");
    reveal_strlit("OFF");
    reveal_strlit("off");
    match b {
        BinaryState::On => {},
        BinaryState::Off => {
            assert("Off"@ != "On"@) by { assert("Off"@[1] != "On"@[1]); }
            assert("Off"@ != "ON"@) by { assert("Off"@[1] != "ON"@[1]); }
            assert("Off"@ != "on"@) by { assert("Off"@[0] != "on"@[0]); }
        },
    }
}

/// Whether the bit pattern is that of a NaN: all exponent bits set and a mantissa
/// that is not zero.
pub open spec fn is_nan_bits(x: u64) -> bool {
    (x & 0x7FF0_0000_0000_0000u64) == 0x7FF0_0000_0000_0000u64 && (x
        & 0x000F_FFFF_FFFF_FFFFu64) != 0
}

/// Whether the bit pattern is that of a zero, of either sign.
pub open spec fn is_zero_bits(x: u64) -> bool {
    (x & 0x7FFF_FFFF_FFFF_FFFFu64) == 0
}

/// Whether two readings compare equal as `f64` values do with `==`: NaN equals
/// nothing, the two zeros are equal, and any other value equals only itself.
pub open spec fn readings_eq(a: u64, b: u64) -> bool {
    &&& !is_nan_bits(a)
    &&& !is_nan_bits(b)
    &&& (a == b || (is_zero_bits(a) && is_zero_bits(b)))
}

/// Whether two optional readings compare equal as `Option<f64>` values do.
pub open spec fn optional_readings_eq(a: Option<u64>, b: Option<u64>) -> bool {
    match (a, b) {
        (Some(x), Some(y)) => readings_eq(x, y),
        (None, None) => true,
        _ => false,
    }
}

/// Whether two device states compare equal, field by field, with readings compared
/// as `f64` values.
pub open spec fn device_states_eq(a: DeviceState, b: DeviceState) -> bool {
    &&& a.relay_state == b.relay_state
    &&& optional_readings_eq(a.pv, b.pv)
    &&& optional_readings_eq(a.sv, b.sv)
}

/// Whether the state holds a NaN reading.
pub open spec fn has_nan_reading(s: DeviceState) -> bool {
    ||| (s.pv matches Some(x) && is_nan_bits(x))
    ||| (s.sv matches Some(x) && is_nan_bits(x))
}

/// Compares two readings as `f64` values.
pub fn readings_equal(a: u64, b: u64) -> (r: bool)
    ensures
        r == readings_eq(a, b),
{
    let a_nan = (a & 0x7FF0_0000_0000_0000u64) == 0x7FF0_0000_0000_0000u64 && (a
        & 0x000F_FFFF_FFFF_FFFFu64) != 0;
    let b_nan = (b & 0x7FF0_0000_0000_0000u64) == 0x7FF0_0000_0000_0000u64 && (b
        & 0x000F_FFFF_FFFF_FFFFu64) != 0;
    let both_zero = (a & 0x7FFF_FFFF_FFFF_FFFFu64) == 0 && (b & 0x7FFF_FFFF_FFFF_FFFFu64) == 0;
    !a_nan && !b_nan && (a == b || both_zero)
}

/// Compares two optional readings as `Option<f64>` values.
pub fn optional_readings_equal(a: Option<u64>, b: Option<u64>) -> (r: bool)
    ensures
        r == optional_readings_eq(a, b),
{
    match (a, b) {
        (Some(x), Some(y)) => readings_equal(x, y),
        (None, None) => true,
        _ => false,
    }
}

impl DeviceState {
    /// Compares two states field by field, readings as `f64` values.
    pub fn equals(&self, other: &DeviceState) -> (r: bool)
        ensures
            r == device_states_eq(*self, *other),
    {
        let same_relay = match (self.relay_state, other.relay_state) {
            (Some(x), Some(y)) => x == y,
            (None, None) => true,
            _ => false,
        };
        same_relay && optional_readings_equal(self.pv, other.pv) && optional_readings_equal(
            self.sv,
            other.sv,
        )
    }
}

/// A state without NaN readings equals itself.
pub proof fn lemma_device_state_eq_reflexive(s: DeviceState)
    requires
        !has_nan_reading(s),
    ensures
        device_states_eq(s, s),
{
}

/// A state holding a NaN reading equals no state, not even itself.
pub proof fn lemma_nan_state_equals_nothing(s: DeviceState, t: DeviceState)
    requires
        has_nan_reading(s),
    ensures
        !device_states_eq(s, t),
        !device_states_eq(t, s),
{
}

/// The place of a reading that is not NaN on the number line, as an integer that
/// orders readings as their `f64` values: the magnitude bits, negated when the sign
/// bit is set. Both zeros are at 0.
pub open spec fn reading_key(x: u64) -> int {
    let magnitude = (x & 0x7FFF_FFFF_FFFF_FFFFu64) as int;
    if (x & 0x8000_0000_0000_0000u64) != 0 {
        -magnitude
    } else {
        magnitude
    }
}

/// Whether reading `a` is at least reading `b`, as `f64` values compare with `>=`:
/// false when either is NaN.
pub open spec fn reading_ge(a: u64, b: u64) -> bool {
    &&& !is_nan_bits(a)
    &&& !is_nan_bits(b)
    &&& reading_key(a) >= reading_key(b)
}

/// Compares two readings as `f64` values with `>=`.
pub fn reading_at_least(a: u64, b: u64) -> (r: bool)
    ensures
        r == reading_ge(a, b),
{
    let a_nan = (a & 0x7FF0_0000_0000_0000u64) == 0x7FF0_0000_0000_0000u64 && (a
        & 0x000F_FFFF_FFFF_FFFFu64) != 0;
    let b_nan = (b & 0x7FF0_0000_0000_0000u64) == 0x7FF0_0000_0000_0000u64 && (b
        & 0x000F_FFFF_FFFF_FFFFu64) != 0;
    if a_nan || b_nan {
        return false;
    }
    let a_negative = (a & 0x8000_0000_0000_0000u64) != 0;
    let b_negative = (b & 0x8000_0000_0000_0000u64) != 0;
    let a_magnitude = a & 0x7FFF_FFFF_FFFF_FFFFu64;
    let b_magnitude = b & 0x7FFF_FFFF_FFFF_FFFFu64;
    if !a_negative && !b_negative {
        a_magnitude >= b_magnitude
    } else if a_negative && b_negative {
        a_magnitude <= b_magnitude
    } else if !a_negative {
        true
    } else {
        a_magnitude == 0 && b_magnitude == 0
    }
}

/// Whether the reading lies in the range from `lower` to `upper`, bounds included,
/// as `f64` values compare.
pub fn reading_within(actual: u64, lower: u64, upper: u64) -> (r: bool)
    ensures
        r == (reading_ge(actual, lower) && reading_ge(upper, actual)),
{
    reading_at_least(actual, lower) && reading_at_least(upper, actual)
}

} // verus!
