//! Instruments from OMEGA Engineering.
use vstd::prelude::*;

verus! {

/// The temperature units a CN7500 controller displays: `F` or `C`.
#[derive(Debug)]
pub enum Degree {
    Fahrenheit,
    Celsius,
}

} // verus!
