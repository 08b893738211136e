//! The kinds of controllers that devices run on, and the serial settings they accept.
use vstd::prelude::*;

verus! {

/// The type of controller a device runs on.
#[derive(Debug, PartialEq, Eq, Structural, Clone, Copy)]
pub enum Controller {
    STR1,
    CN7500,
    Waveshare,
    WaveshareV2,
}

/// Baudrates an STR1 relay board can be programmed to.
pub const STR1_BAUDRATES: [usize; 10] = [300, 600, 1200, 2400, 4800, 9600, 19200, 38400, 57600, 115200];

/// Baudrates a CN7500 PID controller supports.
pub const CN7500_BAUDRATES: [usize; 5] = [2400, 4800, 9600, 19200, 38400];

/// Baudrates a Waveshare (V1 or V2) relay board supports.
pub const WAVESHAREV2_BAUDRATES: [usize; 8] = [4800, 9600, 19200, 38400, 57600, 115200, 128000, 256000];

/// The name a controller type is displayed with.
pub open spec fn controller_name(c: Controller) -> Seq<char> {
    match c {
        Controller::STR1 => "STR1"@,
        Controller::CN7500 => "CN7500"@,
        Controller::Waveshare => "Waveshare"@,
        Controller::WaveshareV2 => "WaveshareV2"@,
    }
}

/// The baudrates accepted by a controller type.
pub open spec fn accepted_baudrates(c: Controller) -> Seq<usize> {
    match c {
        Controller::STR1 => STR1_BAUDRATES@,
        Controller::CN7500 => CN7500_BAUDRATES@,
        Controller::Waveshare => WAVESHAREV2_BAUDRATES@,
        Controller::WaveshareV2 => WAVESHAREV2_BAUDRATES@,
    }
}

/// Whether `value` is one of the entries of `list`.
pub fn list_contains(list: &[usize], value: usize) -> (b: bool)
    ensures
        b == list@.contains(value),
{
    let mut i: usize = 0;
    while i < list.len()
        invariant
            i <= list@.len(),
            forall|k: int| 0 <= k < i ==> list@[k] != value,
        decreases list@.len() - i,
    {
        if list[i] == value {
            assert(list@[i as int] == value);
            return true;
        }
        i = i + 1;
    }
    false
}

impl Controller {
    /// The name this controller type is displayed with.
    pub fn name(&self) -> (s: &'static str)
        ensures
            s@ == controller_name(*self),
    {
        match self {
            Controller::STR1 => "STR1",
            Controller::CN7500 => "CN7500",
            Controller::Waveshare => "Waveshare",
            Controller::WaveshareV2 => "WaveshareV2",
        }
    }

    /// Whether this controller type accepts the baudrate.
    pub fn accepts_baudrate(&self, baudrate: usize) -> (b: bool)
        ensures
            b == accepted_baudrates(*self).contains(baudrate),
    {
        match self {
            Controller::STR1 => list_contains(&STR1_BAUDRATES, baudrate),
            Controller::CN7500 => list_contains(&CN7500_BAUDRATES, baudrate),
            Controller::Waveshare => list_contains(&WAVESHAREV2_BAUDRATES, baudrate),
            Controller::WaveshareV2 => list_contains(&WAVESHAREV2_BAUDRATES, baudrate),
        }
    }
}

} // verus!
