//! Validators for an RTU deserialized from the configuration file.
//!
//! Each one returns `Err(ModelError::ValidationError)` if the RTU doesn't pass its
//! test. They are another layer of validation on top of deserialization: they make
//! sure the values in the RTU are actually correct, not just well typed.
use vstd::prelude::*;

use crate::controllers::{accepted_baudrates, Controller};
use crate::model::{Device, ModelError, RTU};
use crate::seqs::{
    first_at, first_index, lemma_first_at_is, lemma_first_at_none, lemma_first_index_is,
    lemma_first_index_none,
};
use crate::text::{contains_whitespace, decimal, decimal_string, has_white_space, push_decimal};

verus! {

/// The details of a validation failure: item, key, value and rule.
pub type Failure = (Seq<char>, Seq<char>, Seq<char>, Seq<char>);

/// `res` is the outcome owed by a validator whose expected failure is `expected`:
/// `Ok` when there is none, else the validation error with exactly those details.
pub open spec fn reports(res: Result<(), ModelError>, expected: Option<Failure>) -> bool {
    match expected {
        None => res is Ok,
        Some(f) => (res matches Err(e) && e.is_validation(f.0, f.1, f.2, f.3)),
    }
}

/// Whether `path` starts with `base`, component by component, as
/// `std::path::Path::starts_with` decides it.
pub uninterp spec fn path_starts_with(path: Seq<char>, base: Seq<char>) -> bool;

/// Whether the path `path` starts with the path `base` (`Path::starts_with`).
#[verifier::external_body]
fn path_has_prefix(path: &str, base: &str) -> (b: bool)
    ensures
        b == path_starts_with(path@, base@),
{
    std::path::Path::new(path).starts_with(base)
}

// ---------------------------------------------------------------- unique ids

/// Device `j` has the id of an earlier device.
pub open spec fn repeats_earlier_id(devices: Seq<Device>, j: int) -> bool {
    exists|i: int| 0 <= i < j && #[trigger] devices[i].id@ == devices[j].id@
}

/// The predicate "device `j` has the id of an earlier device".
pub open spec fn repeat_at(devices: Seq<Device>) -> spec_fn(int) -> bool {
    |j: int| repeats_earlier_id(devices, j)
}

/// The failure of `devices_have_unique_ids`: the first device whose id was used before.
pub open spec fn unique_ids_failure(rtu: RTU) -> Option<Failure> {
    match first_at(rtu.devices@.len() as int, repeat_at(rtu.devices@)) {
        None => None,
        Some(j) => Some(
            (
                rtu.devices@[j].id@,
                "id"@,
                rtu.devices@[j].id@,
                "devices must have unique IDs across all RTUs"@,
            ),
        ),
    }
}

/// Returns `Ok(())` if each device in the RTU has a unique ID.
pub fn devices_have_unique_ids(rtu: &RTU) -> (res: Result<(), ModelError>)
    ensures
        reports(res, unique_ids_failure(*rtu)),
{
    let n = rtu.devices.len();
    let mut j: usize = 0;
    while j < n
        invariant
            n == rtu.devices@.len(),
            j <= n,
            forall|k: int| 0 <= k < j ==> !#[trigger] repeats_earlier_id(rtu.devices@, k),
        decreases n - j,
    {
        let mut i: usize = 0;
        while i < j
            invariant
                n == rtu.devices@.len(),
                i <= j < n,
                forall|k: int| 0 <= k < j ==> !#[trigger] repeats_earlier_id(rtu.devices@, k),
                forall|k: int| 0 <= k < i ==> #[trigger] rtu.devices@[k].id@ != rtu.devices@[j as int].id@,
            decreases j - i,
        {
            if rtu.devices[i].id == rtu.devices[j].id {
                proof {
                    assert(repeats_earlier_id(rtu.devices@, j as int));
                    lemma_first_at_is(n as int, repeat_at(rtu.devices@), j as int);
                }
                let id = rtu.devices[j].id.as_str();
                return Err(
                    ModelError::validation_error(
                        id,
                        ("id", id),
                        "devices must have unique IDs across all RTUs",
                    ),
                );
            }
            i = i + 1;
        }
        j = j + 1;
    }
    proof {
        lemma_first_at_none(n as int, repeat_at(rtu.devices@));
    }
    Ok(())
}

// ---------------------------------------------------------------- whitespace

/// The predicate "the device id contains white space".
pub open spec fn whitespace_id() -> spec_fn(Device) -> bool {
    |d: Device| has_white_space(d.id@)
}

/// The failure of `id_has_no_whitespace`.
pub open spec fn whitespace_failure(rtu: RTU) -> Option<Failure> {
    if has_white_space(rtu.id@) {
        Some(("RTU"@, "id"@, rtu.id@, "RTU ID cannot contain whitespace"@))
    } else {
        match first_index(rtu.devices@, whitespace_id()) {
            None => None,
            Some(i) => Some(
                (
                    rtu.devices@[i].id@,
                    "id"@,
                    rtu.devices@[i].id@,
                    "device ID cannot contain whitespace"@,
                ),
            ),
        }
    }
}

/// Returns `Ok(())` if the RTU ID and every device ID do not contain whitespace.
pub fn id_has_no_whitespace(rtu: &RTU) -> (res: Result<(), ModelError>)
    ensures
        reports(res, whitespace_failure(*rtu)),
{
    if contains_whitespace(rtu.id.as_str()) {
        return Err(
            ModelError::validation_error(
                "RTU",
                ("id", rtu.id.as_str()),
                "RTU ID cannot contain whitespace",
            ),
        );
    }
    let n = rtu.devices.len();
    let mut i: usize = 0;
    while i < n
        invariant
            n == rtu.devices@.len(),
            i <= n,
            !has_white_space(rtu.id@),
            forall|k: int| 0 <= k < i ==> !#[trigger] has_white_space(rtu.devices@[k].id@),
        decreases n - i,
    {
        let id = rtu.devices[i].id.as_str();
        if contains_whitespace(id) {
            proof {
                lemma_first_index_is(rtu.devices@, whitespace_id(), i as int);
            }
            return Err(
                ModelError::validation_error(id, ("id", id), "device ID cannot contain whitespace"),
            );
        }
        i = i + 1;
    }
    proof {
        lemma_first_index_none(rtu.devices@, whitespace_id());
    }
    Ok(())
}

// ---------------------------------------------------------------- serial port

/// The device's port is empty or not under `/dev`.
pub open spec fn port_is_bad(d: Device) -> bool {
    d.conn.port@.len() == 0 || !path_starts_with(d.conn.port@, "/dev"@)
}

/// The predicate "the device's port is empty or not under `/dev`".
pub open spec fn bad_port() -> spec_fn(Device) -> bool {
    |d: Device| port_is_bad(d)
}

/// The failure of `serial_port_is_valid`.
pub open spec fn serial_port_failure(rtu: RTU) -> Option<Failure> {
    match first_index(rtu.devices@, bad_port()) {
        None => None,
        Some(i) => {
            let d = rtu.devices@[i];
            Some(
                (
                    d.id@,
                    "port"@,
                    d.conn.port@,
                    if d.conn.port@.len() == 0 {
                        "serial port cannot be empty"@
                    } else {
                        "port path must be in /dev/*"@
                    },
                ),
            )
        },
    }
}

/// Checks one device's serial port, given whether the port path lies under `/dev`:
/// the port must not be empty and must lie there.
pub fn check_port(id: &str, port: &str, under_dev: bool) -> (res: Result<(), ModelError>)
    ensures
        port@.len() == 0 ==> (res matches Err(e) && e.is_validation(
            id@,
            "port"@,
            port@,
            "serial port cannot be empty"@,
        )),
        port@.len() != 0 && !under_dev ==> (res matches Err(e) && e.is_validation(
            id@,
            "port"@,
            port@,
            "port path must be in /dev/*"@,
        )),
        port@.len() != 0 && under_dev ==> res is Ok,
{
    if port.is_empty() {
        return Err(ModelError::validation_error(id, ("port", port), "serial port cannot be empty"));
    }
    if !under_dev {
        return Err(ModelError::validation_error(id, ("port", port), "port path must be in /dev/*"));
    }
    Ok(())
}

/// Checks that each device's serial port is a path in `/dev/`. The port need not
/// exist: a disconnected cable makes the port go away, but it is still valid.
pub fn serial_port_is_valid(rtu: &RTU) -> (res: Result<(), ModelError>)
    ensures
        reports(res, serial_port_failure(*rtu)),
{
    let n = rtu.devices.len();
    let mut i: usize = 0;
    while i < n
        invariant
            n == rtu.devices@.len(),
            i <= n,
            forall|k: int| 0 <= k < i ==> !#[trigger] port_is_bad(rtu.devices@[k]),
        decreases n - i,
    {
        let dev = &rtu.devices[i];
        let port = dev.conn.port.as_str();
        let under_dev = path_has_prefix(port, "/dev");
        if let Err(e) = check_port(dev.id.as_str(), port, under_dev) {
            proof {
                lemma_first_index_is(rtu.devices@, bad_port(), i as int);
            }
            return Err(e);
        }
        i = i + 1;
    }
    proof {
        lemma_first_index_none(rtu.devices@, bad_port());
    }
    Ok(())
}

// ---------------------------------------------------------------- baudrate

/// The rule a device breaks when its controller does not accept its baudrate.
pub open spec fn baudrate_rule(c: Controller) -> Seq<char> {
    match c {
        Controller::STR1 => "invalid baudrate for STR1 controller"@,
        Controller::CN7500 => "invalid baudrate for CN7500 controller"@,
        Controller::Waveshare => "invalid baudrate for WaveshareV2 controller"@,
        Controller::WaveshareV2 => "invalid baudrate for WaveshareV2 controller"@,
    }
}

/// The predicate "the device's controller does not accept its baudrate".
pub open spec fn bad_baudrate() -> spec_fn(Device) -> bool {
    |d: Device| !accepted_baudrates(d.conn.controller).contains(d.conn.baudrate)
}

/// The failure of `controller_baudrate_is_valid`.
pub open spec fn baudrate_failure(rtu: RTU) -> Option<Failure> {
    match first_index(rtu.devices@, bad_baudrate()) {
        None => None,
        Some(i) => {
            let d = rtu.devices@[i];
            Some(
                (
                    d.id@,
                    "baudrate"@,
                    decimal(d.conn.baudrate as nat),
                    baudrate_rule(d.conn.controller),
                ),
            )
        },
    }
}

fn baudrate_rule_text(c: &Controller) -> (s: &'static str)
    ensures
        s@ == baudrate_rule(*c),
{
    match c {
        Controller::STR1 => "invalid baudrate for STR1 controller",
        Controller::CN7500 => "invalid baudrate for CN7500 controller",
        Controller::Waveshare => "invalid baudrate for WaveshareV2 controller",
        Controller::WaveshareV2 => "invalid baudrate for WaveshareV2 controller",
    }
}

/// Checks that each device's controller accepts the device's baudrate.
pub fn controller_baudrate_is_valid(rtu: &RTU) -> (res: Result<(), ModelError>)
    ensures
        reports(res, baudrate_failure(*rtu)),
{
    let n = rtu.devices.len();
    let mut i: usize = 0;
    while i < n
        invariant
            n == rtu.devices@.len(),
            i <= n,
            forall|k: int|
                0 <= k < i ==> accepted_baudrates(#[trigger] rtu.devices@[k].conn.controller).contains(
                    rtu.devices@[k].conn.baudrate,
                ),
        decreases n - i,
    {
        let dev = &rtu.devices[i];
        let controller = dev.conn.controller();
        let baudrate = *dev.conn.baudrate();
        if !controller.accepts_baudrate(baudrate) {
            proof {
                lemma_first_index_is(rtu.devices@, bad_baudrate(), i as int);
            }
            let value = decimal_string(baudrate as u64);
            return Err(
                ModelError::validation_error(
                    dev.id.as_str(),
                    ("baudrate", value.as_str()),
                    baudrate_rule_text(controller),
                ),
            );
        }
        i = i + 1;
    }
    proof {
        lemma_first_index_none(rtu.devices@, bad_baudrate());
    }
    Ok(())
}

// ---------------------------------------------------------------- timeout

/// The predicate "the device's timeout is below 16 ms".
pub open spec fn bad_timeout() -> spec_fn(Device) -> bool {
    |d: Device| d.conn.timeout <= 15
}

/// The failure of `timeout_valid`.
pub open spec fn timeout_failure(rtu: RTU) -> Option<Failure> {
    match first_index(rtu.devices@, bad_timeout()) {
        None => None,
        Some(i) => {
            let d = rtu.devices@[i];
            Some(
                (
                    d.id@,
                    "timeout"@,
                    decimal(d.conn.timeout as nat) + "ms"@,
                    "Timeout cannot be lower than 16 ms"@,
                ),
            )
        },
    }
}

/// The timeout validator refuses an RTU exactly when one of its devices has a
/// timeout of 15 ms or less; it then names the first such device and its timeout.
pub proof fn lemma_timeout_refuses_short_timeouts(rtu: RTU)
    ensures
        timeout_failure(rtu) is None <==> forall|k: int|
            0 <= k < rtu.devices@.len() ==> (#[trigger] rtu.devices@[k]).conn.timeout >= 16,
        timeout_failure(rtu) matches Some(f) ==> exists|k: int|
            #![trigger rtu.devices@[k]]
            0 <= k < rtu.devices@.len() && rtu.devices@[k].conn.timeout <= 15 && f.0
                == rtu.devices@[k].id@ && f.2 == decimal(rtu.devices@[k].conn.timeout as nat)
                + "ms"@ && forall|m: int|
                0 <= m < k ==> (#[trigger] rtu.devices@[m]).conn.timeout >= 16,
{
    crate::seqs::lemma_first_index_some(rtu.devices@, bad_timeout());
    if timeout_failure(rtu) is None {
        assert forall|k: int| 0 <= k < rtu.devices@.len() implies (#[trigger] rtu.devices@[k]).conn.timeout
            >= 16 by {
            if rtu.devices@[k].conn.timeout <= 15 {
                assert(bad_timeout()(rtu.devices@[k]));
            }
        }
    } else {
        let i = first_index(rtu.devices@, bad_timeout())->0;
        assert(bad_timeout()(rtu.devices@[i]));
        assert forall|m: int| 0 <= m < i implies (#[trigger] rtu.devices@[m]).conn.timeout >= 16 by {
            assert(!bad_timeout()(rtu.devices@[m]));
        }
    }
}

/// Checks that no device has a timeout below 16 ms.
pub fn timeout_valid(rtu: &RTU) -> (res: Result<(), ModelError>)
    ensures
        reports(res, timeout_failure(*rtu)),
{
    let n = rtu.devices.len();
    let mut i: usize = 0;
    while i < n
        invariant
            n == rtu.devices@.len(),
            i <= n,
            forall|k: int| 0 <= k < i ==> #[trigger] rtu.devices@[k].conn.timeout > 15,
        decreases n - i,
    {
        let dev = &rtu.devices[i];
        if dev.conn.timeout <= 15 {
            proof {
                lemma_first_index_is(rtu.devices@, bad_timeout(), i as int);
            }
            let mut value = decimal_string(dev.conn.timeout);
            value.append("ms");
            return Err(
                ModelError::validation_error(
                    dev.id.as_str(),
                    ("timeout", value.as_str()),
                    "Timeout cannot be lower than 16 ms",
                ),
            );
        }
        i = i + 1;
    }
    proof {
        lemma_first_index_none(rtu.devices@, bad_timeout());
    }
    Ok(())
}

// ---------------------------------------------------------------- command retries

/// The predicate "the device retries a command more than 5 times".
pub open spec fn bad_retries() -> spec_fn(Device) -> bool {
    |d: Device| d.command_retries > 5
}

/// The failure of `command_retries_valid`.
pub open spec fn retries_failure(rtu: RTU) -> Option<Failure> {
    match first_index(rtu.devices@, bad_retries()) {
        None => None,
        Some(i) => {
            let d = rtu.devices@[i];
            Some(
                (
                    d.id@,
                    "command_retries"@,
                    decimal(d.command_retries as nat),
                    "command retries must be in range [0, 6]"@,
                ),
            )
        },
    }
}

/// Checks that no device retries a command more than 5 times.
pub fn command_retries_valid(rtu: &RTU) -> (res: Result<(), ModelError>)
    ensures
        reports(res, retries_failure(*rtu)),
{
    let n = rtu.devices.len();
    let mut i: usize = 0;
    while i < n
        invariant
            n == rtu.devices@.len(),
            i <= n,
            forall|k: int| 0 <= k < i ==> #[trigger] rtu.devices@[k].command_retries <= 5,
        decreases n - i,
    {
        let dev = &rtu.devices[i];
        if dev.command_retries > 5 {
            proof {
                lemma_first_index_is(rtu.devices@, bad_retries(), i as int);
            }
            let value = decimal_string(dev.command_retries as u64);
            return Err(
                ModelError::validation_error(
                    dev.id.as_str(),
                    ("command_retries", value.as_str()),
                    "command retries must be in range [0, 6]",
                ),
            );
        }
        i = i + 1;
    }
    proof {
        lemma_first_index_none(rtu.devices@, bad_retries());
    }
    Ok(())
}

// ---------------------------------------------------------------- retry delay

/// The predicate "the device's retry delay is below its timeout, or is 2000 ms or more".
pub open spec fn bad_retry_delay() -> spec_fn(Device) -> bool {
    |d: Device| d.retry_delay < d.conn.timeout || d.retry_delay >= 2000
}

/// The rule a device with a bad retry delay breaks.
pub open spec fn retry_delay_rule(timeout: u64) -> Seq<char> {
    "retry delay for this device must be in the range ["@ + decimal(timeout as nat)
        + ", 2000] (units in ms)"@
}

/// The failure of `retry_delay_valid`.
pub open spec fn retry_delay_failure(rtu: RTU) -> Option<Failure> {
    match first_index(rtu.devices@, bad_retry_delay()) {
        None => None,
        Some(i) => {
            let d = rtu.devices@[i];
            Some(
                (
                    d.id@,
                    "retry_delay"@,
                    decimal(d.retry_delay as nat),
                    retry_delay_rule(d.conn.timeout),
                ),
            )
        },
    }
}

/// Checks that each device's retry delay is at least its timeout and below 2000 ms.
pub fn retry_delay_valid(rtu: &RTU) -> (res: Result<(), ModelError>)
    ensures
        reports(res, retry_delay_failure(*rtu)),
{
    let n = rtu.devices.len();
    let mut i: usize = 0;
    while i < n
        invariant
            n == rtu.devices@.len(),
            i <= n,
            forall|k: int|
                0 <= k < i ==> !(#[trigger] rtu.devices@[k].retry_delay < rtu.devices@[k].conn.timeout
                    || rtu.devices@[k].retry_delay >= 2000),
        decreases n - i,
    {
        let dev = &rtu.devices[i];
        if dev.retry_delay < dev.conn.timeout || dev.retry_delay >= 2000 {
            proof {
                lemma_first_index_is(rtu.devices@, bad_retry_delay(), i as int);
            }
            let value = decimal_string(dev.retry_delay);
            let mut rule = String::from_str("retry delay for this device must be in the range [");
            push_decimal(&mut rule, dev.conn.timeout);
            rule.append(", 2000] (units in ms)");
            return Err(
                ModelError::validation_error(
                    dev.id.as_str(),
                    ("retry_delay", value.as_str()),
                    rule.as_str(),
                ),
            );
        }
        i = i + 1;
    }
    proof {
        lemma_first_index_none(rtu.devices@, bad_retry_delay());
    }
    Ok(())
}

// ---------------------------------------------------------------- all of them

/// The failure of `all_validators`: that of the first validator that fails, in the
/// order ids, whitespace, serial port, baudrate, timeout, retries, retry delay.
pub open spec fn rtu_failure(rtu: RTU) -> Option<Failure> {
    if unique_ids_failure(rtu) is Some {
        unique_ids_failure(rtu)
    } else if whitespace_failure(rtu) is Some {
        whitespace_failure(rtu)
    } else if serial_port_failure(rtu) is Some {
        serial_port_failure(rtu)
    } else if baudrate_failure(rtu) is Some {
        baudrate_failure(rtu)
    } else if timeout_failure(rtu) is Some {
        timeout_failure(rtu)
    } else if retries_failure(rtu) is Some {
        retries_failure(rtu)
    } else {
        retry_delay_failure(rtu)
    }
}

/// Runs every validator, returning the error of the first one that fails.
pub fn all_validators(rtu: &RTU) -> (res: Result<(), ModelError>)
    ensures
        reports(res, rtu_failure(*rtu)),
{
    devices_have_unique_ids(rtu)?;
    id_has_no_whitespace(rtu)?;
    serial_port_is_valid(rtu)?;
    controller_baudrate_is_valid(rtu)?;
    timeout_valid(rtu)?;
    command_retries_valid(rtu)?;
    retry_delay_valid(rtu)?;
    Ok(())
}

/// An RTU passes validation exactly when it passes every single validator.
pub proof fn lemma_rtu_valid_iff_each_valid(rtu: RTU)
    ensures
        rtu_failure(rtu) is None <==> {
            &&& unique_ids_failure(rtu) is None
            &&& whitespace_failure(rtu) is None
            &&& serial_port_failure(rtu) is None
            &&& baudrate_failure(rtu) is None
            &&& timeout_failure(rtu) is None
            &&& retries_failure(rtu) is None
            &&& retry_delay_failure(rtu) is None
        },
{
}

impl RTU {
    /// Runs all the validators. Returns the error of the first one that fails.
    pub fn validate(&self) -> (res: Result<(), ModelError>)
        ensures
            reports(res, rtu_failure(*self)),
    {
        all_validators(self)
    }
}

} // verus!
