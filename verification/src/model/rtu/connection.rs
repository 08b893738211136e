//! Connection details of a device.
use vstd::prelude::*;

use std::time::Duration;

use crate::controllers::Controller;

verus! {

/// The duration of `ms` milliseconds, as `Duration::from_millis` makes it.
pub uninterp spec fn millis_duration(ms: u64) -> Duration;

/// Makes a duration of `ms` milliseconds (`Duration::from_millis`).
#[verifier::external_body]
fn duration_from_millis(ms: u64) -> (d: Duration)
    ensures
        d == millis_duration(ms),
{
    Duration::from_millis(ms)
}

/// Holds the connection details for a device.
#[derive(Debug, Clone)]
pub struct Connection {
    /// The serial port the device runs on, probably `/dev/ttyUSB0`.
    pub port: String,
    pub baudrate: usize,
    /// Timeout of a serial exchange, in milliseconds.
    pub timeout: u64,
    /// The device's specific address (relay number, etc.), 0 if it has none.
    pub addr: u8,
    /// The address of the controller on the RS485 bus.
    pub controller_addr: u8,
    /// The type of controller the device runs on.
    pub controller: Controller,
}

impl Connection {
    /// Gets the port as a `String`.
    pub fn port(&self) -> (s: String)
        ensures
            s@ == self.port@,
    {
        self.port.clone()
    }

    /// Gets the device address.
    pub fn addr(&self) -> (a: u8)
        ensures
            a == self.addr,
    {
        self.addr
    }

    /// Gets the controller address.
    pub fn controller_addr(&self) -> (a: u8)
        ensures
            a == self.controller_addr,
    {
        self.controller_addr
    }

    /// Gets the controller type.
    pub fn controller(&self) -> (c: &Controller)
        ensures
            *c == self.controller,
    {
        &self.controller
    }

    /// Gets the baudrate.
    pub fn baudrate(&self) -> (b: &usize)
        ensures
            *b == self.baudrate,
    {
        &self.baudrate
    }

    /// Gets the timeout as a `Duration`.
    pub fn timeout(&self) -> (d: Duration)
        ensures
            d == millis_duration(self.timeout),
    {
        duration_from_millis(self.timeout)
    }
}

} // verus!
