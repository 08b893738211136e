//! A device: something on a controller that can be polled and set.
use vstd::prelude::*;

use crate::model::Connection;
use crate::state::DeviceState;

verus! {

/// A digital representation of a device.
///
/// Devices are not controllers. They belong to controllers: each relay on a relay
/// board is its own device, while one PID controller may control one thermometer
/// device.
#[derive(Debug, Clone)]
pub struct Device {
    /// The ID of the device, must be unique among all devices on all RTUs.
    pub id: String,
    /// A pretty name, for display purposes.
    pub name: String,
    /// Amount of times to retry an update/enact if it fails, in the range [0, 5].
    pub command_retries: u8,
    /// Delay (ms) between retries if there's a failure.
    pub retry_delay: u64,
    /// Connection details for the device.
    pub conn: Connection,
    /// The state of the device. Different devices use different parts of it.
    pub state: DeviceState,
}

/// What to do after one attempt of an update or enact on a device.
#[derive(Debug, PartialEq, Eq, Structural, Clone, Copy)]
pub enum RetryStep {
    /// The attempt succeeded: report success.
    Finished,
    /// The last allowed attempt failed: report its error.
    GiveUp,
    /// Wait this many milliseconds, then try again.
    Retry { delay_ms: u64 },
}

/// The step taken after attempt number `attempt` (counting from 1) of a device
/// allowing `retries` retries with `delay` milliseconds between them.
pub open spec fn retry_step(retries: u8, delay: u64, attempt: int, succeeded: bool) -> RetryStep {
    if succeeded {
        RetryStep::Finished
    } else if attempt >= retries + 1 {
        RetryStep::GiveUp
    } else {
        RetryStep::Retry { delay_ms: delay }
    }
}

impl Device {
    /// The number of attempts an update or enact gets: one plus the retries.
    pub fn total_attempts(&self) -> (n: u8)
        requires
            self.command_retries < 255,
        ensures
            n == self.command_retries + 1,
    {
        self.command_retries + 1
    }

    /// Decides what follows attempt number `attempt` (counting from 1) of an update
    /// or enact, given whether it succeeded.
    pub fn after_attempt(&self, attempt: u8, succeeded: bool) -> (step: RetryStep)
        requires
            self.command_retries < 255,
            1 <= attempt <= self.command_retries + 1,
        ensures
            step == retry_step(self.command_retries, self.retry_delay, attempt as int, succeeded),
    {
        if succeeded {
            RetryStep::Finished
        } else if attempt == self.command_retries + 1 {
            RetryStep::GiveUp
        } else {
            RetryStep::Retry { delay_ms: self.retry_delay }
        }
    }
}

/// The attempts an update or enact makes when the attempts have the outcomes
/// `outcomes`, from attempt number `attempt` on, following `retry_step`: the number
/// of the last attempt made, and whether it succeeded.
pub open spec fn attempts_run(retries: u8, delay: u64, outcomes: Seq<bool>, attempt: nat) -> (nat, bool)
    decreases retries + 1 - attempt,
{
    if attempt < 1 || attempt > retries + 1 || attempt > outcomes.len() {
        (attempt, false)
    } else {
        match retry_step(retries, delay, attempt as int, outcomes[attempt - 1]) {
            RetryStep::Finished => (attempt, true),
            RetryStep::GiveUp => (attempt, false),
            RetryStep::Retry { .. } => attempts_run(retries, delay, outcomes, attempt + 1),
        }
    }
}

/// An update or enact makes at most one attempt more than the retries it is allowed,
/// stops at the first attempt that succeeds, and reports success exactly when one of
/// the attempts it was allowed succeeded.
pub proof fn lemma_attempts_bounded(retries: u8, delay: u64, outcomes: Seq<bool>, attempt: nat)
    requires
        1 <= attempt <= retries + 1,
        outcomes.len() >= retries + 1,
    ensures
        attempt <= attempts_run(retries, delay, outcomes, attempt).0 <= retries + 1,
        attempts_run(retries, delay, outcomes, attempt).1 <==> exists|i: int|
            attempt - 1 <= i < retries + 1 && #[trigger] outcomes[i],
        attempts_run(retries, delay, outcomes, attempt).1 ==> outcomes[
            attempts_run(retries, delay, outcomes, attempt).0 - 1
        ],
    decreases retries + 1 - attempt,
{
    if !outcomes[attempt - 1] && attempt < retries + 1 {
        lemma_attempts_bounded(retries, delay, outcomes, attempt + 1);
        if attempts_run(retries, delay, outcomes, attempt + 1).1 {
            let i = choose|i: int| attempt <= i < retries + 1 && #[trigger] outcomes[i];
            assert(attempt - 1 <= i < retries + 1 && outcomes[i]);
        } else {
            assert forall|i: int| attempt - 1 <= i < retries + 1 implies !#[trigger] outcomes[i] by {
                if i >= attempt {
                    assert(!(attempt <= i < retries + 1 && outcomes[i]));
                }
            }
        }
    } else if outcomes[attempt - 1] {
        assert(outcomes[attempt - 1]);
    }
}

} // verus!
