//! Services open no socket before every network driver has gone through its start.

use vstd::prelude::*;

use crate::system::wdt::TASK_WDT_TIMEOUT_SECS;

verus! {

/// Milliseconds between two looks at the latch.
pub const SLICE_MS: u32 = 50;

/// Milliseconds after which a service goes on without the latch.
pub const MAX_WAIT_MS: u32 = 120_000;

/// The network drivers whose start the services wait for: Wi-Fi and Ethernet.
pub const DRIVER_TASKS: u8 = 2;

/// A wait for the latch, which opens when every network driver has gone through its start.
#[derive(Debug, Clone, Copy)]
pub struct LatchWait {
    /// Milliseconds waited so far.
    pub waited: u32,
}

/// What to do about the latch.
#[derive(Debug, Clone, Copy, PartialEq, Eq, Structural)]
pub enum LatchStep {
    /// Look again after a while.
    Wait { millis: u32 },
    /// Every driver has gone through its start.
    Open,
    /// Not every driver has, but the wait is over.
    GiveUp,
}

impl LatchWait {
    /// What to do when `count` of `expected` drivers have gone through their start.
    pub open spec fn verdict(self, count: u8, expected: u8) -> LatchStep {
        if count >= expected {
            LatchStep::Open
        } else if self.waited >= MAX_WAIT_MS {
            LatchStep::GiveUp
        } else {
            LatchStep::Wait { millis: SLICE_MS }
        }
    }

    /// The wait after a look.
    pub open spec fn looked(self, count: u8, expected: u8) -> int {
        self.waited + match self.verdict(count, expected) {
            LatchStep::Wait { millis } => millis as int,
            _ => 0,
        }
    }

    pub fn new() -> (wait: LatchWait)
        ensures
            wait.waited == 0,
    {
        LatchWait { waited: 0 }
    }

    /// Looks at the latch once.
    pub fn look(&mut self, count: u8, expected: u8) -> (step: LatchStep)
        ensures
            step == old(self).verdict(count, expected),
            final(self).waited == old(self).looked(count, expected),
    {
        if count >= expected {
            LatchStep::Open
        } else if self.waited >= MAX_WAIT_MS {
            LatchStep::GiveUp
        } else {
            self.waited = self.waited + SLICE_MS;
            LatchStep::Wait { millis: SLICE_MS }
        }
    }
}

/// A service that has looked at the latch `looks` times, and waited each time, does not wait
/// again once the longest wait is over: there are at most 2400 looks before it goes on. Between
/// two looks it waits for less than the watchdog's time.
pub proof fn law_latch_wait_is_bounded(wait: LatchWait, looks: nat, count: u8, expected: u8)
    requires
        wait.waited == looks * SLICE_MS,
        wait.verdict(count, expected) is Wait,
    ensures
        looks < 2400,
        wait.verdict(count, expected)->millis < 1000 * TASK_WDT_TIMEOUT_SECS,
{
    assert(looks * SLICE_MS < 2400 * SLICE_MS ==> looks < 2400) by (nonlinear_arith);
}

/// The latch is open exactly when all drivers that are expected have gone through their start. A
/// wait that has not taken two minutes goes on for 50 milliseconds; then the service gives up.
pub proof fn law_latch_opens_for_all_drivers(wait: LatchWait, count: u8, expected: u8)
    ensures
        wait.verdict(count, expected) == LatchStep::Open <==> count >= expected,
        wait.verdict(count, expected) == LatchStep::GiveUp <==> count < expected && wait.waited
            >= 120_000,
        wait.verdict(count, expected) == (LatchStep::Wait { millis: 50 }) <==> count < expected
            && wait.waited < 120_000,
        count < expected && wait.waited < 120_000 ==> wait.looked(count, expected) == wait.waited
            + 50,
        count >= expected || wait.waited >= 120_000 ==> wait.looked(count, expected)
            == wait.waited,
{
}

} // verus!
