//! The task watchdog: how it is set up, and whether it is in use.

use vstd::prelude::*;

verus! {

/// Seconds after which a task that does not report is taken for stuck.
pub const TASK_WDT_TIMEOUT_SECS: u32 = 10;

/// The platform's code for something that has been set up before.
pub const ESP_ERR_INVALID_STATE: i32 = 0x103;

/// How the watchdog is configured.
#[derive(Debug, Clone, Copy, PartialEq, Eq, Structural)]
pub struct WatchdogConfig {
    pub timeout_ms: u32,
    /// Cores whose idle task is watched.
    pub idle_core_mask: u32,
    /// Whether a stuck task resets the chip.
    pub trigger_panic: bool,
}

/// A timeout in milliseconds; one that does not fit is the longest there is.
pub open spec fn timeout_millis(timeout_secs: u32) -> int {
    if 1000 * timeout_secs > u32::MAX {
        u32::MAX as int
    } else {
        1000 * timeout_secs
    }
}

/// The configuration for a timeout in seconds: no idle task is watched, and a stuck task resets
/// the chip. A timeout that does not fit is the longest there is.
pub fn configuration(timeout_secs: u32) -> (config: WatchdogConfig)
    ensures
        config.timeout_ms == timeout_millis(timeout_secs),
        config.idle_core_mask == 0,
        config.trigger_panic,
{
    let timeout_ms: u32 = match timeout_secs.checked_mul(1000) {
        Some(millis) => millis,
        None => u32::MAX,
    };
    WatchdogConfig { timeout_ms, idle_core_mask: 0, trigger_panic: true }
}

/// Whether the watchdog is in use: tasks subscribe to it and feed it only then.
#[derive(Debug, Clone, Copy)]
pub struct TaskWatchdog {
    pub enabled: bool,
}

/// What is left to do to set the watchdog up.
#[derive(Debug, Clone, Copy, PartialEq, Eq, Structural)]
pub enum InitStep {
    /// Nothing.
    Done,
    /// It was set up before: give it the configuration.
    Reconfigure,
}

impl TaskWatchdog {
    /// The watchdog after the outcome of setting it up, and what is left to do.
    pub open spec fn after_init(self, outcome: Result<(), i32>) -> (TaskWatchdog, InitStep) {
        match outcome {
            Ok(_) => (TaskWatchdog { enabled: true }, InitStep::Done),
            Err(code) => (
                self,
                if code == ESP_ERR_INVALID_STATE {
                    InitStep::Reconfigure
                } else {
                    InitStep::Done
                },
            ),
        }
    }

    pub fn new() -> (watchdog: TaskWatchdog)
        ensures
            !watchdog.enabled,
    {
        TaskWatchdog { enabled: false }
    }

    /// Goes on after the outcome of setting the watchdog up.
    pub fn initialized(&mut self, outcome: Result<(), i32>) -> (step: InitStep)
        ensures
            (*final(self), step) == old(self).after_init(outcome),
    {
        match outcome {
            Ok(()) => {
                self.enabled = true;
                InitStep::Done
            },
            Err(code) => if code == ESP_ERR_INVALID_STATE {
                InitStep::Reconfigure
            } else {
                InitStep::Done
            },
        }
    }

    /// Goes on after a watchdog that was set up before was given the configuration: if it did not
    /// take it, it is used as it is.
    pub fn reconfigured(&mut self)
        ensures
            final(self).enabled,
    {
        self.enabled = true;
    }
}

/// Whether a task is under the watchdog.
#[derive(Debug, Clone, Copy)]
pub struct Watch {
    pub subscribed: bool,
}

/// What a task does with the watchdog before a call.
#[derive(Debug, Clone, Copy, PartialEq, Eq, Structural)]
pub enum WatchStep {
    /// Put itself under the watchdog.
    Subscribe,
    /// Show that it is alive.
    Feed,
    /// Leave the watchdog.
    Unsubscribe,
    Nothing,
}

impl Watch {
    /// The task during a call that is `watched` or not, and what it does before the call.
    pub open spec fn during(self, watched: bool) -> (Watch, WatchStep) {
        (
            Watch { subscribed: watched },
            match (self.subscribed, watched) {
                (false, true) => WatchStep::Subscribe,
                (true, true) => WatchStep::Feed,
                (true, false) => WatchStep::Unsubscribe,
                (false, false) => WatchStep::Nothing,
            },
        )
    }

    /// A task that is not under the watchdog yet.
    pub fn new() -> (watch: Watch)
        ensures
            !watch.subscribed,
    {
        Watch { subscribed: false }
    }

    /// Comes before a call that is `watched` or not: the task is under the watchdog exactly
    /// during calls that are, and shows that it is alive before each of them.
    pub fn before(&mut self, watched: bool) -> (step: WatchStep)
        ensures
            (*final(self), step) == old(self).during(watched),
    {
        let step = match (self.subscribed, watched) {
            (false, true) => WatchStep::Subscribe,
            (true, true) => WatchStep::Feed,
            (true, false) => WatchStep::Unsubscribe,
            (false, false) => WatchStep::Nothing,
        };
        self.subscribed = watched;
        step
    }
}

/// The watchdog's time in milliseconds is a thousand times that in seconds, as far as 32 bits go.
pub proof fn law_timeout_is_in_milliseconds(timeout_secs: u32)
    ensures
        timeout_secs <= 4_294_967 ==> timeout_millis(timeout_secs) == 1000 * timeout_secs,
        timeout_secs > 4_294_967 ==> timeout_millis(timeout_secs) == 4_294_967_295,
        timeout_millis(TASK_WDT_TIMEOUT_SECS) == 10_000,
{
}

/// The watchdog is in use once it was set up. Where that failed it is given the configuration
/// exactly if it was set up before, which the code 0x103 says; any other failure leaves it as it
/// was.
pub proof fn law_watchdog_is_used_once_set_up(w: TaskWatchdog, code: i32)
    ensures
        w.after_init(Ok(())).0.enabled,
        w.after_init(Ok(())).1 == InitStep::Done,
        w.after_init(Err(code)).0 == w,
        w.after_init(Err(code)).1 == InitStep::Reconfigure <==> code == 0x103,
{
}

/// A task joins the watchdog before the first of the calls that are watched, shows that it is
/// alive before each further one, and leaves before a call that is not; it never leaves twice.
pub proof fn law_task_joins_and_leaves_the_watchdog(w: Watch, first: bool, second: bool)
    ensures
        ({
            let joined = w.during(first).0;
            let step = joined.during(second).1;
            &&& step == WatchStep::Feed <==> first && second
            &&& step == WatchStep::Subscribe <==> !first && second
            &&& step == WatchStep::Unsubscribe <==> first && !second
            &&& step == WatchStep::Nothing <==> !first && !second
            &&& !w.subscribed ==> w.during(true).1 == WatchStep::Subscribe
            &&& w.subscribed ==> w.during(false).1 == WatchStep::Unsubscribe
        }),
{
}

} // verus!
