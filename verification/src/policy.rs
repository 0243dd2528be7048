//! Configuration of a cell, fixed when the cell is created.

use vstd::prelude::*;

verus! {

/// Milliseconds slept between two attempts unless the caller chooses otherwise.
pub const DEFAULT_INTERVAL_MS: u64 = 500;

/// Number of observation attempts a reader makes before giving up.
pub const DEFAULT_MAX_ATTEMPTS: usize = 20;

/// The shape in which a reader receives the published value.
#[derive(Clone, Copy, Debug, PartialEq, Eq, Structural)]
pub enum ExposureMode {
    /// A reference to the stored value itself.
    Direct,
    /// A reference-counted handle, created when the value is published.
    Shared,
}

/// How long and how often a reader waits for a value.
#[derive(Clone, Copy, Debug, PartialEq, Eq, Structural)]
pub struct WaitPolicy {
    pub interval_ms: u64,
    pub max_attempts: usize,
}

impl WaitPolicy {
    /// A policy is well formed when it sleeps for a positive time and
    /// observes at least once.
    pub open spec fn wf(self) -> bool {
        self.interval_ms > 0 && self.max_attempts > 0
    }

    /// The longest time, in milliseconds, a reader sleeps: one interval after
    /// every attempt but the last.
    pub open spec fn worst_case_wait(self) -> nat {
        if self.max_attempts == 0 {
            0
        } else {
            (self.interval_ms * (self.max_attempts - 1)) as nat
        }
    }

    /// Builds a policy, refusing a zero interval and a zero attempt count.
    pub fn new(interval_ms: u64, max_attempts: usize) -> (r: Option<WaitPolicy>)
        ensures
            r == (if interval_ms > 0 && max_attempts > 0 {
                Some(WaitPolicy { interval_ms, max_attempts })
            } else {
                None
            }),
    {
        if interval_ms > 0 && max_attempts > 0 {
            Some(WaitPolicy { interval_ms, max_attempts })
        } else {
            None
        }
    }

    /// Builds a policy with the given interval and the default attempt count.
    pub fn with_interval(interval_ms: u64) -> (r: Option<WaitPolicy>)
        ensures
            r == (if interval_ms > 0 {
                Some(WaitPolicy { interval_ms, max_attempts: DEFAULT_MAX_ATTEMPTS })
            } else {
                None
            }),
    {
        WaitPolicy::new(interval_ms, DEFAULT_MAX_ATTEMPTS)
    }

    /// Whether the policy is well formed.
    pub fn is_valid(&self) -> (r: bool)
        ensures
            r == self.wf(),
    {
        self.interval_ms > 0 && self.max_attempts > 0
    }

    /// The longest time, in milliseconds, a reader sleeps before it fails.
    pub fn worst_case_wait_ms(&self) -> (r: u128)
        ensures
            r == self.worst_case_wait(),
    {
        if self.max_attempts == 0 {
            0
        } else {
            let sleeps: usize = self.max_attempts - 1;
            slept_ms(self.interval_ms, sleeps)
        }
    }
}

impl Default for WaitPolicy {
    /// Half a second between attempts, twenty attempts.
    fn default() -> (r: WaitPolicy)
        ensures
            r == (WaitPolicy {
                interval_ms: DEFAULT_INTERVAL_MS,
                max_attempts: DEFAULT_MAX_ATTEMPTS,
            }),
            r.wf(),
    {
        WaitPolicy { interval_ms: DEFAULT_INTERVAL_MS, max_attempts: DEFAULT_MAX_ATTEMPTS }
    }
}

/// The time, in milliseconds, taken by `sleeps` sleeps of `interval_ms` each.
pub fn slept_ms(interval_ms: u64, sleeps: usize) -> (r: u128)
    ensures
        r == interval_ms * sleeps,
{
    assert(interval_ms * sleeps <= 0xffff_ffff_ffff_ffff * 0xffff_ffff_ffff_ffff)
        by (nonlinear_arith)
        requires
            0 <= interval_ms <= 0xffff_ffff_ffff_ffff,
            0 <= sleeps <= 0xffff_ffff_ffff_ffff,
    ;
    (interval_ms as u128) * (sleeps as u128)
}

} // verus!
