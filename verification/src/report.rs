//! Pass/fail bookkeeping for on-device self-checks.
//!
//! The device runs its checks without a test harness; this type counts
//! outcomes so a runner can blink or print a summary afterwards.

use vstd::prelude::*;

verus! {

/// Counts of checks run and of their outcomes.
pub struct TestResults {
    pub passed: u32,
    pub failed: u32,
    pub total: u32,
}

impl TestResults {
    /// Every check counted once, as either passed or failed.
    pub open spec fn wf(&self) -> bool {
        self.passed + self.failed == self.total
    }

    /// No checks recorded yet.
    pub fn new() -> (r: TestResults)
        ensures
            r.wf(),
            r.passed == 0,
            r.failed == 0,
            r.total == 0,
    {
        TestResults { passed: 0, failed: 0, total: 0 }
    }

    /// Record one check; reporting its name is the runner's concern.
    pub fn check(&mut self, condition: bool)
        requires
            old(self).wf(),
            old(self).total < u32::MAX,
        ensures
            final (self).wf(),
            final (self).total == old(self).total + 1,
            final (self).passed == old(self).passed + if condition {
                1int
            } else {
                0int
            },
            final (self).failed == old(self).failed + if condition {
                0int
            } else {
                1int
            },
    {
        self.total = self.total + 1;
        if condition {
            self.passed = self.passed + 1;
        } else {
            self.failed = self.failed + 1;
        }
    }

    /// Record one equality check between two comparable values.
    pub fn check_eq<T: PartialEq>(&mut self, left: T, right: T)
        requires
            old(self).wf(),
            old(self).total < u32::MAX,
        ensures
            final (self).wf(),
            final (self).total == old(self).total + 1,
            final (self).passed + final (self).failed == old(self).passed + old(self).failed + 1,
            final (self).passed >= old(self).passed,
            final (self).failed >= old(self).failed,
    {
        let ok = left == right;
        self.check(ok);
    }

    /// Whether every check so far passed.
    pub fn all_passed(&self) -> (r: bool)
        ensures
            r == (self.failed == 0),
    {
        self.failed == 0
    }
}

} // verus!
