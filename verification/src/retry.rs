//! The bounded-or-unbounded retry policy used for every transient, fallible
//! operation: try at least once; on failure, retry while the attempt budget
//! (if there is one) is not exhausted; otherwise give up and surface the
//! last failure.
//!
//! A driver performing a retried operation waits a fixed delay between
//! attempts; the delay is configuration the policy itself does not consume,
//! so it does not appear here.

use vstd::prelude::*;

verus! {

/// Whether a count of recorded failures is consistent with an attempt
/// budget: failures are only counted while a budget is in force, and once
/// a failure has been counted the budget was not yet exhausted when it was.
pub open spec fn failures_ok(failures: nat, max_attempts: Option<nat>) -> bool {
    match max_attempts {
        Option::None => failures == 0,
        Option::Some(max) => failures == 0 || failures < max,
    }
}

/// Whether one more attempt is allowed after `failures` failures have
/// already been counted and another has just occurred.
pub open spec fn retries_left(failures: nat, max_attempts: Option<nat>) -> bool {
    match max_attempts {
        Option::None => true,
        Option::Some(max) => failures + 1 < max,
    }
}

/// The attempt budget of one retried operation. `max_attempts: None` means
/// the operation is retried without limit.
#[derive(Debug, Clone, Copy, PartialEq, Eq)]
pub struct RetryBudget {
    pub max_attempts: Option<usize>,
    pub failures: usize,
}

impl RetryBudget {
    /// Consistency of the failure count with the budget.
    pub open spec fn wf(self) -> bool {
        failures_ok(self.failures as nat, opt_nat(self.max_attempts))
    }

    /// A fresh budget: no failures counted yet.
    pub fn new(max_attempts: Option<usize>) -> (budget: RetryBudget)
        ensures
            budget.max_attempts == max_attempts,
            budget.failures == 0,
            budget.wf(),
    {
        RetryBudget { max_attempts, failures: 0 }
    }

    /// Starts a fresh round of attempts under the same budget.
    pub fn reset(&mut self)
        ensures
            final(self).max_attempts == old(self).max_attempts,
            final(self).failures == 0,
            final(self).wf(),
    {
        self.failures = 0;
    }

    /// Records that an attempt has failed and decides whether another may be
    /// made: always under an unbounded budget (where failures need not be
    /// counted), and otherwise exactly while the count stays under the cap.
    pub fn retry_after_failure(&mut self) -> (retry: bool)
        requires
            old(self).wf(),
        ensures
            retry ==> final(self).wf(),
            final(self).max_attempts == old(self).max_attempts,
            old(self).max_attempts is None ==> retry && *final(self) == *old(self),
            old(self).max_attempts matches Some(max) ==> final(self).failures == old(
                self,
            ).failures + 1 && (retry <==> retries_left(
                old(self).failures as nat,
                opt_nat(old(self).max_attempts),
            )),
    {
        match self.max_attempts {
            Option::None => true,
            Option::Some(max) => {
                self.failures = self.failures + 1;
                self.failures < max
            },
        }
    }
}

/// An attempt cap as an unbounded integer.
pub open spec fn opt_nat(o: Option<usize>) -> Option<nat> {
    match o {
        Option::None => Option::None,
        Option::Some(m) => Option::Some(m as nat),
    }
}

} // verus!
