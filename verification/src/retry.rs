use vstd::prelude::*;

verus! {

/// The retry budget the orchestrator uses when none is configured.
pub const DEFAULT_RETRY_BUDGET: u32 = 3;

/// The orchestrator's reaction to transaction outcomes: a serialization
/// conflict rolls the whole transaction back and is retried, up to a fixed
/// budget of attempts; after that it is surfaced as `Conflict`. Any other
/// failure is surfaced at once.
#[derive(Clone, Copy, Debug, PartialEq, Eq, Structural)]
pub struct RetryPolicy {
    pub budget: u32,
}

impl RetryPolicy {
    /// A policy with the given budget of attempts.
    pub fn new(budget: u32) -> (r: Self)
        ensures
            r.budget == budget,
    {
        RetryPolicy { budget }
    }

    /// Whether a failed attempt is to be run again: only a serialization
    /// conflict is, and only while the attempts made stay below the budget.
    pub fn should_retry(&self, attempts_made: u32, conflict: bool) -> (r: bool)
        ensures
            r == (conflict && attempts_made < self.budget),
    {
        conflict && attempts_made < self.budget
    }
}

} // verus!
