//! The permission transition that follows a correct answer: hide the stage
//! just passed, wait for the platform to settle, then grant what comes next,
//! each remote operation retried a bounded number of times.
use vstd::prelude::*;

verus! {

/// Failed attempts of one operation that are retried; the next failure escalates.
pub const MAX_RETRIES: usize = 3;

/// Pause before retrying a failed operation, in milliseconds.
pub const RETRY_DELAY_MS: u64 = 8000;

/// Pause between hiding the old stage and granting the next one, in milliseconds.
pub const SETTLE_DELAY_MS: u64 = 10000;

/// What to do after an operation failed `retries` times before this failure.
#[derive(PartialEq, Eq, Structural, Clone, Copy, Debug)]
pub enum RetryDecision {
    RetryAfter(u64),
    Escalate,
}

pub open spec fn spec_next_action(retries: usize) -> RetryDecision {
    if retries >= MAX_RETRIES {
        RetryDecision::Escalate
    } else {
        RetryDecision::RetryAfter(RETRY_DELAY_MS)
    }
}

/// Retry after a fixed delay until the bound is used up, then escalate.
pub fn next_action(retries: usize) -> (r: RetryDecision)
    ensures
        r == spec_next_action(retries),
{
    if retries >= MAX_RETRIES {
        RetryDecision::Escalate
    } else {
        RetryDecision::RetryAfter(RETRY_DELAY_MS)
    }
}

/// A per-user permission change on the platform.
#[derive(PartialEq, Eq, Structural, Clone, Copy, Debug)]
pub enum RemoteOp {
    /// Add a deny-view override for the user on a channel that everyone sees.
    HideChannel(u64),
    /// Delete the user's own override on a channel.
    RemoveOverride(u64),
    /// Add an allow-view override for the user on a channel.
    ShowChannel(u64),
    /// Give the user a role.
    GrantRole(u64),
}

/// An unresolved permission failure of a user, for an operator to clear.
#[derive(PartialEq, Eq, Structural, Clone, Copy, Debug)]
pub enum ErrorFlag {
    Clear,
    PendingRetry,
    HardFailed,
}

/// What the caller does next for a transition.
#[derive(PartialEq, Eq, Structural, Clone, Copy, Debug)]
pub enum Step {
    /// Wait this many milliseconds, then perform the operation and report.
    PerformAfter(u64, RemoteOp),
    /// Tell the operators: this operation failed for good, in the hiding
    /// phase when `revoking`. The transition is over.
    Escalate { user: u64, op: RemoteOp, revoking: bool },
    /// Every operation succeeded and the user now stands on `new_index`.
    /// `won` says whether they finished the game, and if so whether first.
    Finished { user: u64, new_index: usize, won: Option<bool> },
}

/// One user's transition in flight.
pub struct Transition {
    pub user: u64,
    /// Hides the stage that was answered.
    pub revoke: RemoteOp,
    /// The next stage's channel; none when the answered stage was the last.
    pub next_channel: Option<u64>,
    /// What follows the hiding, in order; filled in when the game is won.
    pub grants: Vec<RemoteOp>,
    /// 0 for `revoke`, `i + 1` for `grants[i]`.
    pub pos: usize,
    /// Failures of the current operation so far.
    pub retries: usize,
    /// Whether the game was won, and if so whether first.
    pub won: Option<bool>,
    pub done: bool,
}

impl Transition {
    /// A transition that is still running.
    pub open spec fn running(&self) -> bool {
        !self.done && self.pos <= self.grants@.len() && self.grants@.len() < usize::MAX && self.retries <= MAX_RETRIES
    }

    /// The operation that is due.
    pub open spec fn spec_op(&self) -> RemoteOp {
        if self.pos == 0 {
            self.revoke
        } else {
            self.grants@[self.pos - 1]
        }
    }

    /// The operation that is due.
    pub fn current_op(&self) -> (r: RemoteOp)
        requires
            self.running(),
        ensures
            r == self.spec_op(),
    {
        if self.pos == 0 {
            self.revoke
        } else {
            self.grants[self.pos - 1]
        }
    }

    /// The first step: perform the hiding now.
    pub fn first_step(&self) -> (r: Step)
        requires
            self.running(),
        ensures
            r == Step::PerformAfter(0, self.spec_op()),
    {
        Step::PerformAfter(0, self.current_op())
    }
}

} // verus!
