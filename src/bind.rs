//! The bounded retry of the listener's bind.
//!
//! After a restart the port may still be held for a while by connections of
//! the previous run. The bind is therefore tried up to [`BIND_MAX_TRIES`]
//! times, with a fixed pause of [`RETRY_BACKOFF_MILLIS`] between tries; when
//! every try failed the attempt fails with the fatal `Bind` error.

use vstd::prelude::*;
use crate::error::CreateSocketsError;

verus! {

/// How many times the bind is tried before giving up.
pub const BIND_MAX_TRIES: u32 = 10;

/// The pause between two tries, of a bind or of a dial, in milliseconds.
pub const RETRY_BACKOFF_MILLIS: u64 = 1000;

/// What to do after a failed bind.
#[derive(Clone, Copy, Debug, PartialEq, Eq, Structural)]
pub enum BindStep {
    /// Try again after the given number of milliseconds.
    RetryAfter(u64),
    /// Every try failed: give up.
    GiveUp,
}

/// The count of failed binds in one attempt.
pub struct BindRetry {
    failures: u32,
}

impl BindRetry {
    /// How many binds have failed so far.
    pub closed spec fn spec_failures(&self) -> nat {
        self.failures as nat
    }

    /// The state's invariant: no more failures than tries.
    pub open spec fn wf(&self) -> bool {
        self.spec_failures() <= BIND_MAX_TRIES
    }

    /// No bind tried yet.
    pub fn new() -> (r: BindRetry)
        ensures
            r.wf(),
            r.spec_failures() == 0,
    {
        BindRetry { failures: 0 }
    }

    /// How many binds have failed so far.
    pub fn failures(&self) -> (r: u32)
        ensures
            r == self.spec_failures(),
    {
        self.failures
    }

    /// Records one failed bind and says whether to try again: after each of
    /// the first nine failures a retry after the fixed pause, after the tenth
    /// none.
    pub fn on_failure(&mut self) -> (r: BindStep)
        requires
            old(self).wf(),
            old(self).spec_failures() < BIND_MAX_TRIES,
        ensures
            final(self).wf(),
            final(self).spec_failures() == old(self).spec_failures() + 1,
            final(self).spec_failures() < BIND_MAX_TRIES ==> r == BindStep::RetryAfter(
                RETRY_BACKOFF_MILLIS,
            ),
            final(self).spec_failures() == BIND_MAX_TRIES ==> r == BindStep::GiveUp,
    {
        self.failures = self.failures + 1;
        if self.failures < BIND_MAX_TRIES {
            BindStep::RetryAfter(RETRY_BACKOFF_MILLIS)
        } else {
            BindStep::GiveUp
        }
    }

    /// The fatal error of a bind of `address` that failed every try, the
    /// last with `error`.
    pub fn give_up(address: String, error: String) -> (r: CreateSocketsError)
        ensures
            r == (CreateSocketsError::Bind { address, error }),
            r.is_fatal_spec(),
    {
        CreateSocketsError::Bind { address, error }
    }
}

} // verus!
