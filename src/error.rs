//! Errors that end one bootstrap attempt.

use vstd::prelude::*;
use crate::epoch::Epoch;

verus! {

/// Why a bootstrap attempt failed.
#[derive(Debug, PartialEq, Eq)]
pub enum CreateSocketsError {
    /// The listener could not bind its address, after every retry. Fatal.
    Bind {
        /// The address that was to be bound.
        address: String,
        /// What the last bind reported.
        error: String,
    },
    /// A peer holds a greater epoch than this process: this process belongs to
    /// a doomed generation. Restartable.
    EpochMismatch { peer_index: usize, peer_epoch: Epoch, my_epoch: Epoch },
    /// A higher peer connected a second time in one attempt: a member of this
    /// generation restarted. Restartable.
    Reconnect { peer_index: usize },
}

impl CreateSocketsError {
    /// Whether the error is fatal: only a failed bind is.
    pub open spec fn is_fatal_spec(&self) -> bool {
        self is Bind
    }

    /// Whether the error is not expected to resolve on a retry: only a failed
    /// bind is.
    pub fn is_fatal(&self) -> (r: bool)
        ensures
            r == self.is_fatal_spec(),
    {
        match self {
            CreateSocketsError::Bind { .. } => true,
            _ => false,
        }
    }
}

} // verus!
