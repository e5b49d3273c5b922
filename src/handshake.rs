//! How the two ends of one connection decide.
//!
//! On a connection the listener sends its epoch `l`, and the dialer, holding
//! `d` (or nothing yet), sends back `reply_epoch_of(d, l)`. Both ends then
//! compare the two values, each from its own side, so their decisions fit
//! together: they keep the socket together, or exactly one of them learns it
//! is doomed while the other drops the socket and goes on.

use vstd::prelude::*;
use crate::accept::accept_outcome;
use crate::dial::{DialStep, dial_outcome, reply_epoch_of};
use crate::epoch::{Epoch, epoch_lt};
use crate::error::CreateSocketsError;

verus! {

/// The ends of one connection decide consistently. The dialer keeps the
/// socket exactly when the listener does, and then both hold the epoch that
/// went each way. The dialer dials again exactly when the listener fails as
/// doomed. The dialer fails as doomed exactly when the listener drops the
/// socket.
pub proof fn lemma_ends_agree(
    dialer_epoch: Option<Epoch>,
    listener_epoch: Epoch,
    dialer_index: usize,
    listener_index: usize,
)
    ensures
        ({
            let reply = reply_epoch_of(dialer_epoch, listener_epoch);
            let dialed = dial_outcome(dialer_epoch, listener_epoch, listener_index);
            let accepted = accept_outcome(listener_epoch, reply, dialer_index);
            &&& (dialed == Ok::<DialStep, CreateSocketsError>(DialStep::Connected)) <==> (accepted
                == Ok::<bool, CreateSocketsError>(true))
            &&& dialed == Ok::<DialStep, CreateSocketsError>(DialStep::Connected) ==> reply
                == listener_epoch
            &&& (dialed == Ok::<DialStep, CreateSocketsError>(DialStep::Redial)) <==> (accepted
                is Err)
            &&& (dialed is Err) <==> (accepted == Ok::<bool, CreateSocketsError>(false))
        }),
{
}

/// A peer whose epoch is smaller than this process's is turned away without
/// failing this process's attempt: as a dialer it is dropped by the
/// listener, and as a listener it is dialed again.
pub proof fn lemma_older_peer_turned_away(my_epoch: Epoch, peer_epoch: Epoch, peer_index: usize)
    requires
        epoch_lt(peer_epoch, my_epoch),
    ensures
        accept_outcome(my_epoch, peer_epoch, peer_index) == Ok::<bool, CreateSocketsError>(false),
        dial_outcome(Some(my_epoch), peer_epoch, peer_index) == Ok::<DialStep, CreateSocketsError>(
            DialStep::Redial,
        ),
{
}

/// A peer whose epoch is greater than this process's ends this process's
/// attempt with `EpochMismatch`, on either side of the connection.
pub proof fn lemma_newer_peer_ends_attempt(my_epoch: Epoch, peer_epoch: Epoch, peer_index: usize)
    requires
        epoch_lt(my_epoch, peer_epoch),
    ensures
        accept_outcome(my_epoch, peer_epoch, peer_index) == Err::<bool, CreateSocketsError>(
            CreateSocketsError::EpochMismatch { peer_index, peer_epoch, my_epoch },
        ),
        dial_outcome(Some(my_epoch), peer_epoch, peer_index) == Err::<DialStep, CreateSocketsError>(
            CreateSocketsError::EpochMismatch { peer_index, peer_epoch, my_epoch },
        ),
{
}

} // verus!
