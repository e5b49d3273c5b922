//! The accept-higher phase.
//!
//! Once its epoch is known, the process `my_index` accepts connections from
//! its higher peers `my_index + 1 .. n` until it holds one socket to each.
//! On each connection it reads the peer's index, then sends its own epoch and
//! reads the peer's, and decides:
//!
//! * the peer's slot is already filled: that peer restarted, so this
//!   generation is doomed; the attempt fails with `Reconnect`;
//! * the peer's epoch is smaller: the peer is doomed; the socket is dropped;
//! * the peer's epoch is greater: this process is doomed; the attempt fails;
//! * they are equal: the socket fills the peer's slot.
//!
//! An index outside `my_index + 1 .. n` names no higher peer: the socket is
//! dropped, as for any handshake that could not be read.

use vstd::prelude::*;
use crate::epoch::{Epoch, epoch_lt};
use crate::error::CreateSocketsError;

verus! {

/// The slot of peer `peer_index` among the higher peers of `my_index` in a
/// cluster of `n`, or `None` where it names no higher peer.
pub open spec fn slot_of(my_index: nat, n: nat, peer_index: u64) -> Option<int> {
    if my_index < peer_index && peer_index < n {
        Some(peer_index - my_index - 1)
    } else {
        None
    }
}

/// The decision on the peer index read from a new connection, given the
/// slots filled so far: `Ok(true)` to go on with the epoch exchange,
/// `Ok(false)` to drop the socket.
pub open spec fn index_outcome<S>(my_index: nat, n: nat, slots: Seq<Option<S>>, peer_index: u64) -> Result<
    bool,
    CreateSocketsError,
> {
    match slot_of(my_index, n, peer_index) {
        None => Ok(false),
        Some(j) => if slots[j] is Some {
            Err(CreateSocketsError::Reconnect { peer_index: peer_index as usize })
        } else {
            Ok(true)
        },
    }
}

/// The decision after the epoch exchange with an admitted peer:
/// `Ok(true)` to keep the socket, `Ok(false)` to drop it.
pub open spec fn accept_outcome(my_epoch: Epoch, peer_epoch: Epoch, peer_index: usize) -> Result<
    bool,
    CreateSocketsError,
> {
    if epoch_lt(peer_epoch, my_epoch) {
        Ok(false)
    } else if epoch_lt(my_epoch, peer_epoch) {
        Err(CreateSocketsError::EpochMismatch { peer_index, peer_epoch, my_epoch })
    } else {
        Ok(true)
    }
}

/// State of the accept-higher phase of the process `my_index`.
pub struct HigherAcceptor<S> {
    my_index: usize,
    my_epoch: Epoch,
    n_peers: usize,
    slots: Vec<Option<S>>,
    /// The epoch each filled slot's peer sent.
    received: Ghost<Seq<Epoch>>,
}

impl<S> HigherAcceptor<S> {
    /// The index of this process.
    pub closed spec fn spec_my_index(&self) -> nat {
        self.my_index as nat
    }

    /// The number of processes in the cluster.
    pub closed spec fn spec_n_peers(&self) -> nat {
        self.n_peers as nat
    }

    /// The epoch of this process.
    pub closed spec fn spec_epoch(&self) -> Epoch {
        self.my_epoch
    }

    /// One slot per higher peer, `my_index + 1` first.
    pub closed spec fn spec_slots(&self) -> Seq<Option<S>> {
        self.slots@
    }

    /// The epoch that the peer of each filled slot sent.
    pub closed spec fn spec_received(&self) -> Seq<Epoch> {
        self.received@
    }

    /// Whether every higher peer's slot is filled.
    pub open spec fn spec_complete(&self) -> bool {
        forall|j: int| 0 <= j < self.spec_slots().len() ==> (#[trigger] self.spec_slots()[j]) is Some
    }

    /// The state's invariant: one slot per higher peer, and each filled
    /// slot's peer sent this process's epoch.
    pub open spec fn wf(&self) -> bool {
        &&& self.spec_my_index() < self.spec_n_peers()
        &&& self.spec_slots().len() == self.spec_n_peers() - self.spec_my_index() - 1
        &&& self.spec_received().len() == self.spec_slots().len()
        &&& forall|j: int|
            0 <= j < self.spec_slots().len() && (#[trigger] self.spec_slots()[j]) is Some
                ==> self.spec_received()[j] == self.spec_epoch()
    }

    /// The acceptor of process `my_index` in a cluster of `n_peers`, with
    /// epoch `my_epoch` and every slot empty.
    ///
    /// The highest process has no higher peer: its acceptor is complete from
    /// the start and never accepts.
    pub fn new(my_index: usize, my_epoch: Epoch, n_peers: usize) -> (r: HigherAcceptor<S>)
        requires
            my_index < n_peers,
        ensures
            r.wf(),
            r.spec_my_index() == my_index,
            r.spec_n_peers() == n_peers,
            r.spec_epoch() == my_epoch,
            forall|j: int| 0 <= j < r.spec_slots().len() ==> (#[trigger] r.spec_slots()[j]) is None,
            r.spec_complete() <==> my_index == n_peers - 1,
    {
        let count = n_peers - my_index - 1;
        let mut slots: Vec<Option<S>> = Vec::new();
        while slots.len() < count
            invariant
                slots@.len() <= count,
                forall|j: int| 0 <= j < slots@.len() ==> (#[trigger] slots@[j]) is None,
            decreases count - slots@.len(),
        {
            slots.push(None);
        }
        let r = HigherAcceptor {
            my_index,
            my_epoch,
            n_peers,
            slots,
            received: Ghost(Seq::new(count as nat, |j: int| my_epoch)),
        };
        assert(r.spec_complete() ==> my_index == n_peers - 1) by {
            if my_index < n_peers - 1 {
                assert(r.spec_slots()[0] is None);
            }
        }
        r
    }

    /// The epoch of this process.
    pub fn epoch(&self) -> (r: Epoch)
        ensures
            r == self.spec_epoch(),
    {
        self.my_epoch
    }

    /// Whether every higher peer's slot is filled.
    pub fn is_complete(&self) -> (r: bool)
        requires
            self.wf(),
        ensures
            r == self.spec_complete(),
    {
        let mut j: usize = 0;
        while j < self.slots.len()
            invariant
                j <= self.slots@.len(),
                forall|k: int| 0 <= k < j ==> (#[trigger] self.slots@[k]) is Some,
            decreases self.slots@.len() - j,
        {
            if self.slots[j].is_none() {
                return false;
            }
            j = j + 1;
        }
        true
    }

    /// Decides on the index `peer_index` read from a new connection, before
    /// any epoch is exchanged on it.
    pub fn check_index(&self, peer_index: u64) -> (r: Result<bool, CreateSocketsError>)
        requires
            self.wf(),
        ensures
            r == index_outcome(self.spec_my_index(), self.spec_n_peers(), self.spec_slots(), peer_index),
    {
        if (self.my_index as u64) < peer_index && peer_index < (self.n_peers as u64) {
            let j = (peer_index as usize) - self.my_index - 1;
            if self.slots[j].is_some() {
                Err(CreateSocketsError::Reconnect { peer_index: peer_index as usize })
            } else {
                Ok(true)
            }
        } else {
            Ok(false)
        }
    }

    /// Takes the outcome of the epoch exchange with the admitted peer
    /// `peer_index`: this process sent its epoch, the peer sent `peer_epoch`,
    /// and `sock` is the connection.
    ///
    /// The socket fills the peer's slot exactly when the result is
    /// `Ok(true)`; every other slot stays as it was.
    pub fn on_epoch(&mut self, peer_index: u64, peer_epoch: Epoch, sock: S) -> (r: Result<
        bool,
        CreateSocketsError,
    >)
        requires
            old(self).wf(),
            index_outcome(old(self).spec_my_index(), old(self).spec_n_peers(), old(self).spec_slots(), peer_index)
                == Ok::<bool, CreateSocketsError>(true),
        ensures
            final(self).wf(),
            final(self).spec_my_index() == old(self).spec_my_index(),
            final(self).spec_n_peers() == old(self).spec_n_peers(),
            final(self).spec_epoch() == old(self).spec_epoch(),
            r == accept_outcome(old(self).spec_epoch(), peer_epoch, peer_index as usize),
            r == Ok::<bool, CreateSocketsError>(true) ==> final(self).spec_slots() == old(self).spec_slots().update(
                slot_of(old(self).spec_my_index(), old(self).spec_n_peers(), peer_index)->0,
                Some(sock),
            ),
            r == Ok::<bool, CreateSocketsError>(true) ==> final(self).spec_received() == old(self).spec_received().update(
                slot_of(old(self).spec_my_index(), old(self).spec_n_peers(), peer_index)->0,
                peer_epoch,
            ),
            r != Ok::<bool, CreateSocketsError>(true) ==> final(self).spec_slots() == old(self).spec_slots(),
    {
        match peer_epoch.compare(&self.my_epoch) {
            std::cmp::Ordering::Less => Ok(false),
            std::cmp::Ordering::Greater => Err(
                CreateSocketsError::EpochMismatch {
                    peer_index: peer_index as usize,
                    peer_epoch,
                    my_epoch: self.my_epoch,
                },
            ),
            std::cmp::Ordering::Equal => {
                let j = (peer_index as usize) - self.my_index - 1;
                self.slots.set(j, Some(sock));
                self.received = Ghost(self.received@.update(j as int, peer_epoch));
                Ok(true)
            },
        }
    }

    /// The sockets to peers `my_index + 1 .. n`, in order, once every slot is
    /// filled.
    pub fn into_sockets(self) -> (r: Vec<S>)
        requires
            self.wf(),
            self.spec_complete(),
        ensures
            r@.len() == self.spec_slots().len(),
            forall|j: int| 0 <= j < r@.len() ==> self.spec_slots()[j] == Some(#[trigger] r@[j]),
    {
        let ghost slots0 = self.slots@;
        let mut slots = self.slots;
        let mut r: Vec<S> = Vec::new();
        while slots.len() > 0
            invariant
                r@.len() + slots@.len() == slots0.len(),
                forall|j: int| 0 <= j < r@.len() ==> slots0[j] == Some(#[trigger] r@[j]),
                forall|j: int| 0 <= j < slots@.len() ==> #[trigger] slots@[j] == slots0[r@.len() + j],
                forall|j: int| 0 <= j < slots0.len() ==> (#[trigger] slots0[j]) is Some,
            decreases slots@.len(),
        {
            let ghost before = slots@;
            let first = slots.remove(0);
            assert(first == slots0[r@.len() as int]);
            match first {
                Some(s) => r.push(s),
                None => {},
            }
            assert forall|j: int| 0 <= j < slots@.len() implies #[trigger] slots@[j] == slots0[r@.len() + j] by {
                assert(slots@[j] == before[j + 1]);
            }
        }
        r
    }
}

} // verus!
