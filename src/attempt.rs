//! One bootstrap attempt, from bind to mesh.
//!
//! An attempt binds the listener (with bounded retries), then learns its
//! epoch (process 0 mints it; the others dial their lower peers), then
//! accepts its higher peers, and ends with the mesh. [`Attempt`] holds the
//! decisions; the caller performs each step it asks for and reports back.
//! Any error ends the attempt: every socket it opened is dropped with it,
//! and the caller retries from scratch unless the error is fatal.

use vstd::prelude::*;
use crate::accept::{HigherAcceptor, accept_outcome, index_outcome, slot_of};
use crate::address::{listen_address, listen_address_of};
use crate::bind::{BIND_MAX_TRIES, BindRetry, BindStep};
use crate::dial::{DialStep, LowerDialer, dial_outcome, reply_epoch_of};
use crate::epoch::Epoch;
use crate::error::CreateSocketsError;
use crate::mesh::finish;

verus! {

/// Where an attempt stands.
#[derive(Clone, Copy, Debug, PartialEq, Eq, Structural)]
pub enum Phase {
    /// The listener is not bound yet.
    Binding,
    /// The lower peers are being dialed.
    Dialing,
    /// The higher peers are being accepted.
    Accepting,
    /// Every peer is connected: the mesh can be taken.
    Done,
}

/// The state of one bootstrap attempt of process `my_index`.
pub struct Attempt<S> {
    my_index: usize,
    addresses: Vec<String>,
    bind: BindRetry,
    bound: bool,
    dialer: LowerDialer<S>,
    acceptor: Option<HigherAcceptor<S>>,
}

impl<S> Attempt<S> {
    /// The index of this process.
    pub closed spec fn spec_my_index(&self) -> nat {
        self.my_index as nat
    }

    /// The addresses of all processes.
    pub closed spec fn spec_addresses(&self) -> Seq<String> {
        self.addresses@
    }

    /// How many binds failed so far.
    pub closed spec fn spec_bind_failures(&self) -> nat {
        self.bind.spec_failures()
    }

    /// Whether the listener is bound.
    pub closed spec fn spec_bound(&self) -> bool {
        self.bound
    }

    /// The connect-lower phase.
    pub closed spec fn spec_dialer(&self) -> LowerDialer<S> {
        self.dialer
    }

    /// The accept-higher phase, once this process knows its epoch.
    pub closed spec fn spec_acceptor(&self) -> Option<HigherAcceptor<S>> {
        self.acceptor
    }

    /// Where the attempt stands.
    pub open spec fn spec_phase(&self) -> Phase {
        if !self.spec_bound() {
            Phase::Binding
        } else if self.spec_acceptor() is None {
            Phase::Dialing
        } else if !self.spec_acceptor()->0.spec_complete() {
            Phase::Accepting
        } else {
            Phase::Done
        }
    }

    /// The epoch of this attempt, once known.
    pub open spec fn spec_epoch(&self) -> Option<Epoch> {
        match self.spec_acceptor() {
            Some(a) => Some(a.spec_epoch()),
            None => None,
        }
    }

    /// The state's invariant: the phases come in order, the dialer and the
    /// acceptor belong to this process, and a process other than 0 accepts
    /// with the epoch it joined while dialing.
    pub open spec fn wf(&self) -> bool {
        let d = self.spec_dialer();
        &&& self.spec_my_index() < self.spec_addresses().len()
        &&& self.spec_bind_failures() < BIND_MAX_TRIES
        &&& d.wf()
        &&& d.spec_my_index() == self.spec_my_index()
        &&& !self.spec_bound() ==> self.spec_acceptor() is None && d.spec_sockets().len() == 0
        &&& (self.spec_bound() && self.spec_acceptor() is None) ==> !d.spec_complete()
        &&& self.spec_acceptor() matches Some(a) ==> {
            &&& self.spec_bound()
            &&& d.spec_complete()
            &&& a.wf()
            &&& a.spec_my_index() == self.spec_my_index()
            &&& a.spec_n_peers() == self.spec_addresses().len()
            &&& self.spec_my_index() > 0 ==> d.spec_epoch() == Some(a.spec_epoch())
        }
    }

    /// A new attempt of process `my_index` among `addresses`, before its bind.
    pub fn new(my_index: usize, addresses: Vec<String>) -> (r: Attempt<S>)
        requires
            my_index < addresses@.len(),
        ensures
            r.wf(),
            r.spec_my_index() == my_index,
            r.spec_addresses() == addresses@,
            r.spec_bind_failures() == 0,
            r.spec_phase() == Phase::Binding,
    {
        Attempt {
            my_index,
            addresses,
            bind: BindRetry::new(),
            bound: false,
            dialer: LowerDialer::new(my_index),
            acceptor: None,
        }
    }

    /// Where the attempt stands.
    pub fn phase(&self) -> (r: Phase)
        requires
            self.wf(),
        ensures
            r == self.spec_phase(),
    {
        if !self.bound {
            Phase::Binding
        } else {
            match &self.acceptor {
                None => Phase::Dialing,
                Some(a) => if a.is_complete() {
                    Phase::Done
                } else {
                    Phase::Accepting
                },
            }
        }
    }

    /// The address to bind the listener to.
    pub fn listen_address(&self) -> (r: String)
        requires
            self.wf(),
        ensures
            r@ == listen_address_of(self.spec_addresses()[self.spec_my_index() as int]@),
    {
        listen_address(self.addresses[self.my_index].as_str())
    }

    /// Records a failed bind that reported `error`: the pause before the
    /// next try, or, after the last try, the fatal `Bind` error.
    pub fn on_bind_failure(&mut self, error: String) -> (r: Result<u64, CreateSocketsError>)
        requires
            old(self).wf(),
            old(self).spec_phase() == Phase::Binding,
        ensures
            old(self).spec_bind_failures() + 1 < BIND_MAX_TRIES ==> {
                &&& r == Ok::<u64, CreateSocketsError>(crate::bind::RETRY_BACKOFF_MILLIS)
                &&& final(self).wf()
                &&& final(self).spec_phase() == Phase::Binding
                &&& final(self).spec_bind_failures() == old(self).spec_bind_failures() + 1
                &&& final(self).spec_my_index() == old(self).spec_my_index()
                &&& final(self).spec_addresses() == old(self).spec_addresses()
            },
            old(self).spec_bind_failures() + 1 == BIND_MAX_TRIES ==> (r matches Err(
                CreateSocketsError::Bind { address, error: e },
            ) && address@ == listen_address_of(
                old(self).spec_addresses()[old(self).spec_my_index() as int]@,
            ) && e == error),
    {
        let address = self.listen_address();
        match self.bind.on_failure() {
            BindStep::RetryAfter(ms) => Ok(ms),
            BindStep::GiveUp => Err(BindRetry::give_up(address, error)),
        }
    }

    /// Records that the listener is bound. Process 0 then mints the epoch of
    /// a new generation and goes on to accept; every other process goes on to
    /// dial its lower peers.
    pub fn on_bound(&mut self)
        requires
            old(self).wf(),
            old(self).spec_phase() == Phase::Binding,
        ensures
            final(self).wf(),
            final(self).spec_my_index() == old(self).spec_my_index(),
            final(self).spec_addresses() == old(self).spec_addresses(),
            final(self).spec_bound(),
            old(self).spec_my_index() == 0 ==> final(self).spec_epoch() is Some,
            old(self).spec_my_index() > 0 ==> final(self).spec_phase() == Phase::Dialing,
            old(self).spec_my_index() == 0 && old(self).spec_addresses().len() > 1
                ==> final(self).spec_phase() == Phase::Accepting,
            old(self).spec_my_index() == 0 && old(self).spec_addresses().len() == 1
                ==> final(self).spec_phase() == Phase::Done,
    {
        if self.my_index == 0 {
            let fresh = Epoch::mint();
            self.on_bound_with(fresh);
        } else {
            self.bound = true;
        }
    }

    /// Records that the listener is bound, with `fresh` as the epoch that
    /// process 0 starts its generation with. Every other process ignores
    /// `fresh` and goes on to dial its lower peers.
    pub fn on_bound_with(&mut self, fresh: Epoch)
        requires
            old(self).wf(),
            old(self).spec_phase() == Phase::Binding,
        ensures
            final(self).wf(),
            final(self).spec_my_index() == old(self).spec_my_index(),
            final(self).spec_addresses() == old(self).spec_addresses(),
            final(self).spec_bound(),
            old(self).spec_my_index() == 0 ==> final(self).spec_epoch() == Some(fresh),
            old(self).spec_my_index() > 0 ==> final(self).spec_phase() == Phase::Dialing,
            old(self).spec_my_index() == 0 && old(self).spec_addresses().len() > 1
                ==> final(self).spec_phase() == Phase::Accepting,
            old(self).spec_my_index() == 0 && old(self).spec_addresses().len() == 1
                ==> final(self).spec_phase() == Phase::Done,
    {
        self.bound = true;
        if self.my_index == 0 {
            self.acceptor = Some(HigherAcceptor::new(0, fresh, self.addresses.len()));
        }
    }

    /// The index of this process.
    pub fn my_index(&self) -> (r: usize)
        ensures
            r == self.spec_my_index(),
    {
        self.my_index
    }

    /// The epoch of this attempt, once known.
    pub fn epoch(&self) -> (r: Option<Epoch>)
        requires
            self.wf(),
        ensures
            r == self.spec_epoch(),
    {
        match &self.acceptor {
            Some(a) => Some(a.epoch()),
            None => None,
        }
    }

    /// The lower peer to dial next, while dialing: peers are dialed in
    /// order, each until a socket to it is kept.
    pub fn next_dial(&self) -> (r: Option<usize>)
        requires
            self.wf(),
        ensures
            self.spec_phase() == Phase::Dialing ==> r == Some(
                self.spec_dialer().spec_sockets().len() as usize,
            ),
            self.spec_phase() != Phase::Dialing ==> r is None,
            r matches Some(k) ==> k < self.spec_my_index(),
    {
        if self.bound && self.acceptor.is_none() {
            self.dialer.next_peer()
        } else {
            None
        }
    }

    /// The address of process `index`.
    pub fn address(&self, index: usize) -> (r: String)
        requires
            self.wf(),
            index < self.spec_addresses().len(),
        ensures
            r == self.spec_addresses()[index as int],
    {
        self.addresses[index].clone()
    }

    /// The epoch to send back to a lower peer that sent `peer_epoch`.
    pub fn reply_epoch(&self, peer_epoch: Epoch) -> (r: Epoch)
        ensures
            r == reply_epoch_of(self.spec_dialer().spec_epoch(), peer_epoch),
    {
        self.dialer.reply_epoch(peer_epoch)
    }

    /// Takes the outcome of a handshake with the lower peer named by
    /// [`Self::next_dial`] (see [`LowerDialer::on_handshake`]). Once every
    /// lower peer is connected, the attempt goes on to accept, with the epoch
    /// it joined.
    pub fn on_dialed(&mut self, peer_epoch: Epoch, sock: S) -> (r: Result<DialStep, CreateSocketsError>)
        requires
            old(self).wf(),
            old(self).spec_phase() == Phase::Dialing,
        ensures
            final(self).wf(),
            final(self).spec_my_index() == old(self).spec_my_index(),
            final(self).spec_addresses() == old(self).spec_addresses(),
            r == dial_outcome(
                old(self).spec_dialer().spec_epoch(),
                peer_epoch,
                old(self).spec_dialer().spec_sockets().len() as usize,
            ),
            r != Ok::<DialStep, CreateSocketsError>(DialStep::Connected) ==> {
                &&& final(self).spec_dialer().spec_sockets() == old(self).spec_dialer().spec_sockets()
                &&& final(self).spec_dialer().spec_epoch() == old(self).spec_dialer().spec_epoch()
                &&& final(self).spec_phase() == Phase::Dialing
            },
            r == Ok::<DialStep, CreateSocketsError>(DialStep::Connected) ==> final(self).spec_dialer().spec_sockets() == old(self).spec_dialer().spec_sockets().push(sock),
            final(self).spec_phase() != Phase::Dialing <==> (r == Ok::<DialStep, CreateSocketsError>(
                DialStep::Connected,
            ) && old(self).spec_dialer().spec_sockets().len() + 1 == old(self).spec_my_index()),
            final(self).spec_phase() != Phase::Dialing ==> final(self).spec_epoch() == Some(
                reply_epoch_of(old(self).spec_dialer().spec_epoch(), peer_epoch),
            ),
    {
        let r = self.dialer.on_handshake(peer_epoch, sock);
        if self.dialer.is_complete() {
            match self.dialer.epoch() {
                Some(e) => {
                    self.acceptor = Some(HigherAcceptor::new(self.my_index, e, self.addresses.len()));
                },
                None => {},
            }
        }
        r
    }

    /// Decides on the index `peer_index` read from a new inbound
    /// connection (see [`HigherAcceptor::check_index`]).
    pub fn check_index(&self, peer_index: u64) -> (r: Result<bool, CreateSocketsError>)
        requires
            self.wf(),
            self.spec_phase() == Phase::Accepting,
        ensures
            r == index_outcome(
                self.spec_my_index(),
                self.spec_addresses().len(),
                self.spec_acceptor()->0.spec_slots(),
                peer_index,
            ),
    {
        match &self.acceptor {
            Some(a) => a.check_index(peer_index),
            None => Ok(false),
        }
    }

    /// Takes the outcome of the epoch exchange with an admitted higher peer
    /// (see [`HigherAcceptor::on_epoch`]).
    pub fn on_accepted(&mut self, peer_index: u64, peer_epoch: Epoch, sock: S) -> (r: Result<
        bool,
        CreateSocketsError,
    >)
        requires
            old(self).wf(),
            old(self).spec_phase() == Phase::Accepting,
            index_outcome(
                old(self).spec_my_index(),
                old(self).spec_addresses().len(),
                old(self).spec_acceptor()->0.spec_slots(),
                peer_index,
            ) == Ok::<bool, CreateSocketsError>(true),
        ensures
            final(self).wf(),
            final(self).spec_my_index() == old(self).spec_my_index(),
            final(self).spec_addresses() == old(self).spec_addresses(),
            final(self).spec_epoch() == old(self).spec_epoch(),
            final(self).spec_acceptor() is Some,
            r == accept_outcome(old(self).spec_epoch()->0, peer_epoch, peer_index as usize),
            r == Ok::<bool, CreateSocketsError>(true) ==> final(self).spec_acceptor()->0.spec_slots()
                == old(self).spec_acceptor()->0.spec_slots().update(
                slot_of(old(self).spec_my_index(), old(self).spec_addresses().len(), peer_index)->0,
                Some(sock),
            ),
            r != Ok::<bool, CreateSocketsError>(true) ==> final(self).spec_acceptor()->0.spec_slots()
                == old(self).spec_acceptor()->0.spec_slots(),
    {
        let mut acceptor = self.acceptor.take().unwrap();
        let r = acceptor.on_epoch(peer_index, peer_epoch, sock);
        self.acceptor = Some(acceptor);
        r
    }

    /// The mesh of a finished attempt: one entry per process, empty exactly
    /// at this process's index, and elsewhere the socket to that peer.
    pub fn into_mesh(self) -> (r: Vec<Option<S>>)
        requires
            self.wf(),
            self.spec_phase() == Phase::Done,
        ensures
            r@.len() == self.spec_addresses().len(),
            forall|i: int| 0 <= i < r@.len() ==> ((#[trigger] r@[i]) is None <==> i == self.spec_my_index()),
            forall|i: int| 0 <= i < self.spec_my_index() ==> r@[i] == Some(#[trigger] self.spec_dialer().spec_sockets()[i]),
            forall|i: int|
                self.spec_my_index() < i < r@.len() ==> #[trigger] r@[i] == self.spec_acceptor()->0.spec_slots()[i
                    - self.spec_my_index() - 1],
            self.spec_epoch() is Some,
            forall|i: int|
                0 <= i < self.spec_my_index() ==> #[trigger] self.spec_dialer().spec_exchanged()[i] == (
                    self.spec_epoch()->0,
                    self.spec_epoch()->0,
                ),
            forall|j: int|
                0 <= j < self.spec_acceptor()->0.spec_slots().len() ==> #[trigger] self.spec_acceptor()->0.spec_received()[j]
                    == self.spec_epoch()->0,
    {
        assert forall|j: int| 0 <= j < self.spec_acceptor()->0.spec_slots().len() implies #[trigger] self.spec_acceptor()->0.spec_received()[j]
            == self.spec_epoch()->0 by {
            assert(self.spec_acceptor()->0.spec_slots()[j] is Some);
        }
        let Attempt { dialer, acceptor, .. } = self;
        let (_, lower) = dialer.into_parts();
        finish(lower, acceptor.unwrap())
    }
}

} // verus!
