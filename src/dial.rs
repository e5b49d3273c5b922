//! The connect-lower phase.
//!
//! A process with index `i > 0` dials its lower peers `0, 1, .., i - 1` in
//! order. On each connection it sends its index, reads the peer's epoch,
//! sends back its own epoch (the peer's, if it has none yet: this is how it
//! joins the generation of peer 0), and then decides:
//!
//! * the peer's epoch is smaller: the peer is doomed; the socket is dropped
//!   and the same peer is dialed again;
//! * the peer's epoch is greater: this process is doomed; the attempt fails;
//! * they are equal: the socket is kept and the next peer is dialed.
//!
//! Connect failures and I/O errors during the handshake are the caller's to
//! retry: they drop the socket and leave [`LowerDialer`] as it was.

use vstd::prelude::*;
use crate::epoch::{Epoch, epoch_lt};
use crate::error::CreateSocketsError;

verus! {

/// What to do after a handshake with a lower peer.
#[derive(Clone, Copy, Debug, PartialEq, Eq, Structural)]
pub enum DialStep {
    /// The socket was kept; go on with the next peer.
    Connected,
    /// The peer is from a smaller, doomed epoch: the socket was dropped; dial
    /// the same peer again.
    Redial,
}

/// The epoch a dialer sends back: its own, or the peer's while it has none.
pub open spec fn reply_epoch_of(mine: Option<Epoch>, peer_epoch: Epoch) -> Epoch {
    match mine {
        Some(e) => e,
        None => peer_epoch,
    }
}

/// The decision after a handshake in which peer `peer_index` sent
/// `peer_epoch` to a dialer that held `mine`.
pub open spec fn dial_outcome(mine: Option<Epoch>, peer_epoch: Epoch, peer_index: usize) -> Result<
    DialStep,
    CreateSocketsError,
> {
    let e = reply_epoch_of(mine, peer_epoch);
    if epoch_lt(peer_epoch, e) {
        Ok(DialStep::Redial)
    } else if epoch_lt(e, peer_epoch) {
        Err(CreateSocketsError::EpochMismatch { peer_index, peer_epoch, my_epoch: e })
    } else {
        Ok(DialStep::Connected)
    }
}

/// State of the connect-lower phase of the process `my_index`.
pub struct LowerDialer<S> {
    my_index: usize,
    my_epoch: Option<Epoch>,
    sockets: Vec<S>,
    /// The epochs sent and received on each kept socket, in order.
    exchanged: Ghost<Seq<(Epoch, Epoch)>>,
}

impl<S> LowerDialer<S> {
    /// The index of this process.
    pub closed spec fn spec_my_index(&self) -> nat {
        self.my_index as nat
    }

    /// The epoch joined so far, if any.
    pub closed spec fn spec_epoch(&self) -> Option<Epoch> {
        self.my_epoch
    }

    /// The sockets kept so far, to peers `0, 1, ..` in order.
    pub closed spec fn spec_sockets(&self) -> Seq<S> {
        self.sockets@
    }

    /// The epochs (sent, received) on each kept socket.
    pub closed spec fn spec_exchanged(&self) -> Seq<(Epoch, Epoch)> {
        self.exchanged@
    }

    /// Whether a socket to every lower peer is kept.
    pub open spec fn spec_complete(&self) -> bool {
        self.spec_sockets().len() == self.spec_my_index()
    }

    /// The state's invariant: no more sockets than lower peers; an epoch as
    /// soon as one socket is kept; and on every kept socket, this process's
    /// epoch went out and the same epoch came in.
    pub open spec fn wf(&self) -> bool {
        &&& self.spec_sockets().len() <= self.spec_my_index()
        &&& self.spec_exchanged().len() == self.spec_sockets().len()
        &&& (self.spec_sockets().len() > 0 ==> self.spec_epoch() is Some)
        &&& forall|i: int|
            0 <= i < self.spec_exchanged().len() ==> #[trigger] self.spec_exchanged()[i] == (
                self.spec_epoch()->0,
                self.spec_epoch()->0,
            )
    }

    /// The dialer of process `my_index`, with no socket and no epoch.
    ///
    /// Process 0 has no lower peer: its dialer is complete from the start and
    /// never dials.
    pub fn new(my_index: usize) -> (r: LowerDialer<S>)
        ensures
            r.wf(),
            r.spec_my_index() == my_index,
            r.spec_epoch() is None,
            r.spec_sockets().len() == 0,
            r.spec_complete() <==> my_index == 0,
    {
        LowerDialer { my_index, my_epoch: None, sockets: Vec::new(), exchanged: Ghost(Seq::empty()) }
    }

    /// The index of this process.
    pub fn my_index(&self) -> (r: usize)
        ensures
            r == self.spec_my_index(),
    {
        self.my_index
    }

    /// The epoch joined so far, if any.
    pub fn epoch(&self) -> (r: Option<Epoch>)
        ensures
            r == self.spec_epoch(),
    {
        self.my_epoch
    }

    /// The peer to dial next, or `None` once every lower peer is connected.
    pub fn next_peer(&self) -> (r: Option<usize>)
        requires
            self.wf(),
        ensures
            self.spec_complete() ==> r is None,
            !self.spec_complete() ==> r == Some(self.spec_sockets().len() as usize),
    {
        if self.sockets.len() < self.my_index {
            Some(self.sockets.len())
        } else {
            None
        }
    }

    /// Whether every lower peer is connected.
    pub fn is_complete(&self) -> (r: bool)
        requires
            self.wf(),
        ensures
            r == self.spec_complete(),
    {
        self.sockets.len() == self.my_index
    }

    /// The epoch to send back to a peer that sent `peer_epoch`.
    pub fn reply_epoch(&self, peer_epoch: Epoch) -> (r: Epoch)
        ensures
            r == reply_epoch_of(self.spec_epoch(), peer_epoch),
    {
        match self.my_epoch {
            Some(e) => e,
            None => peer_epoch,
        }
    }

    /// Takes the outcome of a completed handshake with the next peer: the
    /// peer sent `peer_epoch`, this process sent [`Self::reply_epoch`], and
    /// `sock` is the connection.
    ///
    /// The socket is kept exactly when the step is [`DialStep::Connected`];
    /// the first kept socket fixes this process's epoch.
    pub fn on_handshake(&mut self, peer_epoch: Epoch, sock: S) -> (r: Result<
        DialStep,
        CreateSocketsError,
    >)
        requires
            old(self).wf(),
            !old(self).spec_complete(),
        ensures
            final(self).wf(),
            final(self).spec_my_index() == old(self).spec_my_index(),
            r == dial_outcome(old(self).spec_epoch(), peer_epoch, old(self).spec_sockets().len() as usize),
            r == Ok::<DialStep, CreateSocketsError>(DialStep::Connected) ==> {
                &&& final(self).spec_epoch() == Some(reply_epoch_of(old(self).spec_epoch(), peer_epoch))
                &&& final(self).spec_sockets() == old(self).spec_sockets().push(sock)
                &&& final(self).spec_exchanged() == old(self).spec_exchanged().push(
                    (reply_epoch_of(old(self).spec_epoch(), peer_epoch), peer_epoch),
                )
            },
            r != Ok::<DialStep, CreateSocketsError>(DialStep::Connected) ==> {
                &&& final(self).spec_epoch() == old(self).spec_epoch()
                &&& final(self).spec_sockets() == old(self).spec_sockets()
                &&& final(self).spec_exchanged() == old(self).spec_exchanged()
            },
    {
        let index = self.sockets.len();
        let mine = self.reply_epoch(peer_epoch);
        match peer_epoch.compare(&mine) {
            std::cmp::Ordering::Less => Ok(DialStep::Redial),
            std::cmp::Ordering::Greater => Err(
                CreateSocketsError::EpochMismatch { peer_index: index, peer_epoch, my_epoch: mine },
            ),
            std::cmp::Ordering::Equal => {
                self.my_epoch = Some(mine);
                self.sockets.push(sock);
                self.exchanged = Ghost(self.exchanged@.push((mine, peer_epoch)));
                Ok(DialStep::Connected)
            },
        }
    }

    /// The epoch joined and the sockets to peers `0 .. my_index`, once every
    /// lower peer is connected.
    pub fn into_parts(self) -> (r: (Option<Epoch>, Vec<S>))
        requires
            self.wf(),
            self.spec_complete(),
        ensures
            r.0 == self.spec_epoch(),
            r.1@ == self.spec_sockets(),
            r.1@.len() == self.spec_my_index(),
            self.spec_my_index() > 0 ==> r.0 is Some,
    {
        (self.my_epoch, self.sockets)
    }
}

} // verus!
