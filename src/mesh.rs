//! The mesh that one successful attempt hands over.
//!
//! The result of a bootstrap is one entry per process: empty at the
//! process's own index, and elsewhere the socket to that peer. Before the
//! sockets are handed to the transport layer they must all be of one
//! transport family.

use vstd::prelude::*;
use crate::accept::HigherAcceptor;

verus! {

/// Each element of `s`, wrapped in `Some`.
pub open spec fn somes<S>(s: Seq<S>) -> Seq<Option<S>> {
    s.map_values(|x: S| Some(x))
}

/// The mesh made of the sockets to the lower peers, no socket to self, and
/// the sockets to the higher peers, in this order.
pub fn assemble<S>(lower: Vec<S>, higher: Vec<S>) -> (r: Vec<Option<S>>)
    ensures
        r@ == somes(lower@) + seq![None] + somes(higher@),
{
    let ghost lower0 = lower@;
    let ghost higher0 = higher@;
    let mut r: Vec<Option<S>> = Vec::new();
    let mut lower = lower;
    while lower.len() > 0
        invariant
            lower@.len() <= lower0.len(),
            r@ == somes(lower0.subrange(0, lower0.len() - lower@.len())),
            lower@ == lower0.subrange(lower0.len() - lower@.len(), lower0.len() as int),
        decreases lower@.len(),
    {
        let s = lower.remove(0);
        r.push(Some(s));
        assert(r@ =~= somes(lower0.subrange(0, lower0.len() - lower@.len())));
        assert(lower@ =~= lower0.subrange(lower0.len() - lower@.len(), lower0.len() as int));
    }
    assert(lower0.subrange(0, lower0.len() as int) =~= lower0);
    r.push(None);
    let mut higher = higher;
    while higher.len() > 0
        invariant
            higher@.len() <= higher0.len(),
            r@ == somes(lower0) + seq![None] + somes(
                higher0.subrange(0, higher0.len() - higher@.len()),
            ),
            higher@ == higher0.subrange(higher0.len() - higher@.len(), higher0.len() as int),
        decreases higher@.len(),
    {
        let s = higher.remove(0);
        r.push(Some(s));
        assert(r@ =~= somes(lower0) + seq![None] + somes(
            higher0.subrange(0, higher0.len() - higher@.len()),
        ));
        assert(higher@ =~= higher0.subrange(higher0.len() - higher@.len(), higher0.len() as int));
    }
    assert(higher0.subrange(0, higher0.len() as int) =~= higher0);
    r
}

/// The mesh of process `my_index` once both phases are done: `lower` holds
/// the sockets to peers `0 .. my_index` and every slot of `acceptor` is
/// filled.
///
/// The mesh has one entry per process; exactly the entry at `my_index` is
/// empty; the others hold the socket to the peer of that index.
pub fn finish<S>(lower: Vec<S>, acceptor: HigherAcceptor<S>) -> (r: Vec<Option<S>>)
    requires
        acceptor.wf(),
        acceptor.spec_complete(),
        lower@.len() == acceptor.spec_my_index(),
    ensures
        r@.len() == acceptor.spec_n_peers(),
        forall|i: int| 0 <= i < r@.len() ==> ((#[trigger] r@[i]) is None <==> i == acceptor.spec_my_index()),
        forall|i: int| 0 <= i < lower@.len() ==> r@[i] == Some(#[trigger] lower@[i]),
        forall|i: int|
            acceptor.spec_my_index() < i < r@.len() ==> #[trigger] r@[i] == acceptor.spec_slots()[i
                - acceptor.spec_my_index() - 1],
{
    let ghost slots = acceptor.spec_slots();
    let ghost me = acceptor.spec_my_index() as int;
    let higher = acceptor.into_sockets();
    let r = assemble(lower, higher);
    assert forall|i: int| 0 <= i < r@.len() implies ((#[trigger] r@[i]) is None <==> i == me) by {
        if i > me {
            assert(r@[i] == Some(higher@[i - me - 1]));
        }
    }
    assert forall|i: int| me < i < r@.len() implies #[trigger] r@[i] == slots[i - me - 1] by {
        assert(r@[i] == Some(higher@[i - me - 1]));
    }
    r
}

/// The transport family of a socket.
#[derive(Clone, Copy, Debug, PartialEq, Eq, Structural)]
pub enum Transport {
    Tcp,
    Unix,
}

/// Whether every socket present in `kinds` is of family `t`.
pub open spec fn all_of(kinds: Seq<Option<Transport>>, t: Transport) -> bool {
    forall|i: int| 0 <= i < kinds.len() && (#[trigger] kinds[i]) is Some ==> kinds[i] == Some(t)
}

fn all_present_are(kinds: &Vec<Option<Transport>>, t: Transport) -> (r: bool)
    ensures
        r == all_of(kinds@, t),
{
    let mut i: usize = 0;
    while i < kinds.len()
        invariant
            i <= kinds@.len(),
            forall|k: int| 0 <= k < i && (#[trigger] kinds@[k]) is Some ==> kinds@[k] == Some(t),
        decreases kinds@.len() - i,
    {
        match kinds[i] {
            Some(k) => if k != t {
                return false;
            },
            None => {},
        }
        i = i + 1;
    }
    true
}

/// The one transport family of the sockets of a mesh, given the family of
/// each entry: TCP where every socket is TCP (so also where there is no
/// socket), else Unix where every socket is Unix, else `None`, as sockets of
/// both families cannot be handed over together.
pub fn mesh_transport(kinds: &Vec<Option<Transport>>) -> (r: Option<Transport>)
    ensures
        all_of(kinds@, Transport::Tcp) ==> r == Some(Transport::Tcp),
        !all_of(kinds@, Transport::Tcp) && all_of(kinds@, Transport::Unix) ==> r == Some(
            Transport::Unix,
        ),
        !all_of(kinds@, Transport::Tcp) && !all_of(kinds@, Transport::Unix) ==> r is None,
        r matches Some(t) ==> all_of(kinds@, t),
{
    if all_present_are(kinds, Transport::Tcp) {
        Some(Transport::Tcp)
    } else if all_present_are(kinds, Transport::Unix) {
        Some(Transport::Unix)
    } else {
        None
    }
}

} // verus!
