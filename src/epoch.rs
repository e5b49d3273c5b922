//! Generation identifiers.
//!
//! An epoch names one generation of the cluster. It is made of the wall
//! clock in milliseconds and a random nonce, and is ordered by the clock
//! first and the nonce second. The clock is not required to be monotone:
//! the protocol only needs a later mint to exceed all earlier ones
//! *eventually*. Where the clock jumps backwards, two generations may share
//! a `time` and differ only in their nonce.

use std::cmp::Ordering;
use vstd::prelude::*;
use crate::wire::{be_bytes, be_u64, lemma_be_bytes_of_be_u64, lemma_be_u64_of_be_bytes, push_be_u64, read_be_u64_at};

verus! {

/// Number of bytes of an encoded epoch.
pub const EPOCH_BYTES: usize = 16;

/// Identifier of a bootstrap generation.
#[derive(Clone, Copy, Debug, PartialEq, Eq, Structural)]
pub struct Epoch {
    /// Milliseconds since the Unix epoch, as read when the epoch was minted.
    pub time: u64,
    /// Random value that keeps independent mints apart.
    pub nonce: u64,
}

/// Strict order on epochs: by `time`, then by `nonce`.
pub open spec fn epoch_lt(a: Epoch, b: Epoch) -> bool {
    a.time < b.time || (a.time == b.time && a.nonce < b.nonce)
}

/// The sixteen bytes that stand for `e` on the wire: `time`, then `nonce`,
/// each big-endian.
pub open spec fn epoch_bytes(e: Epoch) -> Seq<u8> {
    be_bytes(e.time) + be_bytes(e.nonce)
}

/// The epoch that sixteen bytes stand for.
pub open spec fn epoch_of_bytes(b: Seq<u8>) -> Epoch
    recommends
        b.len() == 16,
{
    Epoch { time: be_u64(b.subrange(0, 8)), nonce: be_u64(b.subrange(8, 16)) }
}

/// The `time` field that a clock reading gives: the milliseconds since the
/// Unix epoch, 0 for a clock set before it, and `u64::MAX` for a reading that
/// does not fit in 64 bits.
pub open spec fn time_of_clock(millis: Option<u128>) -> u64 {
    match millis {
        Some(ms) => if ms <= u64::MAX as u128 {
            ms as u64
        } else {
            u64::MAX
        },
        None => 0,
    }
}

/// Relies on `rand::random`: any value of the type may come back.
pub assume_specification<T>[ rand::random::<T> ]() -> (r: T)
    where
        rand::distributions::Standard: rand::distributions::Distribution<T>,
;

/// Relies on `std::time::SystemTime::elapsed`, called on `UNIX_EPOCH`: the
/// time since 1970 by the machine's clock, or `None` where the clock stands
/// before it. Nothing is known of the value, which depends on the clock.
#[verifier::external_body]
fn elapsed_since_unix_epoch() -> (r: Option<std::time::Duration>) {
    std::time::SystemTime::UNIX_EPOCH.elapsed().ok()
}

/// Relies on `Duration::as_millis`: the whole milliseconds of a duration.
pub assume_specification[ std::time::Duration::as_millis ](d: &std::time::Duration) -> u128;

impl Epoch {
    /// The epoch with the given fields.
    pub fn new(time: u64, nonce: u64) -> (r: Epoch)
        ensures
            r.time == time,
            r.nonce == nonce,
    {
        Epoch { time, nonce }
    }

    /// The epoch minted from a clock reading (see [`time_of_clock`]) and a
    /// nonce.
    pub fn from_clock(millis: Option<u128>, nonce: u64) -> (r: Epoch)
        ensures
            r.time == time_of_clock(millis),
            r.nonce == nonce,
    {
        let time: u64 = match millis {
            Some(ms) => if ms <= u64::MAX as u128 {
                ms as u64
            } else {
                u64::MAX
            },
            None => 0,
        };
        Epoch { time, nonce }
    }

    /// Mints a fresh epoch from the wall clock and a random nonce.
    ///
    /// Both inputs come from outside, so nothing is promised of the value;
    /// [`Epoch::from_clock`] says how they are combined.
    pub fn mint() -> (r: Epoch) {
        let millis: Option<u128> = match elapsed_since_unix_epoch() {
            Some(d) => Some(d.as_millis()),
            None => None,
        };
        let nonce: u64 = rand::random::<u64>();
        Epoch::from_clock(millis, nonce)
    }

    /// Compares two epochs: by `time`, then by `nonce`.
    pub fn compare(&self, other: &Epoch) -> (r: Ordering)
        ensures
            (r == Ordering::Less) <==> epoch_lt(*self, *other),
            (r == Ordering::Equal) <==> *self == *other,
            (r == Ordering::Greater) <==> epoch_lt(*other, *self),
    {
        if self.time < other.time {
            Ordering::Less
        } else if self.time > other.time {
            Ordering::Greater
        } else if self.nonce < other.nonce {
            Ordering::Less
        } else if self.nonce > other.nonce {
            Ordering::Greater
        } else {
            Ordering::Equal
        }
    }

    /// The sixteen bytes of this epoch on the wire.
    pub fn to_bytes(&self) -> (r: Vec<u8>)
        ensures
            r@ == epoch_bytes(*self),
    {
        let mut r: Vec<u8> = Vec::new();
        push_be_u64(&mut r, self.time);
        push_be_u64(&mut r, self.nonce);
        assert(r@ =~= epoch_bytes(*self));
        r
    }

    /// The epoch that `b` encodes, or `None` where `b` does not hold exactly
    /// sixteen bytes.
    pub fn from_bytes(b: &[u8]) -> (r: Option<Epoch>)
        ensures
            b@.len() == 16 ==> r == Some(epoch_of_bytes(b@)),
            b@.len() != 16 ==> r is None,
    {
        if b.len() != EPOCH_BYTES {
            return None;
        }
        let time = read_be_u64_at(b, 0);
        let nonce = read_be_u64_at(b, 8);
        Some(Epoch { time, nonce })
    }
}

/// Epochs are totally ordered: of two distinct epochs exactly one is the
/// smaller, and no epoch is smaller than itself.
pub proof fn lemma_epoch_order_total(a: Epoch, b: Epoch)
    ensures
        !epoch_lt(a, a),
        a != b ==> (epoch_lt(a, b) != epoch_lt(b, a)),
        a == b ==> !epoch_lt(a, b) && !epoch_lt(b, a),
{
}

/// The order on epochs is transitive.
pub proof fn lemma_epoch_order_transitive(a: Epoch, b: Epoch, c: Epoch)
    requires
        epoch_lt(a, b),
        epoch_lt(b, c),
    ensures
        epoch_lt(a, c),
{
}

/// Reading back the sixteen bytes of an epoch gives the same epoch.
pub proof fn lemma_epoch_bytes_round_trip(e: Epoch)
    ensures
        epoch_bytes(e).len() == 16,
        epoch_of_bytes(epoch_bytes(e)) == e,
{
    let b = epoch_bytes(e);
    assert(b.subrange(0, 8) =~= be_bytes(e.time));
    assert(b.subrange(8, 16) =~= be_bytes(e.nonce));
    lemma_be_u64_of_be_bytes(e.time);
    lemma_be_u64_of_be_bytes(e.nonce);
}

/// Sixteen bytes read as an epoch and written again are the same bytes.
pub proof fn lemma_bytes_epoch_round_trip(b: Seq<u8>)
    requires
        b.len() == 16,
    ensures
        epoch_bytes(epoch_of_bytes(b)) == b,
{
    lemma_be_bytes_of_be_u64(b.subrange(0, 8));
    lemma_be_bytes_of_be_u64(b.subrange(8, 16));
    assert(epoch_bytes(epoch_of_bytes(b)) =~= b);
}

/// A mint that read a strictly later clock gives a strictly greater epoch,
/// whatever the nonces; a later clock reading never gives a smaller `time`.
pub proof fn lemma_later_clock_greater_epoch(m1: Option<u128>, n1: u64, m2: Option<u128>, n2: u64)
    requires
        m1 is Some,
        m2 is Some,
        m1->0 <= m2->0,
    ensures
        time_of_clock(m1) <= time_of_clock(m2),
        time_of_clock(m1) < time_of_clock(m2) ==> epoch_lt(
            Epoch { time: time_of_clock(m1), nonce: n1 },
            Epoch { time: time_of_clock(m2), nonce: n2 },
        ),
        m1->0 < m2->0 && m2->0 <= u64::MAX as u128 ==> epoch_lt(
            Epoch { time: time_of_clock(m1), nonce: n1 },
            Epoch { time: time_of_clock(m2), nonce: n2 },
        ),
{
}

} // verus!
