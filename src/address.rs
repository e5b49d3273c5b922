//! The local listen address of a process.
//!
//! A peer address is opaque text. The only structure read from it is an
//! optional trailing `:<port>` of one to five ASCII digits: where it is
//! there, the process listens on `0.0.0.0:<port>`, which binds every
//! interface without a name lookup; else it listens on the address as it
//! stands, which lets non-TCP transports such as Unix sockets through.

use vstd::prelude::*;
use vstd::string::*;

verus! {

/// Whether `c` is one of the ASCII digits `0` to `9`.
pub open spec fn is_ascii_digit(c: char) -> bool {
    '0' <= c && c <= '9'
}

/// The number of ASCII digits at the end of `a`.
pub open spec fn trailing_digits(a: Seq<char>) -> nat
    decreases a.len(),
{
    if a.len() == 0 || !is_ascii_digit(a.last()) {
        0
    } else {
        1 + trailing_digits(a.drop_last())
    }
}

/// The port at the end of `a`: the one to five ASCII digits that follow its
/// last `:` and close it, or `None` where `a` does not end so.
pub open spec fn port_suffix(a: Seq<char>) -> Option<Seq<char>> {
    let k = trailing_digits(a);
    if 1 <= k && k <= 5 && k < a.len() && a[a.len() - k - 1] == ':' {
        Some(a.subrange(a.len() - k, a.len() as int))
    } else {
        None
    }
}

/// The text `0.0.0.0:`, put before a port to bind every interface.
pub open spec fn any_interface_prefix() -> Seq<char> {
    seq!['0', '.', '0', '.', '0', '.', '0', ':']
}

/// The address a process at `a` listens on.
pub open spec fn listen_address_of(a: Seq<char>) -> Seq<char> {
    match port_suffix(a) {
        Some(port) => any_interface_prefix() + port,
        None => a,
    }
}

/// Where the last `k` characters of `a` are digits, `a` ends in at least `k`
/// digits; where the character before them is no digit, in exactly `k`.
proof fn lemma_trailing_digits(a: Seq<char>, k: int)
    requires
        0 <= k <= a.len(),
        forall|i: int| a.len() - k <= i < a.len() ==> is_ascii_digit(#[trigger] a[i]),
    ensures
        trailing_digits(a) >= k,
        (k == a.len() || !is_ascii_digit(a[a.len() - k - 1])) ==> trailing_digits(a) == k,
    decreases k,
{
    if k > 0 {
        let b = a.drop_last();
        assert forall|i: int| b.len() - (k - 1) <= i < b.len() implies is_ascii_digit(
            #[trigger] b[i],
        ) by {
            assert(b[i] == a[i]);
        }
        lemma_trailing_digits(b, k - 1);
        if k < a.len() {
            assert(b[b.len() - (k - 1) - 1] == a[a.len() - k - 1]);
        }
    }
}

fn is_digit(c: char) -> (r: bool)
    ensures
        r == is_ascii_digit(c),
{
    '0' <= c && c <= '9'
}

/// The address to listen on for the peer address `address`: `0.0.0.0:<port>`
/// where `address` ends in a port (see [`port_suffix`]), else `address`
/// itself.
pub fn listen_address(address: &str) -> (r: String)
    ensures
        r@ == listen_address_of(address@),
{
    let n = address.unicode_len();
    let mut k: usize = 0;
    while k < n && k < 6 && is_digit(address.get_char(n - 1 - k))
        invariant
            n == address@.len(),
            k <= n,
            k <= 6,
            forall|i: int| n - k <= i < n ==> is_ascii_digit(#[trigger] address@[i]),
        decreases n - k,
    {
        k = k + 1;
    }
    proof {
        lemma_trailing_digits(address@, k as int);
    }
    if 1 <= k && k <= 5 && k < n && address.get_char(n - 1 - k) == ':' {
        let prefix = "0.0.0.0:";
        proof {
            reveal_strlit("0.0.0.0:");
            assert(prefix@ =~= any_interface_prefix());
        }
        let port = address.substring_char(n - k, n);
        let mut r = String::from_str(prefix);
        r.append(port);
        r
    } else {
        String::from_str(address)
    }
}

} // verus!
