//! Bootstrap of the all-to-all connection mesh of a dataflow cluster.
//!
//! Every process of a cluster of `n` processes knows the ordered list of
//! all addresses and its own index. Before any computation starts, each
//! pair of processes must hold one socket to each other, and all sockets of
//! one process must lead to peers of one *generation*: a set of processes
//! that agreed on one [`epoch::Epoch`]. Process 0 mints the epoch; all others
//! learn it from the first lower peer they shake hands with. A process that
//! meets a newer generation fails its attempt and starts over; a peer of an
//! older generation is turned away. This way no process ends up holding a
//! socket to a peer that crashed during the bootstrap.
//!
//! The network I/O itself is done by the caller. This crate holds the
//! decisions of the protocol, as state machines that take what the network
//! delivered and say what to do next:
//!
//! * [`wire`]: the big-endian integers spoken on the wire;
//! * [`epoch`]: generation identifiers, their order and their encoding;
//! * [`address`]: the local listen address derived from a peer address;
//! * [`bind`]: the bounded retry of the listener's bind;
//! * [`dial`]: the connect-lower phase;
//! * [`accept`]: the accept-higher phase;
//! * [`handshake`]: how the two ends of one connection decide together;
//! * [`attempt`]: one attempt, from bind to mesh;
//! * [`error`]: what ends an attempt, and which of it is fatal;
//! * [`mesh`]: the assembled mesh, and its transport check at hand-off.
//!
//! Two small items of neighbouring subsystems live here as well: the load
//! generator kinds ([`generator`]) and the fusion transform ([`fusion`]).

pub mod wire;
pub mod epoch;
pub mod address;
pub mod error;
pub mod dial;
pub mod accept;
pub mod bind;
pub mod mesh;
pub mod handshake;
pub mod attempt;
pub mod generator;
pub mod fusion;
