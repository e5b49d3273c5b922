//! Load generators: built-in sources that produce synthetic data.

use vstd::prelude::*;

verus! {

/// The kinds of load generator.
#[derive(Clone, Copy, Debug, PartialEq, Eq, Structural)]
pub enum LoadGenerator {
    Auction,
    Counter,
}

/// A source of synthetic data.
pub trait Generator {
    /// Which kind of load generator this is.
    spec fn spec_kind(&self) -> LoadGenerator;

    /// Which kind of load generator this is.
    fn kind(&self) -> (r: LoadGenerator)
        ensures
            r == self.spec_kind(),
    ;
}

/// The generator of an auction house: users, auctions and bids.
pub struct Auction {}

/// The generator of a counter that goes up by one each tick.
pub struct Counter {}

impl Generator for Auction {
    open spec fn spec_kind(&self) -> LoadGenerator {
        LoadGenerator::Auction
    }

    fn kind(&self) -> (r: LoadGenerator) {
        LoadGenerator::Auction
    }
}

impl Generator for Counter {
    open spec fn spec_kind(&self) -> LoadGenerator {
        LoadGenerator::Counter
    }

    fn kind(&self) -> (r: LoadGenerator) {
        LoadGenerator::Counter
    }
}

/// A generator of any kind.
pub enum AnyGenerator {
    Auction(Auction),
    Counter(Counter),
}

impl Generator for AnyGenerator {
    open spec fn spec_kind(&self) -> LoadGenerator {
        match self {
            AnyGenerator::Auction(a) => a.spec_kind(),
            AnyGenerator::Counter(c) => c.spec_kind(),
        }
    }

    fn kind(&self) -> (r: LoadGenerator) {
        match self {
            AnyGenerator::Auction(a) => a.kind(),
            AnyGenerator::Counter(c) => c.kind(),
        }
    }
}

/// The generator of the given kind.
pub fn as_generator(g: &LoadGenerator) -> (r: AnyGenerator)
    ensures
        r.spec_kind() == *g,
        *g == LoadGenerator::Auction ==> r is Auction,
        *g == LoadGenerator::Counter ==> r is Counter,
{
    match g {
        LoadGenerator::Auction => AnyGenerator::Auction(Auction {}),
        LoadGenerator::Counter => AnyGenerator::Counter(Counter {}),
    }
}

} // verus!
