//! The optimizer transform that fuses like operators.

use vstd::prelude::*;

verus! {

/// Fuses multiple like operators together when possible.
#[derive(Clone, Copy, Debug)]
pub struct Fusion;

impl Fusion {
    /// The transform's name, as it appears in optimizer traces.
    pub fn name(&self) -> (r: &'static str)
        ensures
            r@ == seq!['F', 'u', 's', 'i', 'o', 'n'],
    {
        let r = "Fusion";
        proof {
            reveal_strlit("Fusion");
        }
        assert(r@ =~= seq!['F', 'u', 's', 'i', 'o', 'n']);
        r
    }
}

} // verus!
