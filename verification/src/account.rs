use vstd::prelude::*;

verus! {

/// An account identifier: 256 bits of identity with no further meaning,
/// held as two halves so that it can be compared and copied freely.
#[derive(Clone, Copy, Debug, PartialEq, Eq, Hash, Structural)]
pub struct Address {
    pub high: u128,
    pub low: u128,
}

impl Address {
    /// Builds an identifier from its two halves.
    pub fn new(high: u128, low: u128) -> (r: Address)
        ensures
            r == (Address { high, low }),
    {
        Address { high, low }
    }
}

} // verus!
