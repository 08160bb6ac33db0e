//! Opaque identifiers for players, games and pots.

use vstd::prelude::*;

verus! {

/// A 256-bit identifier, held as two 128-bit halves. The library only ever
/// compares identifiers for equality.
#[derive(Clone, Copy, Debug, PartialEq, Eq, Structural, Hash)]
pub struct Identity {
    pub hi: u128,
    pub lo: u128,
}

impl Identity {
    /// The identifier with the given halves.
    pub fn new(hi: u128, lo: u128) -> (id: Identity)
        ensures
            id == (Identity { hi, lo }),
    {
        Identity { hi, lo }
    }
}

} // verus!
