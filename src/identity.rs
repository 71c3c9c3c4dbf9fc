use vstd::prelude::*;

verus! {

/// A 32-byte public key, held as two big-endian halves.
#[derive(Clone, Copy, Debug, PartialEq, Eq, Structural)]
pub struct Identity {
    pub high: u128,
    pub low: u128,
}

} // verus!
