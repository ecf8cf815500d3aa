//! Account addresses.

use vstd::prelude::*;

verus! {

/// The fixed-width identifier of an account or a program. The orchestrator
/// never looks inside: it only carries addresses from the account list into
/// the sub-calls it builds.
#[derive(Clone, Copy, Debug, PartialEq, Eq, Hash)]
pub struct Address {
    pub bytes: [u8; 32],
}

impl Address {
    /// The address made of the given bytes.
    pub fn new(bytes: [u8; 32]) -> (address: Address)
        ensures
            address.bytes == bytes,
    {
        Address { bytes }
    }
}

} // verus!
