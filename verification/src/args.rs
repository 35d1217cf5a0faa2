//! The input of a population run.

use vstd::prelude::*;

verus! {

/// Auxiliary data necessary to populate the store.
///
/// The rack is named by the 128 bits of its identifier.
#[derive(Clone, Copy, Debug)]
pub struct PopulateArgs {
    rack_id: u128,
}

impl PopulateArgs {
    /// The identifier of the rack that the run is for.
    pub closed spec fn rack(self) -> u128 {
        self.rack_id
    }

    pub fn new(rack_id: u128) -> (args: Self)
        ensures
            args.rack() == rack_id,
    {
        Self { rack_id }
    }

    /// The identifier of the rack that the run is for.
    pub fn rack_id(&self) -> (rack_id: u128)
        ensures
            rack_id == self.rack(),
    {
        self.rack_id
    }
}

} // verus!
