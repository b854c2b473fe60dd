use vstd::prelude::*;

pub mod market;
pub mod position;

verus! {

/// The identity of an account: its 32 bytes. The library only carries
/// identities from its inputs to its records and events.
#[derive(Clone, Copy, Debug, PartialEq, Eq)]
pub struct AccountKey {
    pub bytes: [u8; 32],
}

} // verus!
