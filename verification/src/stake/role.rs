//! Who takes part in staking: stake keys and stake pools.

use vstd::prelude::*;
use crate::key::PublicKey;
use crate::leadership::GenesisPraosLeader;

verus! {

/// The identifier of a stake key: its public key.
#[derive(Debug, Clone, Copy, PartialEq, Eq, PartialOrd, Ord, Hash)]
pub struct StakeKeyId(pub PublicKey);

/// The identifier of a stake pool: the content hash of its registration.
#[derive(Debug, Clone, Copy, PartialEq, Eq, PartialOrd, Ord, Hash)]
pub struct StakePoolId(pub crate::key::Hash);

impl StakePoolId {
    /// Whether two identifiers are the same.
    pub fn same(&self, other: &StakePoolId) -> (same: bool)
        ensures
            same == (*self == *other),
    {
        self.0.same(&other.0)
    }
}

/// The registration of a stake pool: its owners, the keys with which it
/// leads blocks, and the identifier that stands for all of it.
#[derive(Debug, Clone, PartialEq, Eq)]
pub struct StakePoolInfo {
    pub id: StakePoolId,
    pub serial: u128,
    pub owners: Vec<StakeKeyId>,
    pub initial_key: GenesisPraosLeader,
}

impl StakePoolInfo {
    /// The identifier of the pool.
    pub fn to_id(&self) -> (id: StakePoolId)
        ensures
            id == self.id,
    {
        self.id
    }
}

} // verus!
