//! The public identities of block leaders.

use vstd::prelude::*;
use crate::key::{PublicKey, VrfPublicKey};

verus! {

/// The leader of a block in BFT mode: its signing public key.
#[derive(Debug, Clone, Copy, PartialEq, Eq, PartialOrd, Ord, Hash)]
pub struct BftLeader(pub PublicKey);

/// The leader of a block in Genesis-Praos mode: its KES and VRF public keys.
#[derive(Debug, Clone, Copy, PartialEq, Eq, PartialOrd, Ord, Hash)]
pub struct GenesisPraosLeader {
    pub kes_public_key: PublicKey,
    pub vrf_public_key: VrfPublicKey,
}

/// The public identity of whoever made a block.
#[derive(Debug, Clone, Copy, PartialEq, Eq)]
pub enum PublicLeader {
    Bft(BftLeader),
    GenesisPraos(GenesisPraosLeader),
}

} // verus!
