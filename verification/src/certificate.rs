//! Certificates: the governance actions that a transaction can carry.

use vstd::prelude::*;
use crate::transaction::PayloadSlice;
use crate::certificate::vote_tally::VoteTally;

pub mod vote_tally;

verus! {

/// The identifier of a vote plan: the content hash of the plan.
#[derive(Debug, Clone, Copy, PartialEq, Eq, PartialOrd, Ord, Hash)]
pub struct VotePlanId(pub crate::key::Hash);

impl VotePlanId {
    /// The identifier whose bytes are `bytes`.
    pub fn from(bytes: [u8; 32]) -> (id: VotePlanId)
        ensures
            id.0.bytes == bytes,
    {
        VotePlanId(crate::key::Hash { bytes })
    }

    /// The bytes of the identifier.
    pub fn as_ref(&self) -> (bytes: &[u8])
        ensures
            bytes@ == self.0.bytes@,
    {
        self.0.as_ref()
    }
}

/// The encoded body of a certificate, with its kind.
#[derive(Debug)]
pub enum CertificateSlice<'a> {
    VoteTally(PayloadSlice<'a, VoteTally>),
}

impl<'a> View for CertificateSlice<'a> {
    type V = Seq<u8>;

    open spec fn view(&self) -> Seq<u8> {
        match self {
            CertificateSlice::VoteTally(payload) => payload@,
        }
    }
}

} // verus!
