//! Structural core of a blockchain ledger: the canonical block header and its
//! consensus proof, the payload/authorisation framing of certificates with the
//! vote-tally certificate as its instance, and the persistent registry of
//! stake pools.
//!
//! Every encoding is stated as a function from values to byte sequences, and
//! every executable encoder and decoder is proved against it. Cryptographic
//! primitives are not part of this crate: where a decision depends on a
//! signature, the library hands out what has to be checked and takes the
//! verdict back.

pub mod key;
pub mod packer;
pub mod mempack;
pub mod date;
pub mod leadership;
pub mod block;
pub mod typed_bytes;
pub mod vote;
pub mod transaction;
pub mod certificate;
pub mod stake;
