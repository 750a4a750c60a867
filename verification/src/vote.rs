//! What a vote plan names: the kind of its payload, its committee members,
//! and the shares with which a private tally is decrypted.

use vstd::prelude::*;
use crate::key::{array32, array32_of, PublicKey};
use crate::mempack::{ReadBuf, ReadError, ReadErrorView};

verus! {

/// Whether the votes of a plan are cast in the open or encrypted.
#[derive(Debug, Clone, Copy, PartialEq, Eq, Hash, Structural)]
pub enum PayloadType {
    Public,
    Private,
}

/// A byte that names no `PayloadType`.
#[derive(Debug, Clone, Copy, PartialEq, Eq, Structural)]
pub struct TryFromIntError;

/// The text of a `TryFromIntError`.
pub open spec fn out_of_range_text() -> Seq<char> {
    "out of range integral type conversion attempted"@
}

impl TryFromIntError {
    /// Says what went wrong.
    pub fn to_string(&self) -> (text: String)
        ensures
            text@ == out_of_range_text(),
    {
        "out of range integral type conversion attempted".to_owned()
    }
}

impl PayloadType {
    /// The byte that stands for the payload type in encodings: 0 for public,
    /// 1 for private.
    pub open spec fn spec_tag(self) -> u8 {
        match self {
            PayloadType::Public => 0,
            PayloadType::Private => 1,
        }
    }

    /// The payload type that the byte `tag` stands for, if it stands for one.
    pub open spec fn spec_from_tag(tag: u8) -> Option<PayloadType> {
        if tag == 0 {
            Some(PayloadType::Public)
        } else if tag == 1 {
            Some(PayloadType::Private)
        } else {
            None
        }
    }

    /// The byte that stands for the payload type in encodings.
    pub fn to_u8(self) -> (tag: u8)
        ensures
            tag == self.spec_tag(),
    {
        match self {
            PayloadType::Public => 0,
            PayloadType::Private => 1,
        }
    }

    /// The payload type that `tag` stands for; an error for a byte that
    /// stands for none.
    pub fn try_from(tag: u8) -> (result: Result<PayloadType, TryFromIntError>)
        ensures
            result == match PayloadType::spec_from_tag(tag) {
                Some(payload_type) => Ok::<PayloadType, TryFromIntError>(payload_type),
                None => Err::<PayloadType, TryFromIntError>(TryFromIntError),
            },
    {
        if tag == 0 {
            Ok(PayloadType::Public)
        } else if tag == 1 {
            Ok(PayloadType::Private)
        } else {
            Err(TryFromIntError)
        }
    }
}

/// Number of bytes of a committee member's identifier.
pub const COMMITTEE_ID_SIZE: usize = 32;

/// The identifier of a committee member: the bytes of its public key.
#[derive(Debug, Clone, Copy, PartialEq, Eq, PartialOrd, Ord, Hash)]
pub struct CommitteeId {
    pub bytes: [u8; 32],
}

impl CommitteeId {
    /// The identifier whose bytes are `bytes`.
    pub fn from_bytes(bytes: [u8; 32]) -> (id: CommitteeId)
        ensures
            id.bytes == bytes,
    {
        CommitteeId { bytes }
    }

    /// The bytes of the identifier.
    pub fn as_ref(&self) -> (bytes: &[u8])
        ensures
            bytes@ == self.bytes@,
    {
        self.bytes.as_slice()
    }

    /// The public key under which the member signs.
    pub open spec fn spec_public_key(self) -> PublicKey {
        PublicKey { bytes: self.bytes }
    }

    /// The public key under which the member signs.
    pub fn public_key(&self) -> (key: PublicKey)
        ensures
            key == self.spec_public_key(),
    {
        PublicKey { bytes: self.bytes }
    }

    /// Reads an identifier: the next 32 bytes.
    pub fn read(buf: &mut ReadBuf) -> (result: Result<CommitteeId, ReadError>)
        ensures
            final(buf).input() == old(buf).input(),
            old(buf).remaining().len() >= 32 ==> result == Ok::<CommitteeId, ReadError>(
                CommitteeId { bytes: array32_of(old(buf).remaining().take(32)) },
            ) && result->Ok_0.bytes@ == old(buf).remaining().take(32) && final(buf).remaining()
                == old(buf).remaining().skip(32),
            old(buf).remaining().len() < 32 ==> result is Err && result->Err_0@
                == ReadErrorView::NotEnoughBytes(old(buf).remaining().len() as usize, 32)
                && *final(buf) == *old(buf),
    {
        match buf.get_slice(COMMITTEE_ID_SIZE) {
            Ok(bytes) => {
                assert(bytes@.take(32) =~= bytes@);
                Ok(CommitteeId { bytes: array32(bytes) })
            },
            Err(error) => Err(error),
        }
    }
}

/// One committee member's share of the decryption of a private tally, held
/// as its encoding. What the bytes mean is for the voting scheme to say.
#[derive(Debug, Clone, PartialEq, Eq)]
pub struct TallyDecryptShare {
    pub bytes: Vec<u8>,
}

impl View for TallyDecryptShare {
    type V = Seq<u8>;

    open spec fn view(&self) -> Seq<u8> {
        self.bytes@
    }
}

impl TallyDecryptShare {
    /// The share whose encoding is `bytes`.
    pub fn from_bytes(bytes: Vec<u8>) -> (share: TallyDecryptShare)
        ensures
            share@ == bytes@,
    {
        TallyDecryptShare { bytes }
    }

    /// The encoding of the share.
    pub fn serialize(&self) -> (bytes: &[u8])
        ensures
            bytes@ == self@,
    {
        self.bytes.as_slice()
    }
}

} // verus!
