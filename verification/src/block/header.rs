//! The block header: its canonical encoding, its decoding, and what has to be
//! checked for its consensus proof to hold.

use vstd::prelude::*;
use crate::date::BlockDate;
use crate::key::{
    array32, array64, PendingVerification, PublicKey, Signature, SignatureAlgorithm,
    SignatureCheck, Verification, VrfProof, VrfPublicKey, PUBLIC_KEY_SIZE,
};
use crate::leadership::{BftLeader, GenesisPraosLeader, PublicLeader};
use crate::mempack::ReadBuf;
use crate::packer::{
    get_u16_be, get_u32_be, lemma_u16_be_of_bytes, lemma_u16_round_trip, lemma_u32_be_of_bytes,
    lemma_u32_round_trip, u16_be, u16_from_be, u32_be, Codec,
};
use vstd::slice::slice_subrange;

verus! {

/// The identity of a header: the content hash of its frame without the
/// length prefix.
pub type HeaderHash = crate::key::Hash;

/// The content hash of the body of a block.
pub type BlockContentHash = crate::key::Hash;

/// The identity of a block: that of its header.
pub type BlockId = crate::key::Hash;

/// The number of bytes of the body of a block.
pub type BlockContentSize = u32;

/// The 16-bit tag that selects the consensus algorithm of a block.
#[derive(Debug, Clone, Copy, PartialEq, Eq, PartialOrd, Ord, Hash)]
pub struct BlockVersion(pub u16);

/// The tag of no consensus: the block carries no proof.
pub const BLOCK_VERSION_CONSENSUS_NONE: u16 = 0x0000;

/// The tag of BFT: the block carries the leader's key and signature.
pub const BLOCK_VERSION_CONSENSUS_BFT: u16 = 0x0001;

/// The tag of Genesis-Praos: the block carries a VRF proof and a KES signature.
pub const BLOCK_VERSION_CONSENSUS_GENESIS_PRAOS: u16 = 0x0002;

impl BlockVersion {
    /// The version with the tag `v`.
    pub fn new(v: u16) -> (version: BlockVersion)
        ensures
            version == BlockVersion(v),
    {
        BlockVersion(v)
    }
}

/// The part of a header that is signed.
#[derive(Debug, Clone, Copy, PartialEq, Eq)]
pub struct Common {
    pub block_version: BlockVersion,
    pub block_date: BlockDate,
    pub block_content_size: BlockContentSize,
    pub block_content_hash: BlockContentHash,
    pub block_parent_hash: BlockId,
}

/// The message that the signature of a header signs.
pub type HeaderToSign = Common;

/// The signature of a BFT leader over the signed part of a header.
#[derive(Debug, Clone, Copy, PartialEq, Eq)]
pub struct BftSignature(pub Signature);

/// The proof of a block in BFT mode.
#[derive(Debug, Clone, Copy, PartialEq, Eq)]
pub struct BftProof {
    pub leader_id: BftLeader,
    pub signature: BftSignature,
}

/// The KES signature of a Genesis-Praos leader over the signed part of a header.
#[derive(Debug, Clone, Copy, PartialEq, Eq)]
pub struct KESSignature(pub Signature);

/// The proof of a block in Genesis-Praos mode.
#[derive(Debug, Clone, Copy, PartialEq, Eq)]
pub struct GenesisPraosProof {
    pub vrf_public_key: VrfPublicKey,
    pub vrf_proof: VrfProof,
    pub kes_public_key: PublicKey,
    pub kes_proof: KESSignature,
}

/// The consensus proof of a block.
#[derive(Debug, Clone, Copy, PartialEq, Eq)]
pub enum Proof {
    /// No consensus layer, so nothing to prove: the genesis block, for one.
    NoProof,
    Bft(BftProof),
    GenesisPraos(GenesisPraosProof),
}

/// Number of bytes of the encoding of a `Common`.
pub const COMMON_SIZE: usize = 78;

/// Number of bytes of a header frame up to the proof: the length prefix and
/// the `Common`.
pub const HEADER_FIXED_SIZE: usize = 80;

/// Number of bytes of the encoding of a BFT proof.
pub const BFT_PROOF_SIZE: usize = 96;

/// Why a header could not be decoded.
#[derive(Debug, Clone, Copy, PartialEq, Eq)]
pub enum HeaderError {
    /// The input ends before the header does.
    UnexpectedEof,
    /// The header names a consensus version whose proof cannot be decoded:
    /// Genesis-Praos, or a version that is not known. Callers treat this as
    /// fatal.
    UnsupportedVersion(BlockVersion),
}

impl Common {
    /// The canonical encoding: version, content size, epoch, slot, content
    /// hash, parent hash, integers in big-endian order. These bytes are the
    /// message that a header's signature signs.
    pub open spec fn spec_serialize(self) -> Seq<u8> {
        u16_be(self.block_version.0) + u32_be(self.block_content_size) + u32_be(
            self.block_date.epoch,
        ) + u32_be(self.block_date.slot_id) + self.block_content_hash.bytes@
            + self.block_parent_hash.bytes@
    }

    /// Appends the canonical encoding to `codec`.
    pub fn serialize(&self, codec: &mut Codec)
        ensures
            final(codec)@ == old(codec)@ + self.spec_serialize(),
    {
        codec.put_u16(self.block_version.0);
        codec.put_u32(self.block_content_size);
        codec.put_u32(self.block_date.epoch);
        codec.put_u32(self.block_date.slot_id);
        codec.put_bytes(self.block_content_hash.as_ref());
        codec.put_bytes(self.block_parent_hash.as_ref());
    }

    /// The canonical encoding as a vector.
    pub fn serialize_as_vec(&self) -> (bytes: Vec<u8>)
        ensures
            bytes@ == self.spec_serialize(),
    {
        let mut codec = Codec::new();
        self.serialize(&mut codec);
        codec.into_inner()
    }
}

impl Proof {
    /// The encoding of the proof: nothing; or the leader's key and its
    /// signature; or VRF key, VRF proof, KES key and KES signature.
    pub open spec fn spec_serialize(self) -> Seq<u8> {
        match self {
            Proof::NoProof => Seq::<u8>::empty(),
            Proof::Bft(bft) => bft.leader_id.0.bytes@ + bft.signature.0.bytes@,
            Proof::GenesisPraos(praos) => praos.vrf_public_key.bytes@ + praos.vrf_proof.bytes@
                + praos.kes_public_key.bytes@ + praos.kes_proof.0.bytes@,
        }
    }

    /// The number of bytes of the encoding, which depends on the kind alone.
    pub open spec fn spec_len(self) -> nat {
        match self {
            Proof::NoProof => 0,
            Proof::Bft(_) => 96,
            Proof::GenesisPraos(_) => 224,
        }
    }

    /// Whether the proof is of the kind that the consensus version `version`
    /// asks for.
    pub open spec fn matches_version(self, version: BlockVersion) -> bool {
        match self {
            Proof::NoProof => version.0 == BLOCK_VERSION_CONSENSUS_NONE,
            Proof::Bft(_) => version.0 == BLOCK_VERSION_CONSENSUS_BFT,
            Proof::GenesisPraos(_) => version.0 == BLOCK_VERSION_CONSENSUS_GENESIS_PRAOS,
        }
    }

    /// Appends the encoding of the proof to `codec`.
    pub fn serialize(&self, codec: &mut Codec)
        ensures
            final(codec)@ == old(codec)@ + self.spec_serialize(),
    {
        match self {
            Proof::NoProof => {
            },
            Proof::Bft(bft) => {
                codec.put_bytes(bft.leader_id.0.as_ref());
                codec.put_bytes(bft.signature.0.as_ref());
            },
            Proof::GenesisPraos(praos) => {
                codec.put_bytes(praos.vrf_public_key.as_ref());
                codec.put_bytes(praos.vrf_proof.as_ref());
                codec.put_bytes(praos.kes_public_key.as_ref());
                codec.put_bytes(praos.kes_proof.0.as_ref());
            },
        }
    }

    /// Whether the proof is of the kind that `version` asks for.
    pub fn fits(&self, version: &BlockVersion) -> (fits: bool)
        ensures
            fits == self.matches_version(*version),
    {
        match self {
            Proof::NoProof => version.0 == BLOCK_VERSION_CONSENSUS_NONE,
            Proof::Bft(_) => version.0 == BLOCK_VERSION_CONSENSUS_BFT,
            Proof::GenesisPraos(_) => version.0 == BLOCK_VERSION_CONSENSUS_GENESIS_PRAOS,
        }
    }

    /// The public identity of the leader who made the proof, if there is one.
    pub fn leader_id(&self) -> (leader: Option<PublicLeader>)
        ensures
            leader == match *self {
                Proof::NoProof => None::<PublicLeader>,
                Proof::Bft(bft) => Some(PublicLeader::Bft(bft.leader_id)),
                Proof::GenesisPraos(praos) => Some(
                    PublicLeader::GenesisPraos(
                        GenesisPraosLeader {
                            kes_public_key: praos.kes_public_key,
                            vrf_public_key: praos.vrf_public_key,
                        },
                    ),
                ),
            },
    {
        match self {
            Proof::NoProof => None,
            Proof::Bft(bft) => Some(PublicLeader::Bft(bft.leader_id)),
            Proof::GenesisPraos(praos) => Some(
                PublicLeader::GenesisPraos(
                    GenesisPraosLeader {
                        kes_public_key: praos.kes_public_key,
                        vrf_public_key: praos.vrf_public_key,
                    },
                ),
            ),
        }
    }
}

/// What follows the length prefix in a header's frame: the `Common`, then
/// the proof.
pub open spec fn header_body(common: Common, proof: Proof) -> Seq<u8> {
    common.spec_serialize() + proof.spec_serialize()
}

/// A header's frame: the length of the body as a 16-bit integer, then the body.
pub open spec fn header_frame(common: Common, proof: Proof) -> Seq<u8> {
    u16_be(header_body(common, proof).len() as u16) + header_body(common, proof)
}

/// Whether `bytes` starts with a frame of the header made of `common` and
/// `proof`. What the length prefix holds is not looked at.
pub open spec fn is_header_of(common: Common, proof: Proof, bytes: Seq<u8>) -> bool {
    &&& proof.matches_version(common.block_version)
    &&& bytes.len() >= 2 + header_body(common, proof).len()
    &&& bytes.subrange(2, 2 + header_body(common, proof).len() as int) == header_body(common, proof)
}

/// The error with which decoding `bytes` fails, if it does: the input is
/// shorter than the fixed part; or the version is BFT and the input is shorter
/// than the fixed part and a BFT proof; or the version is neither none nor
/// BFT.
pub open spec fn header_decode_error(bytes: Seq<u8>) -> Option<HeaderError> {
    if bytes.len() < HEADER_FIXED_SIZE {
        Some(HeaderError::UnexpectedEof)
    } else {
        let version = u16_from_be(bytes.subrange(2, 4));
        if version == BLOCK_VERSION_CONSENSUS_NONE {
            None
        } else if version == BLOCK_VERSION_CONSENSUS_BFT {
            if bytes.len() < HEADER_FIXED_SIZE + BFT_PROOF_SIZE {
                Some(HeaderError::UnexpectedEof)
            } else {
                None
            }
        } else {
            Some(HeaderError::UnsupportedVersion(BlockVersion(version)))
        }
    }
}

/// Where each field of a `Common` stands in its encoding.
pub proof fn lemma_common_layout(common: Common)
    ensures
        common.spec_serialize().len() == COMMON_SIZE,
        common.spec_serialize().subrange(0, 2) == u16_be(common.block_version.0),
        common.spec_serialize().subrange(2, 6) == u32_be(common.block_content_size),
        common.spec_serialize().subrange(6, 10) == u32_be(common.block_date.epoch),
        common.spec_serialize().subrange(10, 14) == u32_be(common.block_date.slot_id),
        common.spec_serialize().subrange(14, 46) == common.block_content_hash.bytes@,
        common.spec_serialize().subrange(46, 78) == common.block_parent_hash.bytes@,
{
}

/// Two `Common` values with the same encoding are the same: a change in any
/// field changes the message that is signed.
pub proof fn lemma_common_injective(a: Common, b: Common)
    requires
        a.spec_serialize() == b.spec_serialize(),
    ensures
        a == b,
{
    lemma_common_layout(a);
    lemma_common_layout(b);
    lemma_u16_round_trip(a.block_version.0);
    lemma_u16_round_trip(b.block_version.0);
    lemma_u32_round_trip(a.block_content_size);
    lemma_u32_round_trip(b.block_content_size);
    lemma_u32_round_trip(a.block_date.epoch);
    lemma_u32_round_trip(b.block_date.epoch);
    lemma_u32_round_trip(a.block_date.slot_id);
    lemma_u32_round_trip(b.block_date.slot_id);
    assert(a.block_content_hash.bytes =~= b.block_content_hash.bytes);
    assert(a.block_parent_hash.bytes =~= b.block_parent_hash.bytes);
}

/// The length of a proof's encoding, by its kind.
pub proof fn lemma_proof_length(p: Proof)
    ensures
        p.spec_serialize().len() == p.spec_len(),
{
}

/// Two proofs of the same kind with the same encoding are the same.
pub proof fn lemma_proof_injective(a: Proof, b: Proof, version: BlockVersion)
    requires
        a.matches_version(version),
        b.matches_version(version),
        a.spec_serialize() == b.spec_serialize(),
    ensures
        a == b,
{
    match (a, b) {
        (Proof::Bft(x), Proof::Bft(y)) => {
            let s = a.spec_serialize();
            assert(s.subrange(0, 32) =~= y.leader_id.0.bytes@);
            assert(s.subrange(32, 96) =~= y.signature.0.bytes@);
            assert(x.leader_id.0.bytes =~= y.leader_id.0.bytes);
            assert(x.signature.0.bytes =~= y.signature.0.bytes);
        },
        (Proof::GenesisPraos(x), Proof::GenesisPraos(y)) => {
            let s = a.spec_serialize();
            assert(s.subrange(0, 32) =~= y.vrf_public_key.bytes@);
            assert(s.subrange(32, 128) =~= y.vrf_proof.bytes@);
            assert(s.subrange(128, 160) =~= y.kes_public_key.bytes@);
            assert(s.subrange(160, 224) =~= y.kes_proof.0.bytes@);
            assert(x.vrf_public_key.bytes =~= y.vrf_public_key.bytes);
            assert(x.vrf_proof.bytes =~= y.vrf_proof.bytes);
            assert(x.kes_public_key.bytes =~= y.kes_public_key.bytes);
            assert(x.kes_proof.0.bytes =~= y.kes_proof.0.bytes);
        },
        _ => {},
    }
}

/// At most one header has its frame at the start of given bytes.
pub proof fn lemma_header_unique(a: Common, pa: Proof, b: Common, pb: Proof, bytes: Seq<u8>)
    requires
        is_header_of(a, pa, bytes),
        is_header_of(b, pb, bytes),
    ensures
        a == b,
        pa == pb,
{
    lemma_common_layout(a);
    lemma_common_layout(b);
    lemma_proof_length(pa);
    lemma_proof_length(pb);
    let body_a = header_body(a, pa);
    let body_b = header_body(b, pb);
    let end: int = body_a.len() as int;
    assert(a.spec_serialize() =~= body_a.subrange(0, 78));
    assert(b.spec_serialize() =~= body_b.subrange(0, 78));
    lemma_common_injective(a, b);
    assert(pa.spec_serialize() =~= body_a.subrange(78, end));
    assert(pb.spec_serialize() =~= body_b.subrange(78, end));
    lemma_proof_injective(pa, pb, a.block_version);
}

/// The block header: what places a block in the chain (its date and its
/// parent's hash), what binds it to its content, and the proof that the
/// appropriate leader made it.
///
/// The kind of the proof always matches the block version: a header cannot
/// be built otherwise.
#[derive(Debug, Clone, Copy, PartialEq, Eq)]
pub struct Header {
    common: Common,
    proof: Proof,
}

/// The frame of the header that decoding `bytes` yields, or the error with
/// which it fails. On success the header is the one whose frame, but for what
/// the length prefix holds, stands at the start of `bytes`.
pub open spec fn spec_deserialize(bytes: Seq<u8>) -> Result<Header, HeaderError> {
    match header_decode_error(bytes) {
        Some(error) => Err(error),
        None => {
            let found = choose|found: (Common, Proof)| is_header_of(found.0, found.1, bytes);
            Ok(Header::spec_new(found.0, found.1))
        },
    }
}

impl Header {
    #[verifier::type_invariant]
    spec fn coupled(self) -> bool {
        self.proof.matches_version(self.common.block_version)
    }

    /// The header made of `common` and `proof`.
    pub closed spec fn spec_new(common: Common, proof: Proof) -> Header {
        Header { common, proof }
    }

    /// The signed part of the header.
    pub closed spec fn spec_common(self) -> Common {
        self.common
    }

    /// The proof of the header.
    pub closed spec fn spec_proof(self) -> Proof {
        self.proof
    }

    /// The canonical encoding of the header: its frame.
    pub open spec fn spec_serialize(self) -> Seq<u8> {
        header_frame(self.spec_common(), self.spec_proof())
    }

    /// A header is made of its two parts and nothing else.
    pub proof fn lemma_parts(self)
        ensures
            self == Header::spec_new(self.spec_common(), self.spec_proof()),
    {
    }

    /// The two parts of the header made of `common` and `proof`.
    pub proof fn lemma_spec_new(common: Common, proof: Proof)
        ensures
            Header::spec_new(common, proof).spec_common() == common,
            Header::spec_new(common, proof).spec_proof() == proof,
    {
    }

    /// The header made of `common` and `proof`, if the kind of the proof is
    /// the one that the block version asks for; `None` if it is not.
    pub fn new(common: Common, proof: Proof) -> (header: Option<Header>)
        ensures
            proof.matches_version(common.block_version) ==> header == Some(
                Header::spec_new(common, proof),
            ),
            !proof.matches_version(common.block_version) ==> header is None,
            header matches Some(made) ==> made.spec_common() == common && made.spec_proof()
                == proof,
    {
        if proof.fits(&common.block_version) {
            Some(Header { common, proof })
        } else {
            None
        }
    }

    /// The consensus version, which the proof of the header matches.
    pub fn block_version(&self) -> (version: &BlockVersion)
        ensures
            *version == self.spec_common().block_version,
            self.spec_proof().matches_version(*version),
    {
        proof {
            use_type_invariant(self);
        }
        &self.common.block_version
    }

    /// The date of the block.
    pub fn block_date(&self) -> (date: &BlockDate)
        ensures
            *date == self.spec_common().block_date,
    {
        &self.common.block_date
    }

    /// The number of bytes of the body of the block.
    pub fn block_content_size(&self) -> (size: BlockContentSize)
        ensures
            size == self.spec_common().block_content_size,
    {
        self.common.block_content_size
    }

    /// The content hash of the body of the block.
    pub fn block_content_hash(&self) -> (hash: &BlockContentHash)
        ensures
            *hash == self.spec_common().block_content_hash,
    {
        &self.common.block_content_hash
    }

    /// The identity of the block before this one.
    pub fn block_parent_hash(&self) -> (hash: &BlockId)
        ensures
            *hash == self.spec_common().block_parent_hash,
    {
        &self.common.block_parent_hash
    }

    /// The signed part of the header.
    pub fn common(&self) -> (common: &Common)
        ensures
            *common == self.spec_common(),
    {
        &self.common
    }

    /// The proof of the header. Its kind is the one that the block version
    /// asks for.
    pub fn consensus_proof(&self) -> (found: &Proof)
        ensures
            *found == self.spec_proof(),
            found.matches_version(self.spec_common().block_version),
    {
        proof {
            use_type_invariant(self);
        }
        &self.proof
    }

    /// Appends the frame of the header to `codec`: a hole of two bytes, the
    /// signed part, the proof, and then the length of what follows the hole
    /// written into it.
    pub fn serialize(&self, codec: &mut Codec)
        ensures
            final(codec)@ == old(codec)@ + self.spec_serialize(),
    {
        proof {
            lemma_common_layout(self.common);
            lemma_proof_length(self.proof);
        }
        let start: usize = codec.buffered_len();
        let header_size_hole = codec.hole(2);
        self.common.serialize(codec);
        self.proof.serialize(codec);
        let body_len: usize = codec.buffered_len() - start - 2;
        codec.fill_hole_u16(header_size_hole, body_len as u16);
    }

    /// The frame of the header as a vector.
    pub fn serialize_as_vec(&self) -> (bytes: Vec<u8>)
        ensures
            bytes@ == self.spec_serialize(),
    {
        let mut codec = Codec::new();
        self.serialize(&mut codec);
        codec.into_inner()
    }

    /// The bytes whose content hash is the identity of the header: its frame
    /// without the two bytes of the length prefix.
    pub fn hash_preimage(&self) -> (bytes: Vec<u8>)
        ensures
            bytes@ == self.spec_serialize().skip(2),
            bytes@ == header_body(self.spec_common(), self.spec_proof()),
    {
        let mut codec = Codec::new();
        self.common.serialize(&mut codec);
        self.proof.serialize(&mut codec);
        codec.into_inner()
    }

    /// What has to be checked for the proof of the header to hold. Without a
    /// proof, nothing: the verification succeeds. With a BFT proof, that the
    /// signature signs the encoding of the signed part under the leader's key.
    /// With a Genesis-Praos proof, that the KES signature signs the same bytes
    /// under the KES key; the VRF proof is carried and not checked.
    pub fn verify_proof(&self) -> (pending: PendingVerification)
        ensures
            self.spec_proof() is NoProof ==> pending == PendingVerification::Decided(
                Verification::Success,
            ),
            self.spec_proof() matches Proof::Bft(bft) ==> (pending matches PendingVerification::Signature(
                check,
            ) && check.algorithm == SignatureAlgorithm::Ed25519Extended && check.public_key
                == bft.leader_id.0 && check.signature == bft.signature.0 && check.message@
                == self.spec_common().spec_serialize()),
            self.spec_proof() matches Proof::GenesisPraos(praos) ==> (pending matches PendingVerification::Signature(
                check,
            ) && check.algorithm == SignatureAlgorithm::Kes && check.public_key
                == praos.kes_public_key && check.signature == praos.kes_proof.0 && check.message@
                == self.spec_common().spec_serialize()),
    {
        match &self.proof {
            Proof::NoProof => PendingVerification::Decided(Verification::Success),
            Proof::Bft(bft) => PendingVerification::Signature(
                SignatureCheck {
                    algorithm: SignatureAlgorithm::Ed25519Extended,
                    public_key: bft.leader_id.0,
                    signature: bft.signature.0,
                    message: self.common.serialize_as_vec(),
                },
            ),
            Proof::GenesisPraos(praos) => PendingVerification::Signature(
                SignatureCheck {
                    algorithm: SignatureAlgorithm::Kes,
                    public_key: praos.kes_public_key,
                    signature: praos.kes_proof.0,
                    message: self.common.serialize_as_vec(),
                },
            ),
        }
    }

    /// Decodes a header from the cursor. The length prefix is read and not
    /// held against anything. A header without consensus or with a BFT proof
    /// is decoded and the cursor moves past its frame. Any other version is
    /// refused as unsupported, whatever follows it. When decoding fails the
    /// cursor stays where it was.
    pub fn deserialize(buf: &mut ReadBuf) -> (result: Result<Header, HeaderError>)
        ensures
            result == spec_deserialize(old(buf).remaining()),
            final(buf).input() == old(buf).input(),
            result matches Ok(header) ==> is_header_of(
                header.spec_common(),
                header.spec_proof(),
                old(buf).remaining(),
            ) && final(buf).remaining() == old(buf).remaining().skip(
                header.spec_serialize().len() as int,
            ),
            result is Err ==> *final(buf) == *old(buf),
    {
        let start: ReadBuf = *buf;
        let ghost bytes = buf.remaining();
        let fixed = match buf.get_slice(HEADER_FIXED_SIZE) {
            Ok(fixed) => fixed,
            Err(_) => {
                return Err(HeaderError::UnexpectedEof);
            },
        };
        let version: u16 = get_u16_be(fixed, 2);
        let block_content_size: u32 = get_u32_be(fixed, 4);
        let epoch: u32 = get_u32_be(fixed, 8);
        let slot_id: u32 = get_u32_be(fixed, 12);
        let block_content_hash = crate::key::Hash::from_bytes(
            array32(slice_subrange(fixed, 16, 48)),
        );
        let block_parent_hash = crate::key::Hash::from_bytes(
            array32(slice_subrange(fixed, 48, 80)),
        );
        let common = Common {
            block_version: BlockVersion(version),
            block_date: BlockDate { epoch, slot_id },
            block_content_size,
            block_content_hash,
            block_parent_hash,
        };
        proof {
            lemma_u16_be_of_bytes(fixed@.subrange(2, 4));
            lemma_u32_be_of_bytes(fixed@.subrange(4, 8));
            lemma_u32_be_of_bytes(fixed@.subrange(8, 12));
            lemma_u32_be_of_bytes(fixed@.subrange(12, 16));
        }
        if version == BLOCK_VERSION_CONSENSUS_NONE {
            let header = Header { common, proof: Proof::NoProof };
            proof {
                assert(header_body(common, Proof::NoProof) =~= bytes.subrange(2, 80));
                lemma_decoded(common, Proof::NoProof, bytes);
            }
            Ok(header)
        } else if version == BLOCK_VERSION_CONSENSUS_BFT {
            match buf.get_slice(BFT_PROOF_SIZE) {
                Ok(encoded) => {
                    let leader_id = BftLeader(
                        PublicKey::from_bytes(
                            array32(slice_subrange(encoded, 0, PUBLIC_KEY_SIZE)),
                        ),
                    );
                    let signature = BftSignature(
                        Signature::from_bytes(
                            array64(slice_subrange(encoded, PUBLIC_KEY_SIZE, BFT_PROOF_SIZE)),
                        ),
                    );
                    let found = Proof::Bft(BftProof { leader_id, signature });
                    let header = Header { common, proof: found };
                    proof {
                        assert(header_body(common, found) =~= bytes.subrange(2, 176));
                        lemma_decoded(common, found, bytes);
                    }
                    Ok(header)
                },
                Err(_) => {
                    *buf = start;
                    Err(HeaderError::UnexpectedEof)
                },
            }
        } else {
            *buf = start;
            Err(HeaderError::UnsupportedVersion(BlockVersion(version)))
        }
    }
}

/// Where decoding does not fail and a header has its frame at the start of
/// the bytes, decoding yields that header.
proof fn lemma_decoded(common: Common, found: Proof, bytes: Seq<u8>)
    requires
        is_header_of(common, found, bytes),
        header_decode_error(bytes) is None,
    ensures
        spec_deserialize(bytes) == Ok::<Header, HeaderError>(Header::spec_new(common, found)),
{
    let chosen = choose|chosen: (Common, Proof)| is_header_of(chosen.0, chosen.1, bytes);
    assert(is_header_of((common, found).0, (common, found).1, bytes));
    lemma_header_unique(common, found, chosen.0, chosen.1, bytes);
}

/// Two headers whose frames agree after the length prefix are the same
/// header: what the identity hash of a header covers tells headers apart.
pub proof fn lemma_hash_preimage_injective(a: Header, b: Header)
    requires
        a.spec_proof().matches_version(a.spec_common().block_version),
        b.spec_proof().matches_version(b.spec_common().block_version),
        a.spec_serialize().skip(2) == b.spec_serialize().skip(2),
    ensures
        a == b,
{
    let bytes = a.spec_serialize();
    let body_a = header_body(a.spec_common(), a.spec_proof());
    let body_b = header_body(b.spec_common(), b.spec_proof());
    assert(b.spec_serialize().skip(2) =~= body_b);
    let end: int = body_a.len() as int + 2;
    assert(bytes.subrange(2, end) =~= body_a);
    lemma_header_unique(a.spec_common(), a.spec_proof(), b.spec_common(), b.spec_proof(), bytes);
    a.lemma_parts();
    b.lemma_parts();
}

/// Decoding the canonical encoding of a header without consensus or with a
/// BFT proof gives the header back.
pub proof fn lemma_round_trip(header: Header)
    requires
        header.spec_proof().matches_version(header.spec_common().block_version),
        header.spec_common().block_version.0 == BLOCK_VERSION_CONSENSUS_NONE
            || header.spec_common().block_version.0 == BLOCK_VERSION_CONSENSUS_BFT,
    ensures
        spec_deserialize(header.spec_serialize()) == Ok::<Header, HeaderError>(header),
{
    let common = header.spec_common();
    let found = header.spec_proof();
    let bytes = header.spec_serialize();
    let body = header_body(common, found);
    lemma_common_layout(common);
    lemma_proof_length(found);
    lemma_u16_round_trip(common.block_version.0);
    let end: int = body.len() as int + 2;
    assert(bytes.subrange(2, end) =~= body);
    lemma_decoded(common, found, bytes);
    header.lemma_parts();
}

} // verus!
