//! The certificate that opens the tally of a vote plan, and the proof that
//! authorises it.

use vstd::prelude::*;
use std::marker::PhantomData;
use crate::certificate::{CertificateSlice, VotePlanId};
use crate::key::{
    append_bytes, array32, array32_of, array64_of, lemma_array32_of, lemma_array64_of, HASH_SIZE,
};
use crate::key::{PendingVerification, Signature, SignatureAlgorithm, Verification};
use crate::mempack::{ReadBuf, ReadError, ReadErrorView};
use crate::packer::u64_be;
use crate::transaction::{
    Payload, PayloadAuthData, PayloadData, PayloadSlice, SingleAccountBindingSignature,
    TransactionBindingAuthData,
};
use crate::typed_bytes::{ByteArray, ByteBuilder};
use crate::vote::{out_of_range_text, CommitteeId, PayloadType, TallyDecryptShare};

verus! {

/// Whether a tally counts votes cast in the open or decrypts encrypted ones.
#[derive(Debug, Clone, Copy, PartialEq, Eq, Hash, Structural)]
pub enum VoteTallyPayload {
    Public,
    Private,
}

impl VoteTallyPayload {
    /// The payload type of the vote plans that such a tally is for.
    pub open spec fn spec_payload_type(self) -> PayloadType {
        match self {
            VoteTallyPayload::Public => PayloadType::Public,
            VoteTallyPayload::Private => PayloadType::Private,
        }
    }

    /// The payload type of the vote plans that such a tally is for.
    pub fn payload_type(&self) -> (payload_type: PayloadType)
        ensures
            payload_type == self.spec_payload_type(),
    {
        match self {
            VoteTallyPayload::Public => PayloadType::Public,
            VoteTallyPayload::Private => PayloadType::Private,
        }
    }
}

/// The certificate that opens the tally of the vote plan `id`.
#[derive(Debug, Clone, Copy, PartialEq, Eq, Hash)]
pub struct VoteTally {
    id: VotePlanId,
    payload: VoteTallyPayload,
}

/// The text of the error for a proof that starts with an unknown tag.
pub open spec fn unknown_proof_text() -> Seq<char> {
    "Unknown Tally proof type"@
}

impl VoteTally {
    /// The tally made of `id` and `payload`.
    pub closed spec fn spec_new(id: VotePlanId, payload: VoteTallyPayload) -> VoteTally {
        VoteTally { id, payload }
    }

    /// The vote plan that the tally is of.
    pub closed spec fn spec_id(self) -> VotePlanId {
        self.id
    }

    /// The kind of the tally.
    pub closed spec fn spec_payload(self) -> VoteTallyPayload {
        self.payload
    }

    /// A tally is made of its two parts and nothing else.
    pub proof fn lemma_parts(self)
        ensures
            self == VoteTally::spec_new(self.spec_id(), self.spec_payload()),
    {
    }

    /// The two parts of the tally made of `id` and `payload`.
    pub proof fn lemma_spec_new(id: VotePlanId, payload: VoteTallyPayload)
        ensures
            VoteTally::spec_new(id, payload).spec_id() == id,
            VoteTally::spec_new(id, payload).spec_payload() == payload,
    {
    }

    /// The canonical encoding: the 32 bytes of the vote plan's identifier,
    /// then the byte of the payload type.
    pub open spec fn spec_serialize(self) -> Seq<u8> {
        self.spec_id().0.bytes@.push(self.spec_payload().spec_payload_type().spec_tag())
    }

    /// What decoding `bytes` yields: the tally whose encoding stands at their
    /// start, or the error of the first read that fails.
    pub open spec fn spec_read(bytes: Seq<u8>) -> Result<VoteTally, ReadErrorView> {
        if bytes.len() < 32 {
            Err(ReadErrorView::NotEnoughBytes(bytes.len() as usize, 32))
        } else if bytes.len() < 33 {
            Err(ReadErrorView::NotEnoughBytes(0, 1))
        } else {
            match PayloadType::spec_from_tag(bytes[32]) {
                Some(PayloadType::Public) => Ok(
                    VoteTally::spec_new(
                        VotePlanId(crate::key::Hash { bytes: array32_of(bytes.take(32)) }),
                        VoteTallyPayload::Public,
                    ),
                ),
                Some(PayloadType::Private) => Ok(
                    VoteTally::spec_new(
                        VotePlanId(crate::key::Hash { bytes: array32_of(bytes.take(32)) }),
                        VoteTallyPayload::Private,
                    ),
                ),
                None => Err(ReadErrorView::StructureInvalid(out_of_range_text())),
            }
        }
    }

    /// The certificate that opens the public tally of the vote plan `id`.
    pub fn new_public(id: VotePlanId) -> (tally: VoteTally)
        ensures
            tally == VoteTally::spec_new(id, VoteTallyPayload::Public),
            tally.spec_id() == id,
            tally.spec_payload() == VoteTallyPayload::Public,
    {
        VoteTally { id, payload: VoteTallyPayload::Public }
    }

    /// The vote plan that the tally is of.
    pub fn id(&self) -> (id: &VotePlanId)
        ensures
            *id == self.spec_id(),
    {
        &self.id
    }

    /// Whether the tally is public or private.
    pub fn tally_type(&self) -> (tally_type: PayloadType)
        ensures
            tally_type == self.spec_payload().spec_payload_type(),
    {
        self.payload.payload_type()
    }

    /// Appends the canonical encoding to `bb`.
    pub fn serialize_in(&self, bb: ByteBuilder<VoteTally>) -> (builder: ByteBuilder<VoteTally>)
        ensures
            builder@ == bb@ + self.spec_serialize(),
    {
        bb.bytes(self.id.as_ref()).u8(self.payload.payload_type().to_u8())
    }

    /// The canonical encoding.
    pub fn serialize(&self) -> (array: ByteArray<VoteTally>)
        ensures
            array@ == self.spec_serialize(),
    {
        let builder = self.serialize_in(ByteBuilder::new());
        builder.finalize()
    }

    /// Decodes a tally from the cursor, which moves past the 33 bytes of its
    /// encoding. A byte that stands for no payload type is a structural
    /// error. When decoding fails the cursor stays where it was.
    pub fn read(buf: &mut ReadBuf) -> (result: Result<VoteTally, ReadError>)
        ensures
            final(buf).input() == old(buf).input(),
            match VoteTally::spec_read(old(buf).remaining()) {
                Ok(tally) => result == Ok::<VoteTally, ReadError>(tally) && final(buf).remaining()
                    == old(buf).remaining().skip(33) && tally.spec_serialize() == old(
                    buf,
                ).remaining().take(33),
                Err(error) => result is Err && result->Err_0@ == error && *final(buf) == *old(buf),
            },
    {
        let start: ReadBuf = *buf;
        let ghost bytes = buf.remaining();
        let id = match buf.get_slice(HASH_SIZE) {
            Ok(id) => VotePlanId::from(array32(id)),
            Err(error) => {
                return Err(error);
            },
        };
        let tag = match buf.get_u8() {
            Ok(tag) => tag,
            Err(error) => {
                *buf = start;
                return Err(error);
            },
        };
        proof {
            assert(bytes.take(32).take(32) =~= bytes.take(32));
        }
        let payload = match PayloadType::try_from(tag) {
            Ok(PayloadType::Public) => VoteTallyPayload::Public,
            Ok(PayloadType::Private) => VoteTallyPayload::Private,
            Err(error) => {
                *buf = start;
                return Err(ReadError::StructureInvalid(error.to_string()));
            },
        };
        Ok(VoteTally { id, payload })
    }

    /// Decoding the canonical encoding of a tally gives the tally back.
    pub proof fn lemma_round_trip(self)
        ensures
            VoteTally::spec_read(self.spec_serialize()) == Ok::<VoteTally, ReadErrorView>(self),
    {
        let bytes = self.spec_serialize();
        assert(bytes.take(32) =~= self.id.0.bytes@);
        lemma_array32_of(self.id.0.bytes);
    }
}

/// The encodings of the shares in `shares`, in their order.
pub open spec fn share_views(shares: Seq<TallyDecryptShare>) -> Seq<Seq<u8>> {
    Seq::new(shares.len(), |i: int| shares[i]@)
}

/// The proof that authorises a tally: a committee member and its signature
/// over the transaction, and for a private tally the decryption shares.
#[derive(Debug, Clone, PartialEq, Eq)]
pub enum TallyProof {
    Public { id: CommitteeId, signature: SingleAccountBindingSignature },
    Private {
        id: CommitteeId,
        signature: SingleAccountBindingSignature,
        shares: Vec<TallyDecryptShare>,
    },
}

/// A `TallyProof` with its shares as the sequence of their encodings.
pub enum TallyProofView {
    Public { id: CommitteeId, signature: SingleAccountBindingSignature },
    Private { id: CommitteeId, signature: SingleAccountBindingSignature, shares: Seq<Seq<u8>> },
}

impl View for TallyProof {
    type V = TallyProofView;

    open spec fn view(&self) -> TallyProofView {
        match self {
            TallyProof::Public { id, signature } => TallyProofView::Public {
                id: *id,
                signature: *signature,
            },
            TallyProof::Private { id, signature, shares } => TallyProofView::Private {
                id: *id,
                signature: *signature,
                shares: share_views(shares@),
            },
        }
    }
}

impl TallyProofView {
    /// The payload type of the tallies that the proof can authorise.
    pub open spec fn payload_type(self) -> PayloadType {
        match self {
            TallyProofView::Public { .. } => PayloadType::Public,
            TallyProofView::Private { .. } => PayloadType::Private,
        }
    }

    /// The committee member who signed.
    pub open spec fn committee_id(self) -> CommitteeId {
        match self {
            TallyProofView::Public { id, .. } => id,
            TallyProofView::Private { id, .. } => id,
        }
    }

    /// The signature.
    pub open spec fn signature(self) -> SingleAccountBindingSignature {
        match self {
            TallyProofView::Public { signature, .. } => signature,
            TallyProofView::Private { signature, .. } => signature,
        }
    }

    /// The canonical encoding: the tag (0 public, 1 private), the committee
    /// member's identifier, the signature; for a private proof then the
    /// number of shares as a 64-bit integer and the shares' encodings one
    /// after the other.
    pub open spec fn spec_serialize(self) -> Seq<u8> {
        match self {
            TallyProofView::Public { id, signature } => seq![0u8] + id.bytes@
                + signature.0.bytes@,
            TallyProofView::Private { id, signature, shares } => seq![1u8] + id.bytes@
                + signature.0.bytes@ + u64_be(shares.len() as u64) + shares.flatten(),
        }
    }
}

/// Concatenates the encodings of the shares.
fn concat_shares(shares: &Vec<TallyDecryptShare>) -> (all: Vec<u8>)
    ensures
        all@ == share_views(shares@).flatten(),
{
    let mut all: Vec<u8> = Vec::new();
    let mut i: usize = 0;
    while i < shares.len()
        invariant
            i <= shares@.len(),
            all@ == share_views(shares@).take(i as int).flatten(),
        decreases shares@.len() - i,
    {
        append_bytes(&mut all, shares[i].serialize());
        proof {
            let views = share_views(shares@);
            let done = views.take(i as int);
            assert(views.take(i + 1) =~= done.push(views[i as int]));
            done.lemma_flatten_push(views[i as int]);
        }
        i += 1;
    }
    assert(share_views(shares@).take(shares@.len() as int) =~= share_views(shares@));
    all
}

impl TallyProof {
    /// Appends the canonical encoding to `bb`.
    pub fn serialize_in(&self, bb: ByteBuilder<TallyProof>) -> (builder: ByteBuilder<TallyProof>)
        ensures
            builder@ == bb@ + self@.spec_serialize(),
    {
        match self {
            TallyProof::Public { id, signature } => {
                bb.u8(0).bytes(id.as_ref()).bytes(signature.as_ref())
            },
            TallyProof::Private { id, signature, shares } => {
                let all = concat_shares(shares);
                bb.u8(1).bytes(id.as_ref()).bytes(signature.as_ref()).u64(
                    shares.len() as u64,
                ).bytes(all.as_slice())
            },
        }
    }

    /// What has to be checked for the proof to authorise a tally of type
    /// `tally_type` in the transaction whose binding data is `verify_data`.
    /// A public proof for a private tally, or a private proof for a public
    /// one, fails whatever the signature is. Otherwise the outcome is that of
    /// one check: that the signature signs the binding data under the public
    /// key of the committee member. The shares are not looked at.
    pub fn verify(&self, tally_type: PayloadType, verify_data: &TransactionBindingAuthData) -> (pending:
        PendingVerification)
        ensures
            tally_type != self@.payload_type() ==> pending == PendingVerification::Decided(
                Verification::Failed,
            ),
            tally_type == self@.payload_type() ==> (pending matches PendingVerification::Signature(
                check,
            ) && check.algorithm == SignatureAlgorithm::Ed25519 && check.public_key
                == self@.committee_id().spec_public_key() && check.signature
                == self@.signature().0 && check.message@ == verify_data@),
    {
        match self {
            TallyProof::Public { id, signature } => {
                if tally_type != PayloadType::Public {
                    PendingVerification::Decided(Verification::Failed)
                } else {
                    let pk = id.public_key();
                    PendingVerification::Signature(signature.verify_slice(&pk, verify_data))
                }
            },
            TallyProof::Private { id, signature, shares: _ } => {
                if tally_type != PayloadType::Private {
                    PendingVerification::Decided(Verification::Failed)
                } else {
                    let pk = id.public_key();
                    PendingVerification::Signature(signature.verify_slice(&pk, verify_data))
                }
            },
        }
    }
}

/// A private proof of which the committee member, the signature and the
/// number of shares have been decoded, and some of the shares: at least one
/// share is still to come.
#[derive(Debug, PartialEq, Eq)]
pub struct PrivateProofReader {
    id: CommitteeId,
    signature: SingleAccountBindingSignature,
    expected: u8,
    shares: Vec<TallyDecryptShare>,
}

/// A `PrivateProofReader` with its shares as the sequence of their encodings.
pub struct PrivateProofReaderView {
    pub id: CommitteeId,
    pub signature: SingleAccountBindingSignature,
    pub expected: u8,
    pub shares: Seq<Seq<u8>>,
}

/// How far the decoding of a tally proof has come: the proof is complete, or
/// the next share has to be delimited by whoever knows the voting scheme.
#[derive(Debug, PartialEq, Eq)]
pub enum TallyProofRead {
    Complete(TallyProof),
    NeedShare(PrivateProofReader),
}

/// A `TallyProofRead` with its shares as the sequence of their encodings.
pub enum TallyProofReadView {
    Complete(TallyProofView),
    NeedShare(PrivateProofReaderView),
}

impl View for PrivateProofReader {
    type V = PrivateProofReaderView;

    closed spec fn view(&self) -> PrivateProofReaderView {
        PrivateProofReaderView {
            id: self.id,
            signature: self.signature,
            expected: self.expected,
            shares: share_views(self.shares@),
        }
    }
}

impl View for TallyProofRead {
    type V = TallyProofReadView;

    open spec fn view(&self) -> TallyProofReadView {
        match self {
            TallyProofRead::Complete(found) => TallyProofReadView::Complete(found@),
            TallyProofRead::NeedShare(reader) => TallyProofReadView::NeedShare(reader@),
        }
    }
}

/// The state of decoding a private proof of `expected` shares of which
/// `shares` have been decoded: complete when none is missing.
pub open spec fn private_progress(
    id: CommitteeId,
    signature: SingleAccountBindingSignature,
    expected: u8,
    shares: Seq<Seq<u8>>,
) -> TallyProofReadView {
    if shares.len() >= expected {
        TallyProofReadView::Complete(TallyProofView::Private { id, signature, shares })
    } else {
        TallyProofReadView::NeedShare(PrivateProofReaderView { id, signature, expected, shares })
    }
}

impl PrivateProofReaderView {
    /// The state after the share with the encoding `share` has been decoded.
    pub open spec fn with_share(self, share: Seq<u8>) -> TallyProofReadView {
        private_progress(self.id, self.signature, self.expected, self.shares.push(share))
    }
}

impl PrivateProofReader {
    #[verifier::type_invariant]
    spec fn incomplete(self) -> bool {
        self.shares@.len() < self.expected
    }

    /// The number of shares that are still to come: at least one.
    pub fn missing(&self) -> (missing: usize)
        ensures
            missing == self@.expected - self@.shares.len(),
            missing > 0,
    {
        proof {
            use_type_invariant(self);
        }
        self.expected as usize - self.shares.len()
    }

    /// Takes the next `size` bytes as the encoding of the next share. The
    /// proof is complete once as many shares have been taken as it announced.
    /// With fewer than `size` bytes left the cursor stays where it was.
    pub fn read_share(self, buf: &mut ReadBuf, size: usize) -> (result: Result<
        TallyProofRead,
        ReadError,
    >)
        ensures
            final(buf).input() == old(buf).input(),
            old(buf).remaining().len() >= size ==> result is Ok && result->Ok_0@
                == self@.with_share(old(buf).remaining().take(size as int)) && final(buf).remaining() == old(buf).remaining().skip(size as int),
            old(buf).remaining().len() < size ==> result is Err && result->Err_0@
                == ReadErrorView::NotEnoughBytes(old(buf).remaining().len() as usize, size)
                && *final(buf) == *old(buf),
    {
        proof {
            use_type_invariant(&self);
        }
        let encoded = match buf.get_slice(size) {
            Ok(encoded) => encoded,
            Err(error) => {
                return Err(error);
            },
        };
        let mut bytes: Vec<u8> = Vec::new();
        append_bytes(&mut bytes, encoded);
        let PrivateProofReader { id, signature, expected, shares } = self;
        let mut shares = shares;
        let ghost before = shares@;
        shares.push(TallyDecryptShare::from_bytes(bytes));
        assert(share_views(shares@) =~= share_views(before).push(encoded@));
        if shares.len() >= expected as usize {
            Ok(TallyProofRead::Complete(TallyProof::Private { id, signature, shares }))
        } else {
            Ok(TallyProofRead::NeedShare(PrivateProofReader { id, signature, expected, shares }))
        }
    }
}

impl TallyProof {
    /// What decoding the start of a tally proof from `bytes` yields. A public
    /// proof is complete after tag, committee member and signature. Of a
    /// private proof the number of shares follows, in one byte; with that
    /// number zero the proof is complete, else its shares are still to come.
    /// A tag other than 0 and 1 is a structural error. Short input gives the
    /// error of the first read that fails.
    pub open spec fn spec_read(bytes: Seq<u8>) -> Result<TallyProofReadView, ReadErrorView> {
        if bytes.len() < 1 {
            Err(ReadErrorView::NotEnoughBytes(0, 1))
        } else if bytes[0] != 0 && bytes[0] != 1 {
            Err(ReadErrorView::StructureInvalid(unknown_proof_text()))
        } else if bytes.len() < 33 {
            Err(ReadErrorView::NotEnoughBytes((bytes.len() - 1) as usize, 32))
        } else if bytes.len() < 97 {
            Err(ReadErrorView::NotEnoughBytes((bytes.len() - 33) as usize, 64))
        } else {
            let id = CommitteeId { bytes: array32_of(bytes.subrange(1, 33)) };
            let signature = SingleAccountBindingSignature(
                Signature { bytes: array64_of(bytes.subrange(33, 97)) },
            );
            if bytes[0] == 0 {
                Ok(TallyProofReadView::Complete(TallyProofView::Public { id, signature }))
            } else if bytes.len() < 98 {
                Err(ReadErrorView::NotEnoughBytes(0, 1))
            } else {
                Ok(private_progress(id, signature, bytes[97], Seq::<Seq<u8>>::empty()))
            }
        }
    }

    /// The number of bytes that decoding the start of a proof takes from
    /// `bytes`, where it succeeds.
    pub open spec fn spec_read_len(bytes: Seq<u8>) -> int
        recommends
            bytes.len() >= 1,
    {
        if bytes[0] == 0 {
            97
        } else {
            98
        }
    }

    /// Decodes the start of a tally proof from the cursor, up to where its
    /// shares begin. When decoding fails the cursor stays where it was.
    pub fn read(buf: &mut ReadBuf) -> (result: Result<TallyProofRead, ReadError>)
        ensures
            final(buf).input() == old(buf).input(),
            match TallyProof::spec_read(old(buf).remaining()) {
                Ok(state) => result is Ok && result->Ok_0@ == state && final(buf).remaining()
                    == old(buf).remaining().skip(
                    TallyProof::spec_read_len(old(buf).remaining()),
                ) && (state matches TallyProofReadView::Complete(TallyProofView::Public { id, signature })
                    ==> TallyProofView::Public { id, signature }.spec_serialize() == old(
                    buf,
                ).remaining().take(97)),
                Err(error) => result is Err && result->Err_0@ == error && *final(buf) == *old(buf),
            },
    {
        let start: ReadBuf = *buf;
        let ghost bytes = buf.remaining();
        let tag = match buf.peek_u8() {
            Ok(tag) => tag,
            Err(error) => {
                return Err(error);
            },
        };
        if tag != 0 && tag != 1 {
            return Err(ReadError::StructureInvalid("Unknown Tally proof type".to_owned()));
        }
        let _ = buf.get_u8();
        let id = match CommitteeId::read(buf) {
            Ok(id) => id,
            Err(error) => {
                *buf = start;
                return Err(error);
            },
        };
        let signature = match SingleAccountBindingSignature::read(buf) {
            Ok(signature) => signature,
            Err(error) => {
                *buf = start;
                return Err(error);
            },
        };
        proof {
            assert(bytes.skip(1).take(32) =~= bytes.subrange(1, 33));
            assert(bytes.skip(1).skip(32) =~= bytes.skip(33));
            assert(bytes.skip(33).take(64) =~= bytes.subrange(33, 97));
        }
        if tag == 0 {
            Ok(TallyProofRead::Complete(TallyProof::Public { id, signature }))
        } else {
            let expected = match buf.get_u8() {
                Ok(expected) => expected,
                Err(error) => {
                    *buf = start;
                    return Err(error);
                },
            };
            let shares: Vec<TallyDecryptShare> = Vec::new();
            assert(share_views(shares@) =~= Seq::<Seq<u8>>::empty());
            if expected == 0 {
                Ok(TallyProofRead::Complete(TallyProof::Private { id, signature, shares }))
            } else {
                Ok(
                    TallyProofRead::NeedShare(
                        PrivateProofReader { id, signature, expected, shares },
                    ),
                )
            }
        }
    }
}

/// Decoding the encoding of a public proof gives the proof back.
pub proof fn lemma_public_proof_round_trip(
    id: CommitteeId,
    signature: SingleAccountBindingSignature,
)
    ensures
        TallyProof::spec_read(TallyProofView::Public { id, signature }.spec_serialize()) == Ok::<
            TallyProofReadView,
            ReadErrorView,
        >(TallyProofReadView::Complete(TallyProofView::Public { id, signature })),
{
    let bytes = TallyProofView::Public { id, signature }.spec_serialize();
    assert(bytes.subrange(1, 33) =~= id.bytes@);
    assert(bytes.subrange(33, 97) =~= signature.0.bytes@);
    lemma_array32_of(id.bytes);
    lemma_array64_of(signature.0.bytes);
}

/// The number of shares is written in eight bytes and read from the first of
/// them. So what is decoded from the encoding of a private proof, with fewer
/// than 2^56 shares, is that proof without its shares, and the cursor stands
/// behind that first byte.
pub proof fn lemma_private_proof_count_width(
    id: CommitteeId,
    signature: SingleAccountBindingSignature,
    shares: Seq<Seq<u8>>,
)
    requires
        shares.len() < 0x100_0000_0000_0000,
    ensures
        TallyProof::spec_read(TallyProofView::Private { id, signature, shares }.spec_serialize())
            == Ok::<TallyProofReadView, ReadErrorView>(
            TallyProofReadView::Complete(
                TallyProofView::Private { id, signature, shares: Seq::<Seq<u8>>::empty() },
            ),
        ),
        TallyProof::spec_read_len(TallyProofView::Private { id, signature, shares }.spec_serialize())
            == 98,
{
    let bytes = TallyProofView::Private { id, signature, shares }.spec_serialize();
    assert(bytes.subrange(1, 33) =~= id.bytes@);
    assert(bytes.subrange(33, 97) =~= signature.0.bytes@);
    lemma_array32_of(id.bytes);
    lemma_array64_of(signature.0.bytes);
}

impl Payload for VoteTally {
    const HAS_DATA: bool = true;

    const HAS_AUTH: bool = true;

    type Auth = TallyProof;

    open spec fn spec_payload_data(&self) -> Seq<u8> {
        self.spec_serialize()
    }

    open spec fn spec_payload_auth_data(auth: &TallyProof) -> Seq<u8> {
        auth@.spec_serialize()
    }

    fn payload_data(&self) -> (data: PayloadData<VoteTally>) {
        let builder = self.serialize_in(ByteBuilder::new());
        PayloadData { data: builder.finalize_as_vec(), phantom: PhantomData }
    }

    fn payload_auth_data(auth: &TallyProof) -> (data: PayloadAuthData<VoteTally>) {
        let builder = auth.serialize_in(ByteBuilder::new());
        PayloadAuthData { data: builder.finalize_as_vec(), phantom: PhantomData }
    }

    fn to_certificate_slice<'a>(p: PayloadSlice<'a, VoteTally>) -> (slice: Option<
        CertificateSlice<'a>,
    >)
        ensures
            slice == Some(CertificateSlice::VoteTally(p)),
    {
        Some(CertificateSlice::VoteTally(p))
    }
}

} // verus!
