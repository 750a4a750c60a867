use chain_impl_mockchain::certificate::vote_tally::{
    TallyProof, TallyProofRead, VoteTally, VoteTallyPayload,
};
use chain_impl_mockchain::certificate::{CertificateSlice, VotePlanId};
use chain_impl_mockchain::key::{
    PendingVerification, PublicKey, Signature, SignatureAlgorithm, Verification,
};
use chain_impl_mockchain::mempack::{ReadBuf, ReadError};
use chain_impl_mockchain::transaction::{
    Payload, SingleAccountBindingSignature, TransactionBindingAuthData,
};
use chain_impl_mockchain::typed_bytes::ByteBuilder;
use chain_impl_mockchain::vote::{CommitteeId, PayloadType, TallyDecryptShare, TryFromIntError};

fn plan_id() -> VotePlanId {
    let mut bytes = [0u8; 32];
    for (i, byte) in bytes.iter_mut().enumerate() {
        *byte = i as u8 + 1;
    }
    VotePlanId::from(bytes)
}

fn plan_id_bytes() -> Vec<u8> {
    (1u8..=32).collect()
}

fn public_proof() -> TallyProof {
    TallyProof::Public {
        id: CommitteeId::from_bytes([0xc1; 32]),
        signature: SingleAccountBindingSignature(Signature::from_bytes([0x51; 64])),
    }
}

fn private_proof(shares: Vec<Vec<u8>>) -> TallyProof {
    TallyProof::Private {
        id: CommitteeId::from_bytes([0xc2; 32]),
        signature: SingleAccountBindingSignature(Signature::from_bytes([0x52; 64])),
        shares: shares.into_iter().map(TallyDecryptShare::from_bytes).collect(),
    }
}

fn proof_head(tag: u8, id: u8, signature: u8) -> Vec<u8> {
    let mut bytes = vec![tag];
    bytes.extend_from_slice(&[id; 32]);
    bytes.extend_from_slice(&[signature; 64]);
    bytes
}

fn run(pending: &PendingVerification) -> Verification {
    match pending {
        PendingVerification::Decided(_) => pending.conclude(true),
        PendingVerification::Signature(check) => pending.conclude(cryptoxide::ed25519::verify(
            &check.message,
            &check.public_key.bytes,
            &check.signature.bytes,
        )),
    }
}

#[test]
fn payload_type_of_each_kind_of_tally() {
    assert_eq!(VoteTallyPayload::Public.payload_type(), PayloadType::Public);
    assert_eq!(VoteTallyPayload::Private.payload_type(), PayloadType::Private);
}

#[test]
fn payload_type_bytes_are_zero_and_one() {
    assert_eq!(PayloadType::Public.to_u8(), 0);
    assert_eq!(PayloadType::Private.to_u8(), 1);
    assert_eq!(PayloadType::try_from(0), Ok(PayloadType::Public));
    assert_eq!(PayloadType::try_from(1), Ok(PayloadType::Private));
    assert_eq!(PayloadType::try_from(2), Err(TryFromIntError));
    assert_eq!(PayloadType::try_from(255), Err(TryFromIntError));
    assert_eq!(
        TryFromIntError.to_string(),
        "out of range integral type conversion attempted"
    );
}

#[test]
fn new_public_keeps_the_id_and_is_public() {
    let tally = VoteTally::new_public(plan_id());
    assert_eq!(*tally.id(), plan_id());
    assert_eq!(tally.tally_type(), PayloadType::Public);
}

#[test]
fn public_vote_tally_serializes_to_33_bytes_and_decodes_back() {
    let tally = VoteTally::new_public(plan_id());
    let array = tally.serialize();
    let bytes = array.as_slice();
    assert_eq!(bytes.len(), 33);
    assert_eq!(&bytes[..32], &plan_id_bytes()[..]);
    assert_eq!(bytes[32], 0);
    let mut buf = ReadBuf::from(bytes);
    assert_eq!(VoteTally::read(&mut buf), Ok(tally));
    assert!(buf.expect_end().is_ok());
}

#[test]
fn private_vote_tally_decodes_from_tag_one_and_encodes_back() {
    let mut bytes = plan_id_bytes();
    bytes.push(1);
    let tally = VoteTally::read(&mut ReadBuf::from(&bytes)).unwrap();
    assert_eq!(*tally.id(), plan_id());
    assert_eq!(tally.tally_type(), PayloadType::Private);
    assert_eq!(tally.serialize().as_slice(), &bytes[..]);
}

#[test]
fn vote_tally_serialize_in_appends() {
    let tally = VoteTally::new_public(plan_id());
    let bytes = tally.serialize_in(ByteBuilder::new().u8(0xee)).finalize_as_vec();
    let mut expected = vec![0xee];
    expected.extend_from_slice(&plan_id_bytes());
    expected.push(0);
    assert_eq!(bytes, expected);
}

#[test]
fn vote_tally_read_refuses_an_unknown_payload_type() {
    for tag in [2u8, 3, 0x80, 0xff] {
        let mut bytes = plan_id_bytes();
        bytes.push(tag);
        let mut buf = ReadBuf::from(&bytes);
        assert_eq!(
            VoteTally::read(&mut buf),
            Err(ReadError::StructureInvalid(
                "out of range integral type conversion attempted".to_string()
            ))
        );
        assert_eq!(buf.position(), 0);
    }
}

#[test]
fn vote_tally_read_fails_on_short_input() {
    let bytes = plan_id_bytes();
    assert_eq!(
        VoteTally::read(&mut ReadBuf::from(&bytes[..0])),
        Err(ReadError::NotEnoughBytes(0, 32))
    );
    assert_eq!(
        VoteTally::read(&mut ReadBuf::from(&bytes[..10])),
        Err(ReadError::NotEnoughBytes(10, 32))
    );
    let mut buf = ReadBuf::from(&bytes);
    assert_eq!(VoteTally::read(&mut buf), Err(ReadError::NotEnoughBytes(0, 1)));
    assert_eq!(buf.position(), 0);
}

#[test]
fn vote_tally_read_leaves_what_follows() {
    let mut bytes = plan_id_bytes();
    bytes.push(0);
    bytes.extend_from_slice(&[7, 8, 9]);
    let mut buf = ReadBuf::from(&bytes);
    assert_eq!(VoteTally::read(&mut buf), Ok(VoteTally::new_public(plan_id())));
    assert_eq!(buf.position(), 33);
    assert_eq!(buf.expect_end(), Err(ReadError::UnconsumedData(3)));
}

#[test]
fn public_tally_proof_serializes_tag_id_signature() {
    let bytes = public_proof().serialize_in(ByteBuilder::new()).finalize_as_vec();
    assert_eq!(bytes.len(), 97);
    assert_eq!(bytes, proof_head(0, 0xc1, 0x51));
}

#[test]
fn private_tally_proof_serializes_an_eight_byte_count_and_the_shares() {
    let proof = private_proof(vec![vec![1, 2, 3], vec![4, 5]]);
    let bytes = proof.serialize_in(ByteBuilder::new()).finalize_as_vec();
    let mut expected = proof_head(1, 0xc2, 0x52);
    expected.extend_from_slice(&[0, 0, 0, 0, 0, 0, 0, 2]);
    expected.extend_from_slice(&[1, 2, 3, 4, 5]);
    assert_eq!(bytes, expected);
}

#[test]
fn private_tally_proof_without_shares_serializes_a_zero_count() {
    let bytes = private_proof(vec![]).serialize_in(ByteBuilder::new()).finalize_as_vec();
    let mut expected = proof_head(1, 0xc2, 0x52);
    expected.extend_from_slice(&[0; 8]);
    assert_eq!(bytes, expected);
}

#[test]
fn tally_proof_serialize_in_appends() {
    let bytes = public_proof().serialize_in(ByteBuilder::new().bytes(&[9, 9])).finalize_as_vec();
    let mut expected = vec![9, 9];
    expected.extend_from_slice(&proof_head(0, 0xc1, 0x51));
    assert_eq!(bytes, expected);
}

#[test]
fn tally_proof_read_decodes_a_public_proof() {
    let mut bytes = proof_head(0, 0xc1, 0x51);
    bytes.extend_from_slice(&[0xde, 0xad]);
    let mut buf = ReadBuf::from(&bytes);
    assert_eq!(TallyProof::read(&mut buf), Ok(TallyProofRead::Complete(public_proof())));
    assert_eq!(buf.position(), 97);
    assert_eq!(buf.left(), 2);
}

#[test]
fn tally_proof_read_decodes_a_private_proof_share_by_share() {
    let mut bytes = proof_head(1, 0xc2, 0x52);
    bytes.push(2);
    bytes.extend_from_slice(&[1, 2, 3, 4, 5]);
    let mut buf = ReadBuf::from(&bytes);
    let reader = match TallyProof::read(&mut buf).unwrap() {
        TallyProofRead::NeedShare(reader) => reader,
        complete => panic!("unexpected {:?}", complete),
    };
    assert_eq!(buf.position(), 98);
    assert_eq!(reader.missing(), 2);
    let reader = match reader.read_share(&mut buf, 3).unwrap() {
        TallyProofRead::NeedShare(reader) => reader,
        complete => panic!("unexpected {:?}", complete),
    };
    assert_eq!(reader.missing(), 1);
    assert_eq!(buf.position(), 101);
    let proof = match reader.read_share(&mut buf, 2).unwrap() {
        TallyProofRead::Complete(proof) => proof,
        reader => panic!("unexpected {:?}", reader),
    };
    assert_eq!(proof, private_proof(vec![vec![1, 2, 3], vec![4, 5]]));
    assert!(buf.is_end());
}

#[test]
fn tally_proof_read_completes_a_private_proof_that_announces_no_share() {
    let mut bytes = proof_head(1, 0xc2, 0x52);
    bytes.push(0);
    let mut buf = ReadBuf::from(&bytes);
    assert_eq!(
        TallyProof::read(&mut buf),
        Ok(TallyProofRead::Complete(private_proof(vec![])))
    );
    assert!(buf.is_end());
}

#[test]
fn read_share_fails_on_a_cut_share_and_stays_in_place() {
    let mut bytes = proof_head(1, 0xc2, 0x52);
    bytes.push(1);
    bytes.extend_from_slice(&[1, 2]);
    let mut buf = ReadBuf::from(&bytes);
    let reader = match TallyProof::read(&mut buf).unwrap() {
        TallyProofRead::NeedShare(reader) => reader,
        complete => panic!("unexpected {:?}", complete),
    };
    assert_eq!(reader.read_share(&mut buf, 3), Err(ReadError::NotEnoughBytes(2, 3)));
    assert_eq!(buf.position(), 98);
}

#[test]
fn read_share_accepts_an_empty_share() {
    let mut bytes = proof_head(1, 0xc2, 0x52);
    bytes.push(1);
    let mut buf = ReadBuf::from(&bytes);
    let reader = match TallyProof::read(&mut buf).unwrap() {
        TallyProofRead::NeedShare(reader) => reader,
        complete => panic!("unexpected {:?}", complete),
    };
    assert_eq!(
        reader.read_share(&mut buf, 0),
        Ok(TallyProofRead::Complete(private_proof(vec![vec![]])))
    );
}

#[test]
fn the_count_written_in_eight_bytes_is_read_back_from_one() {
    let proof = private_proof(vec![vec![1, 2, 3], vec![4, 5]]);
    let bytes = proof.serialize_in(ByteBuilder::new()).finalize_as_vec();
    let mut buf = ReadBuf::from(&bytes);
    assert_eq!(
        TallyProof::read(&mut buf),
        Ok(TallyProofRead::Complete(private_proof(vec![])))
    );
    assert_eq!(buf.position(), 98);
    assert_eq!(buf.left(), 7 + 5);
}

#[test]
fn tally_proof_read_refuses_an_unknown_tag() {
    for tag in [2u8, 3, 0x7f, 0xff] {
        let bytes = proof_head(tag, 0xc1, 0x51);
        let mut buf = ReadBuf::from(&bytes);
        assert_eq!(
            TallyProof::read(&mut buf),
            Err(ReadError::StructureInvalid("Unknown Tally proof type".to_string()))
        );
        assert_eq!(buf.position(), 0);
        let mut short = ReadBuf::from(&bytes[..1]);
        assert_eq!(
            TallyProof::read(&mut short),
            Err(ReadError::StructureInvalid("Unknown Tally proof type".to_string()))
        );
    }
}

#[test]
fn tally_proof_read_fails_on_short_input() {
    let mut bytes = proof_head(1, 0xc2, 0x52);
    assert_eq!(
        TallyProof::read(&mut ReadBuf::from(&bytes[..0])),
        Err(ReadError::NotEnoughBytes(0, 1))
    );
    assert_eq!(
        TallyProof::read(&mut ReadBuf::from(&bytes[..1])),
        Err(ReadError::NotEnoughBytes(0, 32))
    );
    assert_eq!(
        TallyProof::read(&mut ReadBuf::from(&bytes[..20])),
        Err(ReadError::NotEnoughBytes(19, 32))
    );
    assert_eq!(
        TallyProof::read(&mut ReadBuf::from(&bytes[..33])),
        Err(ReadError::NotEnoughBytes(0, 64))
    );
    assert_eq!(
        TallyProof::read(&mut ReadBuf::from(&bytes[..96])),
        Err(ReadError::NotEnoughBytes(63, 64))
    );
    let mut buf = ReadBuf::from(&bytes);
    assert_eq!(TallyProof::read(&mut buf), Err(ReadError::NotEnoughBytes(0, 1)));
    assert_eq!(buf.position(), 0);
    bytes[0] = 0;
    assert_eq!(
        TallyProof::read(&mut ReadBuf::from(&bytes[..96])),
        Err(ReadError::NotEnoughBytes(63, 64))
    );
}

#[test]
fn public_proof_fails_for_a_private_tally_whatever_the_signature() {
    let data = [1u8, 2, 3];
    let pending = public_proof().verify(PayloadType::Private, &TransactionBindingAuthData(&data));
    assert_eq!(pending, PendingVerification::Decided(Verification::Failed));
    assert_eq!(pending.conclude(true), Verification::Failed);
    assert_eq!(pending.conclude(false), Verification::Failed);
}

#[test]
fn private_proof_fails_for_a_public_tally_whatever_the_signature() {
    let data = [1u8, 2, 3];
    let pending = private_proof(vec![vec![1]])
        .verify(PayloadType::Public, &TransactionBindingAuthData(&data));
    assert_eq!(pending, PendingVerification::Decided(Verification::Failed));
    assert_eq!(pending.conclude(true), Verification::Failed);
    assert_eq!(pending.conclude(false), Verification::Failed);
}

#[test]
fn a_validly_signed_proof_of_the_wrong_kind_still_fails() {
    let (keypair, public) = cryptoxide::ed25519::keypair(&[9; 32]);
    let data = [0xd0u8; 40];
    let signature = cryptoxide::ed25519::signature(&data, &keypair);
    let proof = TallyProof::Public {
        id: CommitteeId::from_bytes(public),
        signature: SingleAccountBindingSignature(Signature::from_bytes(signature)),
    };
    let binding = TransactionBindingAuthData(&data);
    assert_eq!(run(&proof.verify(PayloadType::Public, &binding)), Verification::Success);
    assert_eq!(run(&proof.verify(PayloadType::Private, &binding)), Verification::Failed);
}

#[test]
fn verify_asks_for_the_member_signature_over_the_binding_data() {
    let data = [5u8, 6, 7, 8];
    for (proof, tally_type, id, signature) in [
        (public_proof(), PayloadType::Public, 0xc1, 0x51),
        (private_proof(vec![vec![1, 2]]), PayloadType::Private, 0xc2, 0x52),
    ] {
        match proof.verify(tally_type, &TransactionBindingAuthData(&data)) {
            PendingVerification::Signature(check) => {
                assert_eq!(check.algorithm, SignatureAlgorithm::Ed25519);
                assert_eq!(check.public_key, PublicKey::from_bytes([id; 32]));
                assert_eq!(check.signature, Signature::from_bytes([signature; 64]));
                assert_eq!(check.message, data.to_vec());
            }
            decided => panic!("unexpected {:?}", decided),
        }
    }
}

#[test]
fn a_private_proof_verifies_by_its_signature_alone() {
    let (keypair, public) = cryptoxide::ed25519::keypair(&[4; 32]);
    let data = [0x77u8; 32];
    let signature = cryptoxide::ed25519::signature(&data, &keypair);
    let proof = TallyProof::Private {
        id: CommitteeId::from_bytes(public),
        signature: SingleAccountBindingSignature(Signature::from_bytes(signature)),
        shares: vec![TallyDecryptShare::from_bytes(vec![0xff; 12])],
    };
    assert_eq!(
        run(&proof.verify(PayloadType::Private, &TransactionBindingAuthData(&data))),
        Verification::Success
    );
    let other = [0x78u8; 32];
    assert_eq!(
        run(&proof.verify(PayloadType::Private, &TransactionBindingAuthData(&other))),
        Verification::Failed
    );
}

#[test]
fn committee_id_is_the_public_key_of_the_member() {
    let id = CommitteeId::from_bytes([0xc1; 32]);
    assert_eq!(id.public_key(), PublicKey::from_bytes([0xc1; 32]));
    assert_eq!(id.as_ref(), &[0xc1; 32]);
    let bytes = [0xc1u8; 40];
    let mut buf = ReadBuf::from(&bytes);
    assert_eq!(CommitteeId::read(&mut buf), Ok(id));
    assert_eq!(buf.position(), 32);
    assert_eq!(CommitteeId::read(&mut buf), Err(ReadError::NotEnoughBytes(8, 32)));
    assert_eq!(buf.position(), 32);
}

#[test]
fn binding_signature_reads_its_64_bytes() {
    let bytes = [0x51u8; 70];
    let mut buf = ReadBuf::from(&bytes);
    let signature = SingleAccountBindingSignature::read(&mut buf).unwrap();
    assert_eq!(signature, SingleAccountBindingSignature(Signature::from_bytes([0x51; 64])));
    assert_eq!(signature.as_ref(), &[0x51; 64]);
    assert_eq!(
        SingleAccountBindingSignature::read(&mut buf),
        Err(ReadError::NotEnoughBytes(6, 64))
    );
}

#[test]
fn vote_tally_has_data_and_auth() {
    assert!(<VoteTally as Payload>::HAS_DATA);
    assert!(<VoteTally as Payload>::HAS_AUTH);
}

#[test]
fn payload_data_is_the_encoding_of_the_tally() {
    let tally = VoteTally::new_public(plan_id());
    let data = tally.payload_data();
    assert_eq!(data.data, tally.serialize().as_slice().to_vec());
    assert_eq!(data.data.len(), 33);
}

#[test]
fn payload_auth_data_is_the_encoding_of_the_proof_alone() {
    let proof = private_proof(vec![vec![1, 2, 3], vec![4, 5]]);
    let auth = VoteTally::payload_auth_data(&proof);
    assert_eq!(auth.data, proof.serialize_in(ByteBuilder::new()).finalize_as_vec());
    let public = VoteTally::payload_auth_data(&public_proof());
    assert_eq!(public.data, proof_head(0, 0xc1, 0x51));
}

#[test]
fn to_certificate_slice_wraps_the_payload_as_a_vote_tally() {
    let tally = VoteTally::new_public(plan_id());
    let data = tally.payload_data();
    let slice = data.borrow();
    match VoteTally::to_certificate_slice(slice) {
        Some(CertificateSlice::VoteTally(payload)) => {
            assert_eq!(payload.data, &data.data[..]);
        }
        None => panic!("no certificate slice"),
    }
}

#[test]
fn a_share_keeps_its_bytes() {
    let share = TallyDecryptShare::from_bytes(vec![1, 2, 3]);
    assert_eq!(share.serialize(), &[1, 2, 3]);
}

#[test]
fn read_share_takes_up_to_255_shares() {
    let mut bytes = proof_head(1, 0xc2, 0x52);
    bytes.push(255);
    bytes.extend_from_slice(&[7u8; 255]);
    let mut buf = ReadBuf::from(&bytes);
    let mut step = TallyProof::read(&mut buf).unwrap();
    let mut taken = 0usize;
    let proof = loop {
        match step {
            TallyProofRead::Complete(proof) => break proof,
            TallyProofRead::NeedShare(reader) => {
                assert_eq!(reader.missing(), 255 - taken);
                step = reader.read_share(&mut buf, 1).unwrap();
                taken += 1;
            }
        }
    };
    assert_eq!(taken, 255);
    assert_eq!(proof, private_proof(vec![vec![7u8]; 255]));
    assert!(buf.is_end());
}
