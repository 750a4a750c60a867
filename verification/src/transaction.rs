//! How a certificate travels in a transaction: its payload, the data that
//! authorises it, and the signature that binds both to the transaction.

use vstd::prelude::*;
use std::marker::PhantomData;
use crate::certificate::CertificateSlice;
use crate::key::{
    array64, array64_of, PublicKey, Signature, SignatureAlgorithm, SignatureCheck,
};
use crate::mempack::{ReadBuf, ReadError, ReadErrorView};

verus! {

/// The encoded body of a certificate of type `P`.
#[derive(Debug)]
pub struct PayloadData<P> {
    pub data: Vec<u8>,
    pub phantom: PhantomData<P>,
}

impl<P> View for PayloadData<P> {
    type V = Seq<u8>;

    open spec fn view(&self) -> Seq<u8> {
        self.data@
    }
}

impl<P> PayloadData<P> {
    /// The encoded body, borrowed.
    pub fn borrow<'a>(&'a self) -> (slice: PayloadSlice<'a, P>)
        ensures
            slice@ == self@,
    {
        PayloadSlice { data: self.data.as_slice(), phantom: PhantomData }
    }
}

/// The encoded authorisation of a certificate of type `P`.
#[derive(Debug)]
pub struct PayloadAuthData<P> {
    pub data: Vec<u8>,
    pub phantom: PhantomData<P>,
}

impl<P> View for PayloadAuthData<P> {
    type V = Seq<u8>;

    open spec fn view(&self) -> Seq<u8> {
        self.data@
    }
}

/// A borrowed encoded body of a certificate of type `P`.
#[derive(Debug)]
pub struct PayloadSlice<'a, P> {
    pub data: &'a [u8],
    pub phantom: PhantomData<P>,
}

impl<'a, P> View for PayloadSlice<'a, P> {
    type V = Seq<u8>;

    open spec fn view(&self) -> Seq<u8> {
        self.data@
    }
}

/// What a certificate type provides so that it can be carried in a
/// transaction: whether it has a body and an authorisation, and the canonical
/// bytes of both. The bytes of the authorisation do not depend on the body.
pub trait Payload: Sized {
    /// Whether certificates of this type carry a body.
    const HAS_DATA: bool;

    /// Whether certificates of this type carry an authorisation.
    const HAS_AUTH: bool;

    /// The authorisation of a certificate of this type.
    type Auth;

    /// The canonical bytes of the body.
    spec fn spec_payload_data(&self) -> Seq<u8>;

    /// The canonical bytes of an authorisation.
    spec fn spec_payload_auth_data(auth: &Self::Auth) -> Seq<u8>;

    /// The canonical bytes of the body.
    fn payload_data(&self) -> (data: PayloadData<Self>)
        ensures
            data@ == self.spec_payload_data(),
    ;

    /// The canonical bytes of an authorisation.
    fn payload_auth_data(auth: &Self::Auth) -> (data: PayloadAuthData<Self>)
        ensures
            data@ == Self::spec_payload_auth_data(auth),
    ;

    /// The body as the slice of a certificate of no particular type, ready to
    /// stand in a transaction; `None` where the type has no such form.
    fn to_certificate_slice<'a>(p: PayloadSlice<'a, Self>) -> (slice: Option<
        CertificateSlice<'a>,
    >)
        ensures
            slice matches Some(certificate) ==> certificate@ == p@,
    ;
}

/// The identifier of an account: the bytes of its public key.
#[derive(Debug, Clone, Copy, PartialEq, Eq, PartialOrd, Ord, Hash)]
pub struct AccountIdentifier {
    pub bytes: [u8; 32],
}

/// The bytes, derived from a whole transaction, that the authorisation of
/// its certificate signs.
#[derive(Debug, Clone, Copy)]
pub struct TransactionBindingAuthData<'a>(pub &'a [u8]);

impl<'a> View for TransactionBindingAuthData<'a> {
    type V = Seq<u8>;

    open spec fn view(&self) -> Seq<u8> {
        self.0@
    }
}

/// The signature of one account over the binding data of a transaction.
#[derive(Debug, Clone, Copy, PartialEq, Eq)]
pub struct SingleAccountBindingSignature(pub Signature);

impl SingleAccountBindingSignature {
    /// The bytes of the signature.
    pub fn as_ref(&self) -> (bytes: &[u8])
        ensures
            bytes@ == self.0.bytes@,
    {
        self.0.as_ref()
    }

    /// The check that decides whether this signature binds `data` under
    /// `key`: an Ed25519 signature over the bytes of `data`.
    pub fn verify_slice(&self, key: &PublicKey, data: &TransactionBindingAuthData) -> (check:
        SignatureCheck)
        ensures
            check.algorithm == SignatureAlgorithm::Ed25519,
            check.public_key == *key,
            check.signature == self.0,
            check.message@ == data@,
    {
        let mut message: Vec<u8> = Vec::new();
        crate::key::append_bytes(&mut message, data.0);
        SignatureCheck {
            algorithm: SignatureAlgorithm::Ed25519,
            public_key: *key,
            signature: self.0,
            message,
        }
    }

    /// Reads a signature: the next 64 bytes.
    pub fn read(buf: &mut ReadBuf) -> (result: Result<SingleAccountBindingSignature, ReadError>)
        ensures
            final(buf).input() == old(buf).input(),
            old(buf).remaining().len() >= 64 ==> result == Ok::<
                SingleAccountBindingSignature,
                ReadError,
            >(
                SingleAccountBindingSignature(
                    Signature { bytes: array64_of(old(buf).remaining().take(64)) },
                ),
            ) && result->Ok_0.0.bytes@ == old(buf).remaining().take(64) && final(buf).remaining() == old(buf).remaining().skip(64),
            old(buf).remaining().len() < 64 ==> result is Err && result->Err_0@
                == ReadErrorView::NotEnoughBytes(old(buf).remaining().len() as usize, 64)
                && *final(buf) == *old(buf),
    {
        match buf.get_slice(crate::key::SIGNATURE_SIZE) {
            Ok(bytes) => {
                assert(bytes@.take(64) =~= bytes@);
                Ok(SingleAccountBindingSignature(Signature { bytes: array64(bytes) }))
            },
            Err(error) => Err(error),
        }
    }
}

} // verus!
