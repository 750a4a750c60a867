//! Fixed-size byte values: content hashes, public keys and signatures, and the
//! outcome of a verification.

use vstd::prelude::*;
use vstd::string::StringExecFns;

verus! {

/// Number of bytes of a content hash.
pub const HASH_SIZE: usize = 32;

/// Number of bytes of a serialized signing public key.
pub const PUBLIC_KEY_SIZE: usize = 32;

/// Number of bytes of a serialized signature.
pub const SIGNATURE_SIZE: usize = 64;

/// Compares two byte strings.
pub fn bytes_equal(a: &[u8], b: &[u8]) -> (same: bool)
    ensures
        same == (a@ == b@),
{
    if a.len() != b.len() {
        return false;
    }
    let mut i: usize = 0;
    while i < a.len()
        invariant
            i <= a@.len(),
            a@.len() == b@.len(),
            forall|j: int| 0 <= j < i ==> a@[j] == b@[j],
        decreases a@.len() - i,
    {
        if a[i] != b[i] {
            return false;
        }
        i += 1;
    }
    assert(a@ =~= b@);
    true
}

/// Appends `bytes` to `buffer`.
pub fn append_bytes(buffer: &mut Vec<u8>, bytes: &[u8])
    ensures
        final(buffer)@ == old(buffer)@ + bytes@,
{
    let mut i: usize = 0;
    while i < bytes.len()
        invariant
            i <= bytes@.len(),
            buffer@ == old(buffer)@ + bytes@.take(i as int),
        decreases bytes@.len() - i,
    {
        buffer.push(bytes[i]);
        i += 1;
    }
}

/// The array of 32 bytes that holds the bytes of `s`.
pub open spec fn array32_of(s: Seq<u8>) -> [u8; 32]
    recommends
        s.len() == 32,
{
    choose|a: [u8; 32]| a@ == s
}

/// The array of 64 bytes that holds the bytes of `s`.
pub open spec fn array64_of(s: Seq<u8>) -> [u8; 64]
    recommends
        s.len() == 64,
{
    choose|a: [u8; 64]| a@ == s
}

/// An array is the array of its bytes.
pub proof fn lemma_array32_of(a: [u8; 32])
    ensures
        array32_of(a@) == a,
{
    assert(array32_of(a@)@ == a@);
}

/// An array is the array of its bytes.
pub proof fn lemma_array64_of(a: [u8; 64])
    ensures
        array64_of(a@) == a,
{
    assert(array64_of(a@)@ == a@);
}

/// Copies the first 32 bytes of `bytes` into an array.
pub(crate) fn array32(bytes: &[u8]) -> (out: [u8; 32])
    requires
        bytes@.len() >= 32,
    ensures
        out@ == bytes@.take(32),
        out == array32_of(bytes@.take(32)),
{
    let mut out: [u8; 32] = [0u8; 32];
    let mut i: usize = 0;
    while i < 32
        invariant
            i <= 32,
            bytes@.len() >= 32,
            forall|j: int| 0 <= j < i ==> out@[j] == bytes@[j],
        decreases 32 - i,
    {
        out[i] = bytes[i];
        i += 1;
    }
    assert(out@ =~= bytes@.take(32));
    proof {
        lemma_array32_of(out);
    }
    out
}

/// Copies the first 64 bytes of `bytes` into an array.
pub(crate) fn array64(bytes: &[u8]) -> (out: [u8; 64])
    requires
        bytes@.len() >= 64,
    ensures
        out@ == bytes@.take(64),
        out == array64_of(bytes@.take(64)),
{
    let mut out: [u8; 64] = [0u8; 64];
    let mut i: usize = 0;
    while i < 64
        invariant
            i <= 64,
            bytes@.len() >= 64,
            forall|j: int| 0 <= j < i ==> out@[j] == bytes@[j],
        decreases 64 - i,
    {
        out[i] = bytes[i];
        i += 1;
    }
    assert(out@ =~= bytes@.take(64));
    proof {
        lemma_array64_of(out);
    }
    out
}

/// The character that stands for a number below 16 in hexadecimal, with
/// lower-case letters.
pub open spec fn hex_digit(n: u8) -> char {
    if n == 0 {
        '0'
    } else if n == 1 {
        '1'
    } else if n == 2 {
        '2'
    } else if n == 3 {
        '3'
    } else if n == 4 {
        '4'
    } else if n == 5 {
        '5'
    } else if n == 6 {
        '6'
    } else if n == 7 {
        '7'
    } else if n == 8 {
        '8'
    } else if n == 9 {
        '9'
    } else if n == 10 {
        'a'
    } else if n == 11 {
        'b'
    } else if n == 12 {
        'c'
    } else if n == 13 {
        'd'
    } else if n == 14 {
        'e'
    } else {
        'f'
    }
}

/// The hexadecimal text of a byte string: two characters for each byte, the
/// more significant half first.
pub open spec fn hex(bytes: Seq<u8>) -> Seq<char>
    decreases bytes.len(),
{
    if bytes.len() == 0 {
        Seq::<char>::empty()
    } else {
        hex(bytes.drop_last()).push(hex_digit(bytes.last() / 16)).push(
            hex_digit(bytes.last() % 16),
        )
    }
}

/// The hexadecimal digit of a number below 16, as text.
fn hex_text(n: u8) -> (text: &'static str)
    requires
        n < 16,
    ensures
        text@ == seq![hex_digit(n)],
{
    proof {
        reveal_strlit("0");
        reveal_strlit("1");
        reveal_strlit("2");
        reveal_strlit("3");
        reveal_strlit("4");
        reveal_strlit("5");
        reveal_strlit("6");
        reveal_strlit("7");
        reveal_strlit("8");
        reveal_strlit("9");
        reveal_strlit("a");
        reveal_strlit("b");
        reveal_strlit("c");
        reveal_strlit("d");
        reveal_strlit("e");
        reveal_strlit("f");
    }
    if n == 0 {
        "0"
    } else if n == 1 {
        "1"
    } else if n == 2 {
        "2"
    } else if n == 3 {
        "3"
    } else if n == 4 {
        "4"
    } else if n == 5 {
        "5"
    } else if n == 6 {
        "6"
    } else if n == 7 {
        "7"
    } else if n == 8 {
        "8"
    } else if n == 9 {
        "9"
    } else if n == 10 {
        "a"
    } else if n == 11 {
        "b"
    } else if n == 12 {
        "c"
    } else if n == 13 {
        "d"
    } else if n == 14 {
        "e"
    } else {
        "f"
    }
}

/// Appends the hexadecimal text of `bytes` to `text`.
pub fn append_hex(text: &mut String, bytes: &[u8])
    ensures
        final(text)@ == old(text)@ + hex(bytes@),
{
    let mut i: usize = 0;
    while i < bytes.len()
        invariant
            i <= bytes@.len(),
            text@ == old(text)@ + hex(bytes@.take(i as int)),
        decreases bytes@.len() - i,
    {
        let byte: u8 = bytes[i];
        text.append(hex_text(byte / 16));
        text.append(hex_text(byte % 16));
        proof {
            let next = bytes@.take(i + 1);
            assert(next.drop_last() =~= bytes@.take(i as int));
        }
        i += 1;
    }
    assert(bytes@.take(bytes@.len() as int) =~= bytes@);
}

/// A 256-bit content hash, held as its bytes.
#[derive(Debug, Clone, Copy, PartialEq, Eq, PartialOrd, Ord, Hash)]
pub struct Hash {
    pub bytes: [u8; 32],
}

impl Hash {
    /// The hash whose bytes are `bytes`.
    pub fn from_bytes(bytes: [u8; 32]) -> (hash: Hash)
        ensures
            hash.bytes == bytes,
    {
        Hash { bytes }
    }

    /// The bytes of the hash.
    pub fn as_ref(&self) -> (bytes: &[u8])
        ensures
            bytes@ == self.bytes@,
    {
        self.bytes.as_slice()
    }

    /// Whether two hashes have the same bytes.
    pub fn same(&self, other: &Hash) -> (same: bool)
        ensures
            same == (*self == *other),
    {
        let same = bytes_equal(self.bytes.as_slice(), other.bytes.as_slice());
        assert(same == (self.bytes =~= other.bytes));
        same
    }
}

/// The serialized form of a signing public key.
#[derive(Debug, Clone, Copy, PartialEq, Eq, PartialOrd, Ord, Hash)]
pub struct PublicKey {
    pub bytes: [u8; 32],
}

impl PublicKey {
    /// The key whose serialized form is `bytes`.
    pub fn from_bytes(bytes: [u8; 32]) -> (key: PublicKey)
        ensures
            key.bytes == bytes,
    {
        PublicKey { bytes }
    }

    /// The serialized form of the key.
    pub fn as_ref(&self) -> (bytes: &[u8])
        ensures
            bytes@ == self.bytes@,
    {
        self.bytes.as_slice()
    }
}

/// The serialized form of a signature.
#[derive(Debug, Clone, Copy, PartialEq, Eq, PartialOrd, Ord, Hash)]
pub struct Signature {
    pub bytes: [u8; 64],
}

impl Signature {
    /// The signature whose serialized form is `bytes`.
    pub fn from_bytes(bytes: [u8; 64]) -> (signature: Signature)
        ensures
            signature.bytes == bytes,
    {
        Signature { bytes }
    }

    /// The serialized form of the signature.
    pub fn as_ref(&self) -> (bytes: &[u8])
        ensures
            bytes@ == self.bytes@,
    {
        self.bytes.as_slice()
    }
}

/// The serialized form of a VRF public key.
#[derive(Debug, Clone, Copy, PartialEq, Eq, PartialOrd, Ord, Hash)]
pub struct VrfPublicKey {
    pub bytes: [u8; 32],
}

impl VrfPublicKey {
    /// The key whose serialized form is `bytes`.
    pub fn from_bytes(bytes: [u8; 32]) -> (key: VrfPublicKey)
        ensures
            key.bytes == bytes,
    {
        VrfPublicKey { bytes }
    }

    /// The serialized form of the key.
    pub fn as_ref(&self) -> (bytes: &[u8])
        ensures
            bytes@ == self.bytes@,
    {
        self.bytes.as_slice()
    }
}

/// The serialized form of a VRF proof together with its output seed.
#[derive(Debug, Clone, Copy, PartialEq, Eq, PartialOrd, Ord, Hash)]
pub struct VrfProof {
    pub bytes: [u8; 96],
}

impl VrfProof {
    /// The proof whose serialized form is `bytes`.
    pub fn from_bytes(bytes: [u8; 96]) -> (proof_bytes: VrfProof)
        ensures
            proof_bytes.bytes == bytes,
    {
        VrfProof { bytes }
    }

    /// The serialized form of the proof.
    pub fn as_ref(&self) -> (bytes: &[u8])
        ensures
            bytes@ == self.bytes@,
    {
        self.bytes.as_slice()
    }
}

/// The outcome of checking a proof or a signature.
#[derive(Debug, Clone, Copy, PartialEq, Eq, Structural)]
pub enum Verification {
    Failed,
    Success,
}

/// The signature scheme by which a signature has to be checked.
#[derive(Debug, Clone, Copy, PartialEq, Eq, Structural)]
pub enum SignatureAlgorithm {
    /// Ed25519 with an ordinary secret key.
    Ed25519,
    /// Ed25519 with an extended secret key.
    Ed25519Extended,
    /// The key-evolving scheme of the Genesis-Praos leaders.
    Kes,
}

/// One signature check that a verifier of signatures has to make: does
/// `signature` sign `message` under `public_key` in the scheme `algorithm`?
#[derive(Debug, Clone, PartialEq, Eq)]
pub struct SignatureCheck {
    pub algorithm: SignatureAlgorithm,
    pub public_key: PublicKey,
    pub signature: Signature,
    pub message: Vec<u8>,
}

/// A verification as far as it can be decided without cryptography: either
/// its outcome, or the one signature check on which the outcome depends.
#[derive(Debug, Clone, PartialEq, Eq)]
pub enum PendingVerification {
    Decided(Verification),
    Signature(SignatureCheck),
}

impl PendingVerification {
    /// The outcome, once the verifier of signatures has said whether the
    /// signature of the pending check is valid. Where the outcome was decided
    /// already, `signature_valid` plays no part.
    pub fn conclude(&self, signature_valid: bool) -> (outcome: Verification)
        ensures
            outcome == match *self {
                PendingVerification::Decided(decided) => decided,
                PendingVerification::Signature(_) => if signature_valid {
                    Verification::Success
                } else {
                    Verification::Failed
                },
            },
    {
        match self {
            PendingVerification::Decided(decided) => *decided,
            PendingVerification::Signature(_) => if signature_valid {
                Verification::Success
            } else {
                Verification::Failed
            },
        }
    }
}

} // verus!
