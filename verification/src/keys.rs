//! Key material, held as the bytes that the signature scheme serialises.

use vstd::prelude::*;
use crate::bytes::{join96, take};
use crate::secret::le_value;

verus! {

/// Width of a compressed group element, and so of a public key.
pub const POINT_LENGTH: usize = 32;

/// Width of a secret key: a scalar followed by a nonce seed.
pub const SECRET_KEY_LENGTH: usize = 64;

/// Width of a key pair: the secret key followed by its public key.
pub const KEYPAIR_LENGTH: usize = 96;

/// Order of the Ristretto group, `2^252 + 27742317777372353535851937790883648493`.
pub open spec fn group_order() -> nat {
    7237005577332262213973186563042994240857116359379907606001950938285454250989nat
}

/// `bytes` is the canonical encoding of a scalar: 32 bytes whose
/// little-endian value lies below the group order.
pub open spec fn scalar_canonical(bytes: Seq<u8>) -> bool {
    bytes.len() == 32 && le_value(bytes) < group_order()
}

/// `secret` parses as a secret key: 64 bytes that start with a canonical
/// scalar. The nonce seed that follows is unconstrained.
pub open spec fn secret_key_valid(secret: Seq<u8>) -> bool {
    secret.len() == 64 && scalar_canonical(secret.subrange(0, 32))
}

/// Whether 32 bytes are the canonical encoding of a Ristretto point.
pub uninterp spec fn point_decodes(bytes: Seq<u8>) -> bool;

/// The public key, as 32 bytes, that belongs to a valid secret key.
pub uninterp spec fn public_of_secret(secret: Seq<u8>) -> Seq<u8>;

/// `bytes` is a secret key followed by the public key derived from it.
pub open spec fn keypair_valid(bytes: Seq<u8>) -> bool {
    &&& bytes.len() == 96
    &&& secret_key_valid(bytes.subrange(0, 64))
    &&& bytes.subrange(64, 96) == public_of_secret(bytes.subrange(0, 64))
    &&& point_decodes(bytes.subrange(64, 96))
}

/// `schnorrkel::points::RistrettoBoth::from_bytes` accepts 32 bytes exactly
/// when they decompress to a point.
#[verifier::external_body]
pub(crate) fn ristretto_decodes(bytes: &[u8; 32]) -> (ok: bool)
    ensures
        ok == point_decodes(bytes@),
{
    schnorrkel::points::RistrettoBoth::from_bytes(bytes).is_ok()
}

/// `schnorrkel::SecretKey::from_bytes` accepts 64 bytes exactly when the
/// first 32 are a canonical scalar; `to_public` then multiplies the base
/// point by that scalar, and the product always has a valid encoding.
#[verifier::external_body]
fn derive_public(secret: &[u8; 64]) -> (public: Option<[u8; 32]>)
    ensures
        public is Some <==> secret_key_valid(secret@),
        public matches Some(p) ==> p@ == public_of_secret(secret@) && point_decodes(p@),
{
    match schnorrkel::SecretKey::from_bytes(secret) {
        Ok(key) => Some(key.to_public().to_bytes()),
        Err(_) => None,
    }
}

/// `schnorrkel::Keypair::generate_with`, fed by the operating system's
/// generator, draws a secret key and derives its public key; `to_bytes`
/// writes the first canonically, then the second. Which key comes out is
/// not determined.
#[verifier::external_body]
fn generate_keypair_bytes() -> (bytes: [u8; 96])
    ensures
        keypair_valid(bytes@),
{
    schnorrkel::Keypair::generate_with(rand_core::OsRng).to_bytes()
}

/// A public key: the compressed encoding of a group element.
#[derive(Clone, Copy, Debug)]
pub struct PublicKey {
    pub(crate) bytes: [u8; 32],
}

impl View for PublicKey {
    type V = Seq<u8>;

    closed spec fn view(&self) -> Seq<u8> {
        self.bytes@
    }
}

impl PublicKey {
    /// Every public key decodes to a group element.
    #[verifier::type_invariant]
    pub open spec fn wf(&self) -> bool {
        point_decodes(self@)
    }

    /// Reads a public key, or `None` where the bytes encode no point.
    pub fn from_bytes(bytes: &[u8; 32]) -> (key: Option<PublicKey>)
        ensures
            key is Some <==> point_decodes(bytes@),
            key matches Some(k) ==> k@ == bytes@ && k.wf(),
    {
        if ristretto_decodes(bytes) {
            Some(PublicKey { bytes: *bytes })
        } else {
            None
        }
    }

    /// The 32 bytes of this key.
    pub fn to_bytes(&self) -> (bytes: [u8; 32])
        ensures
            bytes@ == self@,
    {
        self.bytes
    }
}

/// A key pair: a secret key and the public key derived from it.
pub struct Keypair {
    pub(crate) bytes: [u8; 96],
}

impl View for Keypair {
    type V = Seq<u8>;

    closed spec fn view(&self) -> Seq<u8> {
        self.bytes@
    }
}

impl Keypair {
    /// The public half follows from the secret half.
    #[verifier::type_invariant]
    pub open spec fn wf(&self) -> bool {
        keypair_valid(self@)
    }

    /// The 64 bytes of the secret key.
    pub open spec fn secret_bytes(&self) -> Seq<u8> {
        self@.subrange(0, 64)
    }

    /// The 32 bytes of the public key.
    pub open spec fn public_bytes(&self) -> Seq<u8> {
        self@.subrange(64, 96)
    }

    /// Draws a fresh key pair from the operating system's generator.
    pub fn generate() -> (pair: Keypair)
        ensures
            pair.wf(),
    {
        Keypair { bytes: generate_keypair_bytes() }
    }

    /// Builds the pair that belongs to `secret`, or `None` where `secret`
    /// does not start with a canonical scalar.
    pub fn from_secret_bytes(secret: &[u8; 64]) -> (pair: Option<Keypair>)
        ensures
            pair is Some <==> secret_key_valid(secret@),
            pair matches Some(p) ==> p.wf() && p.secret_bytes() == secret@,
    {
        match derive_public(secret) {
            Some(public) => {
                let bytes = join96(secret, &public);
                proof {
                    assert(bytes@.subrange(0, 64) =~= secret@);
                    assert(bytes@.subrange(64, 96) =~= public@);
                }
                Some(Keypair { bytes })
            },
            None => None,
        }
    }

    /// The 96 bytes of this pair, secret key first.
    pub fn to_bytes(&self) -> (bytes: [u8; 96])
        ensures
            bytes@ == self@,
    {
        self.bytes
    }

    /// The public half of this pair.
    pub fn public_key(&self) -> (key: PublicKey)
        ensures
            key@ == self.public_bytes(),
            key.wf(),
    {
        proof {
            use_type_invariant(self);
        }
        let bytes = take::<32>(&self.bytes, SECRET_KEY_LENGTH);
        PublicKey { bytes }
    }
}

} // verus!
