//! The forward-ratcheting key schedule backing private sessions.
//!
//! A profile owns a 32-byte chain key together with the ephemeral key
//! material of the conversation. The chain key only ever advances through
//! a one-way derivation step; each advance also yields 256 bytes of
//! per-message key material bound to the current ephemeral keys.
use vstd::prelude::*;

use crate::codec;
use crate::codec::{keystreamed, MATERIAL_LEN};
use crate::hexcode::{bytes_of_hex, hex_of, hex_text_valid};

verus! {

/// The pseudorandom key that the key-derivation extract step (no salt)
/// yields on given input key material.
pub uninterp spec fn extract_of(ikm: Seq<u8>) -> Seq<u8>;

/// The 256 bytes of output key material that the key-derivation expand
/// step yields on a given pseudorandom key and info input.
pub uninterp spec fn expand_of(prk: Seq<u8>, info: Seq<u8>) -> Seq<u8>;

/// Whether 32 bytes are a well-formed elliptic-curve secret key.
pub uninterp spec fn secret_key_ok(k: Seq<u8>) -> bool;

/// Whether 32 bytes are a well-formed x-only elliptic-curve public key.
pub uninterp spec fn public_key_ok(k: Seq<u8>) -> bool;

/// The Diffie-Hellman shared secret of a secret key and an x-only public
/// key lifted to the point of even parity.
pub uninterp spec fn shared_secret_of(sk: Seq<u8>, pk: Seq<u8>) -> Seq<u8>;

/// Relies on hkdf's `Hkdf::<Sha256>::extract` with no salt: the 32-byte
/// pseudorandom key is a function of the input key material alone.
#[verifier::external_body]
fn hkdf_extract(ikm: &Vec<u8>) -> (r: Vec<u8>)
    ensures
        r@ == extract_of(ikm@),
        r@.len() == 32,
{
    let (prk, _) = hkdf::Hkdf::<sha2::Sha256>::extract(None, ikm.as_slice());
    prk.to_vec()
}

/// Relies on hkdf's `Hkdf::<Sha256>::from_prk` and `expand`: on a 32-byte
/// pseudorandom key both succeed for a 256-byte output, which is a
/// function of the pseudorandom key and the info input alone.
#[verifier::external_body]
fn hkdf_expand(prk: &Vec<u8>, info: &Vec<u8>) -> (r: Vec<u8>)
    requires
        prk@.len() == 32,
    ensures
        r@ == expand_of(prk@, info@),
        r@.len() == MATERIAL_LEN,
{
    let hk = hkdf::Hkdf::<sha2::Sha256>::from_prk(prk).expect("pseudorandom key is 32 bytes");
    let mut okm = [0u8; 256];
    hk.expand(info, &mut okm).expect("256 bytes is within the expand limit");
    okm.to_vec()
}

/// Relies on secp256k1's `SecretKey::from_slice`: it succeeds exactly on
/// the well-formed 32-byte secret keys.
#[verifier::external_body]
pub fn secret_key_valid(k: &Vec<u8>) -> (r: bool)
    ensures
        r == secret_key_ok(k@),
{
    secp256k1::SecretKey::from_slice(k).is_ok()
}

/// Relies on secp256k1's `XOnlyPublicKey::from_slice`: it succeeds exactly
/// on the well-formed 32-byte x-only public keys.
#[verifier::external_body]
pub fn public_key_valid(k: &Vec<u8>) -> (r: bool)
    ensures
        r == public_key_ok(k@),
{
    secp256k1::XOnlyPublicKey::from_slice(k).is_ok()
}

/// Relies on secp256k1's `ecdh::SharedSecret`: on well-formed keys the
/// 32-byte shared secret exists and is a function of the secret key and
/// the public point (taken with even parity) alone.
#[verifier::external_body]
fn ecdh(sk: &Vec<u8>, pk: &Vec<u8>) -> (r: Option<Vec<u8>>)
    ensures
        (r is Some) == (secret_key_ok(sk@) && public_key_ok(pk@)),
        r matches Some(s) ==> s@ == shared_secret_of(sk@, pk@) && s@.len() == 32,
{
    let secret = secp256k1::SecretKey::from_slice(sk).ok()?;
    let xonly = secp256k1::XOnlyPublicKey::from_slice(pk).ok()?;
    let point = secp256k1::PublicKey::from_x_only_public_key(xonly, secp256k1::Parity::Even);
    Some(secp256k1::ecdh::SharedSecret::new(&point, &secret).secret_bytes().to_vec())
}

/// The ephemeral key material of a private conversation: the local secret
/// key used for the next outgoing message, and the peer's x-only public
/// key as last observed.
#[derive(Clone)]
pub struct EphemeralKeyPair {
    pub secret_key: Vec<u8>,
    pub recipient_public_key: Vec<u8>,
}

impl EphemeralKeyPair {
    /// Both keys are well-formed.
    pub open spec fn wf(self) -> bool {
        secret_key_ok(self.secret_key@) && public_key_ok(self.recipient_public_key@)
    }
}

/// The chain key after one ratchet advance of a profile.
pub open spec fn rotated_chain(p: RatchetProfile) -> Seq<u8> {
    extract_of(p.chain_key@)
}

/// The per-message key material that one ratchet advance of a profile
/// yields.
pub open spec fn rotated_material(p: RatchetProfile) -> Seq<u8> {
    expand_of(
        extract_of(p.chain_key@),
        shared_secret_of(p.ephemeral_keys.secret_key@, p.ephemeral_keys.recipient_public_key@),
    )
}

/// A forward-only key schedule: the chain key is advanced through the
/// one-way extract step and never rewound.
#[derive(Clone)]
pub struct RatchetProfile {
    pub chain_key: Vec<u8>,
    pub ephemeral_keys: EphemeralKeyPair,
}

impl RatchetProfile {
    /// The chain key is 32 bytes and the ephemeral keys are well-formed.
    pub open spec fn wf(self) -> bool {
        self.chain_key@.len() == 32 && self.ephemeral_keys.wf()
    }

    /// Builds a profile from the local secret key and the peer's x-only
    /// public key: the initial chain key is the extract step applied to
    /// their Diffie-Hellman shared secret. Fails exactly on ill-formed
    /// keys.
    pub fn new(secret_key: Vec<u8>, recipient_public_key: Vec<u8>) -> (r: Option<RatchetProfile>)
        ensures
            r is Some <==> secret_key_ok(secret_key@) && public_key_ok(recipient_public_key@),
            r matches Some(p) ==> p.wf() && p.chain_key@ == extract_of(
                shared_secret_of(secret_key@, recipient_public_key@),
            ) && p.ephemeral_keys.secret_key@ == secret_key@
                && p.ephemeral_keys.recipient_public_key@ == recipient_public_key@,
    {
        let shared = match ecdh(&secret_key, &recipient_public_key) {
            Some(s) => s,
            None => {
                return None;
            },
        };
        let chain_key = hkdf_extract(&shared);
        Some(RatchetProfile {
            chain_key,
            ephemeral_keys: EphemeralKeyPair { secret_key, recipient_public_key },
        })
    }

    /// Advances the chain key one step (forward only, irreversible) and
    /// returns 256 bytes of per-message key material bound to the current
    /// ephemeral keys.
    pub fn rotate(&mut self) -> (r: Vec<u8>)
        requires
            old(self).wf(),
        ensures
            final(self).wf(),
            final(self).chain_key@ == rotated_chain(*old(self)),
            final(self).ephemeral_keys == old(self).ephemeral_keys,
            r@ == rotated_material(*old(self)),
            r@.len() == MATERIAL_LEN,
    {
        let chain_key = hkdf_extract(&self.chain_key);
        let shared = match ecdh(
            &self.ephemeral_keys.secret_key,
            &self.ephemeral_keys.recipient_public_key,
        ) {
            Some(s) => s,
            None => {
                proof {
                    assert(false);
                }
                vstd::pervasive::unreached()
            },
        };
        let material = hkdf_expand(&chain_key, &shared);
        self.chain_key = chain_key;
        material
    }

    /// Encodes one outgoing message: advances the ratchet once and
    /// transforms the plaintext under the fresh key material, yielding
    /// hexadecimal wire text.
    pub fn encrypt_message(&mut self, input: &Vec<u8>) -> (r: Vec<u8>)
        requires
            old(self).wf(),
        ensures
            final(self).wf(),
            final(self).chain_key@ == rotated_chain(*old(self)),
            final(self).ephemeral_keys == old(self).ephemeral_keys,
            r@ == hex_of(keystreamed(input@, rotated_material(*old(self)))),
    {
        let material = self.rotate();
        codec::encode(input, &material)
    }

    /// Decodes one incoming message: advances the ratchet once (whether or
    /// not the wire text is well formed) and inverts the transform under
    /// the fresh key material. Fails exactly on wire text that is not
    /// well-formed hexadecimal.
    pub fn decrypt_message(&mut self, input: &Vec<u8>) -> (r: Option<Vec<u8>>)
        requires
            old(self).wf(),
        ensures
            final(self).wf(),
            final(self).chain_key@ == rotated_chain(*old(self)),
            final(self).ephemeral_keys == old(self).ephemeral_keys,
            r is Some <==> hex_text_valid(input@),
            r matches Some(p) ==> p@ == keystreamed(
                bytes_of_hex(input@),
                rotated_material(*old(self)),
            ),
    {
        let material = self.rotate();
        codec::decode(input, &material)
    }
}

/// Law: the ratchet is deterministic and reproducible. Two profiles in the
/// same state — equal chain keys and equal ephemeral key material — are
/// carried by one rotation step to the same new chain key and the same
/// per-message key material, so a fixed initial shared secret always
/// yields the same sequence of chain keys.
pub proof fn lemma_rotation_deterministic(a: RatchetProfile, b: RatchetProfile)
    requires
        a.chain_key@ == b.chain_key@,
        a.ephemeral_keys.secret_key@ == b.ephemeral_keys.secret_key@,
        a.ephemeral_keys.recipient_public_key@ == b.ephemeral_keys.recipient_public_key@,
    ensures
        rotated_chain(a) == rotated_chain(b),
        rotated_material(a) == rotated_material(b),
{
}

} // verus!
