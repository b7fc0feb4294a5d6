//! Per-message content codec for private sessions.
//!
//! A message is transformed with a keystream drawn from the 256-byte
//! per-message key material produced by the ratchet, and the result is
//! carried on the wire as lowercase hexadecimal text. Decoding inverts
//! encoding exactly under the same key material.
//!
//! The keystream transform is confidentiality-only and carries no
//! authentication tag: a deployment should substitute an authenticated
//! cipher keyed from the same per-message material, preserving the
//! round-trip contract stated here.
use vstd::prelude::*;

use crate::hexcode::{bytes_of_hex, hex_decode, hex_encode, hex_of, hex_text_valid,
    lemma_hex_round_trip};

verus! {

/// The number of bytes of per-message key material the ratchet expands.
pub const MATERIAL_LEN: usize = 256;

/// The byte string transformed with the keystream: byte `i` is combined
/// with byte `i mod 256` of the key material. The transform is its own
/// inverse.
pub open spec fn keystreamed(p: Seq<u8>, material: Seq<u8>) -> Seq<u8>
    recommends
        material.len() == MATERIAL_LEN,
{
    Seq::new(p.len(), |i: int| p[i] ^ material[i % (MATERIAL_LEN as int)])
}

/// Encodes plaintext under 256 bytes of key material: keystream transform,
/// then hexadecimal wire text.
pub fn encode(plaintext: &Vec<u8>, material: &Vec<u8>) -> (r: Vec<u8>)
    requires
        material@.len() == MATERIAL_LEN,
    ensures
        r@ == hex_of(keystreamed(plaintext@, material@)),
{
    let mut mixed: Vec<u8> = Vec::new();
    let mut i: usize = 0;
    while i < plaintext.len()
        invariant
            material@.len() == MATERIAL_LEN,
            i <= plaintext.len(),
            mixed@ =~= keystreamed(plaintext@.take(i as int), material@),
        decreases plaintext.len() - i,
    {
        mixed.push(plaintext[i] ^ material[i % MATERIAL_LEN]);
        i = i + 1;
        proof {
            assert(mixed@ =~= keystreamed(plaintext@.take(i as int), material@));
        }
    }
    proof {
        assert(plaintext@.take(plaintext@.len() as int) =~= plaintext@);
    }
    hex_encode(&mixed)
}

/// Decodes wire text under 256 bytes of key material; rejects text that is
/// not well-formed hexadecimal. Succeeds on exactly the well-formed texts.
pub fn decode(wire: &Vec<u8>, material: &Vec<u8>) -> (r: Option<Vec<u8>>)
    requires
        material@.len() == MATERIAL_LEN,
    ensures
        r is Some <==> hex_text_valid(wire@),
        r matches Some(p) ==> p@ == keystreamed(bytes_of_hex(wire@), material@),
{
    let mixed = match hex_decode(wire) {
        Some(v) => v,
        None => {
            return None;
        },
    };
    let mut p: Vec<u8> = Vec::new();
    let mut i: usize = 0;
    while i < mixed.len()
        invariant
            material@.len() == MATERIAL_LEN,
            i <= mixed.len(),
            mixed@ == bytes_of_hex(wire@),
            p@ =~= keystreamed(mixed@.take(i as int), material@),
        decreases mixed.len() - i,
    {
        p.push(mixed[i] ^ material[i % MATERIAL_LEN]);
        i = i + 1;
        proof {
            assert(p@ =~= keystreamed(mixed@.take(i as int), material@));
        }
    }
    proof {
        assert(mixed@.take(mixed@.len() as int) =~= mixed@);
    }
    Some(p)
}

/// Applying the keystream transform twice under the same material gives
/// back the original byte string.
pub proof fn lemma_keystream_involution(p: Seq<u8>, material: Seq<u8>)
    requires
        material.len() == MATERIAL_LEN,
    ensures
        keystreamed(keystreamed(p, material), material) == p,
{
    assert forall|i: int| 0 <= i < p.len() implies keystreamed(keystreamed(p, material),
        material)[i] == p[i] by {
        let k = material[i % (MATERIAL_LEN as int)];
        let b = p[i];
        assert((b ^ k) ^ k == b) by (bit_vector);
    }
    assert(keystreamed(keystreamed(p, material), material) =~= p);
}

/// Decoding an encoded message under the same key material recovers the
/// plaintext exactly, for every plaintext and every 256-byte material.
pub proof fn lemma_codec_round_trip(p: Seq<u8>, material: Seq<u8>)
    requires
        material.len() == MATERIAL_LEN,
    ensures
        hex_text_valid(hex_of(keystreamed(p, material))),
        keystreamed(bytes_of_hex(hex_of(keystreamed(p, material))), material) == p,
{
    lemma_hex_round_trip(keystreamed(p, material));
    lemma_keystream_involution(p, material);
}

} // verus!
