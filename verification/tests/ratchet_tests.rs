use hkdf::Hkdf;
use nostrachat::hexcode::hex_decode;
use nostrachat::ratchet::RatchetProfile;
use sha2::Sha256;

fn secret_key() -> Vec<u8> {
    vec![0x01; 32]
}

fn peer_key() -> Vec<u8> {
    // The x coordinate of the curve's generator point.
    hex_decode(&b"79be667ef9dcbbac55a06295ce870b07029bfcdb2dce28d959f2815b16f81798".to_vec())
        .unwrap()
}

#[test]
fn profile_rejects_invalid_keys() {
    assert!(RatchetProfile::new(vec![0u8; 32], peer_key()).is_none());
    assert!(RatchetProfile::new(vec![1u8; 31], peer_key()).is_none());
    assert!(RatchetProfile::new(secret_key(), vec![0xffu8; 32]).is_none());
}

#[test]
fn chain_key_matches_direct_derivation() {
    // The initial chain key must be the extract step over the real
    // Diffie-Hellman shared secret, computed here independently.
    let profile = RatchetProfile::new(secret_key(), peer_key()).unwrap();
    let sk = secp256k1::SecretKey::from_slice(&secret_key()).unwrap();
    let xo = secp256k1::XOnlyPublicKey::from_slice(&peer_key()).unwrap();
    let pk = secp256k1::PublicKey::from_x_only_public_key(xo, secp256k1::Parity::Even);
    let shared = secp256k1::ecdh::SharedSecret::new(&pk, &sk);
    let (prk, _) = Hkdf::<Sha256>::extract(None, &shared.secret_bytes());
    assert_eq!(profile.chain_key, prk.to_vec());
}

#[test]
fn rotation_is_deterministic() {
    // Same initial shared secret: the sequence of chain keys and message
    // materials is reproducible.
    let mut a = RatchetProfile::new(secret_key(), peer_key()).unwrap();
    let mut b = RatchetProfile::new(secret_key(), peer_key()).unwrap();
    for _ in 0..5 {
        let ma = a.rotate();
        let mb = b.rotate();
        assert_eq!(ma, mb);
        assert_eq!(a.chain_key, b.chain_key);
    }
}

#[test]
fn rotation_matches_direct_derivation() {
    let mut profile = RatchetProfile::new(secret_key(), peer_key()).unwrap();
    let chain0 = profile.chain_key.clone();
    let material = profile.rotate();
    let (prk, hk) = Hkdf::<Sha256>::extract(None, &chain0);
    assert_eq!(profile.chain_key, prk.to_vec());
    let sk = secp256k1::SecretKey::from_slice(&secret_key()).unwrap();
    let xo = secp256k1::XOnlyPublicKey::from_slice(&peer_key()).unwrap();
    let pk = secp256k1::PublicKey::from_x_only_public_key(xo, secp256k1::Parity::Even);
    let shared = secp256k1::ecdh::SharedSecret::new(&pk, &sk);
    let mut okm = [0u8; 256];
    hk.expand(&shared.secret_bytes(), &mut okm).unwrap();
    assert_eq!(material, okm.to_vec());
}

#[test]
fn sequential_rotations_move_forward() {
    // Two sequential rotations from one initial state yield two
    // different chain keys: the chain never stands still.
    let mut profile = RatchetProfile::new(secret_key(), peer_key()).unwrap();
    let chain0 = profile.chain_key.clone();
    profile.rotate();
    let chain1 = profile.chain_key.clone();
    profile.rotate();
    let chain2 = profile.chain_key.clone();
    assert_ne!(chain0, chain1);
    assert_ne!(chain1, chain2);
    assert_ne!(chain0, chain2);
}

#[test]
fn encrypt_then_decrypt_with_synchronized_profiles() {
    // A sender and a receiver whose ratchets are in the same state
    // recover the plaintext exactly.
    let mut sender = RatchetProfile::new(secret_key(), peer_key()).unwrap();
    let mut receiver = sender.clone();
    let plaintext = b"the quick brown fox".to_vec();
    let wire = sender.encrypt_message(&plaintext);
    assert_eq!(receiver.decrypt_message(&wire), Some(plaintext));
    assert_eq!(sender.chain_key, receiver.chain_key);
}
