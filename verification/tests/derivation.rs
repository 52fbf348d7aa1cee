//! Seeded key and nonce derivation: determinism, seed sensitivity, and the
//! exact derivation formulas.

use committee_presign::keys::{generate_keypair_from_seed, generate_nonce_from_seed};
use committee_presign::types::SignerKeypair;
use musig2::BinaryEncoding;
use sha2::Digest;

fn sha256_hex(input: &[u8]) -> String {
    let mut h = sha2::Sha256::new();
    h.update(input);
    format!("{:x}", h.finalize())
}

fn sha256_raw(input: &[u8]) -> Vec<u8> {
    let mut h = sha2::Sha256::new();
    h.update(input);
    h.finalize().to_vec()
}

#[test]
fn keypair_matches_master_formula() {
    let kp = generate_keypair_from_seed("test-seed").unwrap();
    assert_eq!(kp.secret, sha256_raw(b"test-seed/master"));
    assert_eq!(kp.secret.len(), 32);
    assert_eq!(kp.public.len(), 33);
    let sk = musig2::secp::Scalar::from_slice(&kp.secret).unwrap();
    assert_eq!(kp.public, sk.base_point_mul().serialize().to_vec());
}

#[test]
fn keypair_derivation_deterministic() {
    let a = generate_keypair_from_seed("test-seed").unwrap();
    let b = generate_keypair_from_seed("test-seed").unwrap();
    assert_eq!(a.secret, b.secret);
    assert_eq!(a.public, b.public);
}

#[test]
fn keypair_seed_sensitivity() {
    let a = generate_keypair_from_seed("test-seed").unwrap();
    let b = generate_keypair_from_seed("test-seed2").unwrap();
    assert_ne!(a.secret, b.secret);
    assert_ne!(a.public, b.public);
}

#[test]
fn nonce_derivation_deterministic() {
    let kp = generate_keypair_from_seed("test-seed").unwrap();
    let a = generate_nonce_from_seed("test-seed", 0, &kp).unwrap();
    let b = generate_nonce_from_seed("test-seed", 0, &kp).unwrap();
    assert_eq!(a.len(), 5);
    assert_eq!(b.len(), 5);
    for i in 0..5 {
        assert_eq!(a[i].secret_nonce, b[i].secret_nonce);
        assert_eq!(a[i].public_nonce, b[i].public_nonce);
        assert_eq!(a[i].attestation, b[i].attestation);
    }
}

#[test]
fn nonce_seed_and_index_sensitivity() {
    let kp = generate_keypair_from_seed("test-seed").unwrap();
    let base = generate_nonce_from_seed("test-seed", 0, &kp).unwrap();
    let other_index = generate_nonce_from_seed("test-seed", 1, &kp).unwrap();
    let other_seed = generate_nonce_from_seed("test-seed2", 0, &kp).unwrap();
    for i in 0..5 {
        assert_ne!(base[i].secret_nonce, other_index[i].secret_nonce);
        assert_ne!(base[i].public_nonce, other_index[i].public_nonce);
        assert_ne!(base[i].secret_nonce, other_seed[i].secret_nonce);
        assert_ne!(base[i].public_nonce, other_seed[i].public_nonce);
    }
}

#[test]
fn nonces_match_chained_hash_formula() {
    let kp = generate_keypair_from_seed("test-seed").unwrap();
    let triples = generate_nonce_from_seed("test-seed", 7, &kp).unwrap();
    // Per-graph sub-seed: hex of SHA-256 of (hex of SHA-256 of the seed,
    // with the zero-padded hex graph index appended).
    let graph_seed = sha256_hex(format!("{}{:04x}", sha256_hex(b"test-seed"), 7usize).as_bytes());
    for (i, t) in triples.iter().enumerate() {
        let slot_seed =
            sha256_raw(format!("{}{:04x}", sha256_hex(graph_seed.as_bytes()), i).as_bytes());
        let arr: [u8; 32] = slot_seed.as_slice().try_into().unwrap();
        let pk = musig2::secp::Point::from_slice(&kp.public).unwrap();
        let sec = musig2::SecNonce::build_with_pubkey(arr, pk).build();
        assert_eq!(t.secret_nonce, sec.to_bytes().to_vec());
        assert_eq!(t.public_nonce, sec.public_nonce().to_bytes().to_vec());
    }
}

#[test]
fn attestation_verifies_over_public_nonce() {
    let kp = generate_keypair_from_seed("test-seed").unwrap();
    let triples = generate_nonce_from_seed("test-seed", 0, &kp).unwrap();
    let pk = musig2::secp::Point::from_slice(&kp.public).unwrap();
    for t in triples.iter() {
        assert_eq!(t.attestation.len(), 64);
        musig2::verify_single(pk, t.attestation.as_slice(), &t.public_nonce)
            .expect("attestation must verify under the member's public key");
    }
}

#[test]
fn nonce_derivation_rejects_invalid_key_material() {
    let bad = SignerKeypair { secret: vec![0u8; 32], public: vec![0u8; 33] };
    let r = generate_nonce_from_seed("test-seed", 0, &bad);
    assert_eq!(r.unwrap_err(), committee_presign::types::Error::InvalidKeyMaterial);
}
