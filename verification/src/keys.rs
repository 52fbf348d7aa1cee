//! Seeded key material derivation: a committee member's signing key-pair,
//! and the per-graph, per-slot nonce triples.
//!
//! Everything here is deterministic in its arguments, which lets a member
//! regenerate its secret nonces after a crash instead of persisting them.
//! Reusing one `(seed, graph index)` pair for two logically distinct signing
//! rounds over the same graph reuses nonces and is a catastrophic security
//! failure; callers must not do so.

use vstd::prelude::*;
use vstd::slice::slice_to_vec;
use vstd::string::StringSliceAdditionalSpecFns;
use musig2::BinaryEncoding;
use crate::hashing::{sha256, sha256_of};
use crate::hexfmt::{hex4, hex4_ascii, hex_ascii, hex_encode};
use crate::types::{copy_bytes, Error, NonceTriple, SignerKeypair};

verus! {

/// True when the secp256k1 arithmetic accepts `secret` as a secret key:
/// 32 bytes encoding a nonzero scalar below the curve order.
pub uninterp spec fn valid_secret_key(secret: Seq<u8>) -> bool;

/// The compressed public key of the secret key `secret`.
pub uninterp spec fn pubkey_of_secret(secret: Seq<u8>) -> Seq<u8>;

/// True when `pk` is a valid serialized curve point.
pub uninterp spec fn valid_public_key(pk: Seq<u8>) -> bool;

/// The 97-byte serialized secret nonce the aggregation primitive builds
/// from a 32-byte seed, bound to the signer's public key.
pub uninterp spec fn secnonce_of(seed: Seq<u8>, signer_pubkey: Seq<u8>) -> Seq<u8>;

/// The 66-byte public nonce of the secret nonce built from the same inputs.
pub uninterp spec fn pubnonce_of(seed: Seq<u8>, signer_pubkey: Seq<u8>) -> Seq<u8>;

/// The 64-byte single-signer Schnorr signature over `message` by `secret`,
/// with its signing nonce drawn from the 32-byte `seed`.
pub uninterp spec fn solo_sig_of(secret: Seq<u8>, message: Seq<u8>, seed: Seq<u8>) -> Seq<u8>;

/// Relies on secp's Scalar::from_slice and Scalar::base_point_mul (through
/// musig2's re-export): parsing succeeds exactly on valid secret keys, and
/// the 33-byte compressed point depends on the scalar alone.  The returned
/// serialization is a valid point encoding, which Point::from_slice parses
/// back.
#[verifier::external_body]
fn pubkey_from_secret(secret: &Vec<u8>) -> (r: Option<Vec<u8>>)
    ensures
        r.is_some() == valid_secret_key(secret@),
        r matches Some(pk) ==> pk@ == pubkey_of_secret(secret@) && pk@.len() == 33
            && valid_public_key(pk@),
{
    let sk = musig2::secp::Scalar::from_slice(secret.as_slice()).ok()?;
    Some(sk.base_point_mul().serialize().to_vec())
}

/// Relies on musig2's SecNonce::build_with_pubkey and SecNonce::public_nonce:
/// both nonces are deterministic in the seed and the signer's public key,
/// with 97- and 66-byte serializations, and the serialized public nonce
/// parses back as a valid public nonce.  Fails exactly when the seed is not
/// 32 bytes or the public key is not a valid point encoding.
#[verifier::external_body]
fn derive_nonce_pair(seed: &Vec<u8>, signer_pubkey: &Vec<u8>) -> (r: Option<(Vec<u8>, Vec<u8>)>)
    ensures
        r.is_some() == (seed@.len() == 32 && valid_public_key(signer_pubkey@)),
        r matches Some(p) ==> p.0@ == secnonce_of(seed@, signer_pubkey@) && p.0@.len() == 97
            && p.1@ == pubnonce_of(seed@, signer_pubkey@) && p.1@.len() == 66
            && crate::musig::valid_pub_nonce(p.1@),
{
    let arr: [u8; 32] = <[u8; 32]>::try_from(seed.as_slice()).ok()?;
    let pk = musig2::secp::Point::from_slice(signer_pubkey.as_slice()).ok()?;
    let sec = musig2::SecNonce::build_with_pubkey(arr, pk).build();
    let pub_nonce = sec.public_nonce();
    Some((sec.to_bytes().to_vec(), pub_nonce.to_bytes().to_vec()))
}

/// Relies on musig2::sign_solo: a 64-byte BIP340 signature, deterministic in
/// the secret key, the message and the nonce seed.  Fails exactly when the
/// nonce seed is not 32 bytes or the secret key is invalid.
#[verifier::external_body]
fn sign_attestation(secret: &Vec<u8>, message: &Vec<u8>, seed: &Vec<u8>) -> (r: Option<Vec<u8>>)
    ensures
        r.is_some() == (seed@.len() == 32 && valid_secret_key(secret@)),
        r matches Some(s) ==> s@ == solo_sig_of(secret@, message@, seed@) && s@.len() == 64,
{
    let arr: [u8; 32] = <[u8; 32]>::try_from(seed.as_slice()).ok()?;
    let sk = musig2::secp::Scalar::from_slice(secret.as_slice()).ok()?;
    let sig: musig2::LiftedSignature = musig2::sign_solo(sk, message.as_slice(), arr);
    Some(sig.to_bytes().to_vec())
}

impl SignerKeypair {
    /// The key-pair is internally consistent: a valid 32-byte secret scalar
    /// with its own compressed public key, itself a valid point encoding.
    /// Nonce derivation provably succeeds on a well-formed key-pair.
    pub open spec fn wf(self) -> bool {
        &&& self.secret@.len() == 32
        &&& valid_secret_key(self.secret@)
        &&& self.public@ == pubkey_of_secret(self.secret@)
        &&& valid_public_key(self.public@)
    }
}

/// The ASCII bytes of the suffix "/master".
pub open spec fn master_suffix() -> Seq<u8> {
    seq![47u8, 109u8, 97u8, 115u8, 116u8, 101u8, 114u8]
}

/// The secret scalar a seed derives: SHA-256 of the seed's bytes followed by
/// "/master".
pub open spec fn master_secret(seed: Seq<u8>) -> Seq<u8> {
    sha256_of(seed + master_suffix())
}

/// One chaining step of the derivation: the hex rendering of SHA-256 of the
/// hex rendering of SHA-256 of `input`, with the index's zero-padded hex
/// rendering appended between the two hashes.
pub open spec fn chain_hex(input: Seq<u8>, idx: nat) -> Seq<u8> {
    hex_ascii(sha256_of(hex_ascii(sha256_of(input)) + hex4_ascii(idx)))
}

/// The per-graph sub-seed, a 64-digit hex string.
pub open spec fn graph_seed_hex(seed: Seq<u8>, g: nat) -> Seq<u8> {
    chain_hex(seed, g)
}

/// The 32-byte entropy for nonce slot `i` of graph `g`.
pub open spec fn slot_seed(seed: Seq<u8>, g: nat, i: nat) -> Seq<u8> {
    sha256_of(hex_ascii(sha256_of(graph_seed_hex(seed, g))) + hex4_ascii(i))
}

/// Derives a committee member's signing key-pair from a seed.  The result is
/// a function of the seed alone; it is an error exactly when the derived
/// scalar is not a valid secret key, which has negligible probability but is
/// checked rather than coerced.
pub fn generate_keypair_from_seed(seed: &str) -> (r: Result<SignerKeypair, Error>)
    ensures
        r.is_ok() == valid_secret_key(master_secret(seed.spec_bytes())),
        r matches Ok(kp) ==> kp.wf() && kp.secret@ == master_secret(seed.spec_bytes()),
        r matches Err(e) ==> e == Error::InvalidSecretKey,
{
    let mut input = slice_to_vec(seed.as_bytes());
    input.push(47);
    input.push(109);
    input.push(97);
    input.push(115);
    input.push(116);
    input.push(101);
    input.push(114);
    proof {
        assert(input@ =~= seed.spec_bytes() + master_suffix());
    }
    let secret = sha256(&input);
    match pubkey_from_secret(&secret) {
        Some(public) => Ok(SignerKeypair { secret, public }),
        None => Err(Error::InvalidSecretKey),
    }
}

/// The derivation relation of one member's nonce material for one graph
/// instance: slot by slot, the secret nonce, public nonce and attestation
/// are the values determined by the seed, the graph index and the signer
/// key-pair.
pub open spec fn nonce_material_derived(
    seed: Seq<u8>,
    g: nat,
    kp: SignerKeypair,
    v: Seq<NonceTriple>,
) -> bool {
    v.len() == 5 && forall|i: int|
        0 <= i < 5 ==> {
            let s = slot_seed(seed, g, i as nat);
            &&& (#[trigger] v[i]).secret_nonce@ == secnonce_of(s, kp.public@)
            &&& v[i].public_nonce@ == pubnonce_of(s, kp.public@)
            &&& crate::musig::valid_pub_nonce(v[i].public_nonce@)
            &&& v[i].attestation@ == solo_sig_of(kp.secret@, pubnonce_of(s, kp.public@), s)
        }
}

/// Determinism of nonce derivation: any two nonce-material sequences derived
/// from the same seed, graph index and signer key-pair agree, slot by slot,
/// on every secret nonce, public nonce and attestation.
pub proof fn lemma_nonce_derivation_deterministic(
    seed: Seq<u8>,
    g: nat,
    kp: SignerKeypair,
    v1: Seq<NonceTriple>,
    v2: Seq<NonceTriple>,
)
    requires
        nonce_material_derived(seed, g, kp, v1),
        nonce_material_derived(seed, g, kp, v2),
    ensures
        v1.len() == v2.len(),
        forall|i: int|
            0 <= i < v1.len() ==> (#[trigger] v1[i]).secret_nonce@ == v2[i].secret_nonce@
                && v1[i].public_nonce@ == v2[i].public_nonce@ && v1[i].attestation@
                == v2[i].attestation@,
{
}

/// Derives the five nonce triples of one member for one graph instance.
///
/// Determinism: on success the result satisfies `nonce_material_derived`,
/// which pins every component as a function of the seed, the graph index and
/// the signer key-pair alone.  The attestation of a slot is the member's
/// single-signer Schnorr signature over the serialized public nonce, its
/// signing nonce drawn from the slot seed (the solo-signing primitive
/// separates it from the slot's own nonce by hashing the secret key and the
/// message into it).
pub fn generate_nonce_from_seed(seed: &str, graph_index: usize, signer_keypair: &SignerKeypair)
    -> (r: Result<Vec<NonceTriple>, Error>)
    ensures
        r.is_ok() == (valid_public_key(signer_keypair.public@) && valid_secret_key(
            signer_keypair.secret@,
        )),
        r matches Ok(v) ==> nonce_material_derived(
            seed.spec_bytes(),
            graph_index as nat,
            *signer_keypair,
            v@,
        ),
        r matches Err(e) ==> e == Error::InvalidKeyMaterial,
{
    let ghost seedb = seed.spec_bytes();
    let ghost g = graph_index as nat;
    let seed_bytes = slice_to_vec(seed.as_bytes());
    let mut chained = hex_encode(&sha256(&seed_bytes));
    let mut gidx = hex4(graph_index);
    chained.append(&mut gidx);
    let graph_seed = hex_encode(&sha256(&chained));
    proof {
        assert(graph_seed@ == graph_seed_hex(seedb, g));
    }
    let slot_prefix = hex_encode(&sha256(&graph_seed));
    let mut res: Vec<NonceTriple> = Vec::new();
    let mut i: usize = 0;
    while i < 5
        invariant
            i <= 5,
            res@.len() == i,
            slot_prefix@ == hex_ascii(sha256_of(graph_seed_hex(seedb, g))),
            i > 0 ==> valid_public_key(signer_keypair.public@) && valid_secret_key(
                signer_keypair.secret@,
            ),
            forall|k: int|
                0 <= k < i ==> {
                    let s = slot_seed(seedb, g, k as nat);
                    &&& (#[trigger] res@[k]).secret_nonce@ == secnonce_of(
                        s,
                        signer_keypair.public@,
                    )
                    &&& res@[k].public_nonce@ == pubnonce_of(s, signer_keypair.public@)
                    &&& crate::musig::valid_pub_nonce(res@[k].public_nonce@)
                    &&& res@[k].attestation@ == solo_sig_of(
                        signer_keypair.secret@,
                        pubnonce_of(s, signer_keypair.public@),
                        s,
                    )
                },
        decreases 5 - i,
    {
        let mut cc = copy_bytes(&slot_prefix);
        let mut idx = hex4(i);
        cc.append(&mut idx);
        let slot = sha256(&cc);
        proof {
            assert(slot@ == slot_seed(seedb, g, i as nat));
        }
        let (secret_nonce, public_nonce) = match derive_nonce_pair(&slot, &signer_keypair.public) {
            Some(p) => p,
            None => {
                return Err(Error::InvalidKeyMaterial);
            },
        };
        let attestation = match sign_attestation(&signer_keypair.secret, &public_nonce, &slot) {
            Some(s) => s,
            None => {
                return Err(Error::InvalidKeyMaterial);
            },
        };
        res.push(NonceTriple { secret_nonce, public_nonce, attestation });
        i = i + 1;
    }
    Ok(res)
}

} // verus!
