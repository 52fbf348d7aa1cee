//! The two-round Schnorr-style aggregation primitive, consumed as a
//! capability: nonce aggregation, partial signing, and final aggregation.
//! All values cross this boundary in their serialized form.

use vstd::prelude::*;
use musig2::BinaryEncoding;

verus! {

/// True when `n` is a valid 66-byte public-nonce encoding.
pub uninterp spec fn valid_pub_nonce(n: Seq<u8>) -> bool;

/// The aggregated nonce of an ordered list of public nonces.
pub uninterp spec fn agg_nonce_of(nonces: Seq<Seq<u8>>) -> Seq<u8>;

/// True when partial signing succeeds on these inputs: every key and nonce
/// decodes, the member belongs to the key set, and the inputs are
/// consistent.
pub uninterp spec fn partial_sign_ok(
    pubkeys: Seq<Seq<u8>>,
    secret: Seq<u8>,
    secnonce: Seq<u8>,
    aggnonce: Seq<u8>,
    message: Seq<u8>,
) -> bool;

/// True when final aggregation succeeds on these inputs: every value
/// decodes and the combined signature is valid.
pub uninterp spec fn aggregate_ok(
    pubkeys: Seq<Seq<u8>>,
    aggnonce: Seq<u8>,
    partials: Seq<Seq<u8>>,
    message: Seq<u8>,
) -> bool;

/// The partial signature a member produces from the committee's ordered
/// public keys, its own secret key and secret nonce, the round's aggregated
/// nonce, and the signing message.
pub uninterp spec fn partial_sig_of(
    pubkeys: Seq<Seq<u8>>,
    secret: Seq<u8>,
    secnonce: Seq<u8>,
    aggnonce: Seq<u8>,
    message: Seq<u8>,
) -> Seq<u8>;

/// The final aggregated signature over a message, combined from all members'
/// partial signatures and the round's aggregated nonce under the committee's
/// ordered public keys.
pub uninterp spec fn final_sig_of(
    pubkeys: Seq<Seq<u8>>,
    aggnonce: Seq<u8>,
    partials: Seq<Seq<u8>>,
    message: Seq<u8>,
) -> Seq<u8>;

/// Relies on musig2's PubNonce::from_bytes and AggNonce::sum: the sum is
/// deterministic in the ordered nonces with a 66-byte serialization, and
/// parsing succeeds exactly on valid public-nonce encodings.
#[verifier::external_body]
pub(crate) fn musig_nonce_sum(nonces: &Vec<Vec<u8>>) -> (r: Option<Vec<u8>>)
    ensures
        r.is_some() == (forall|i: int|
            0 <= i < nonces.deep_view().len() ==> valid_pub_nonce(#[trigger] nonces.deep_view()[i])),
        r matches Some(a) ==> a@ == agg_nonce_of(nonces.deep_view()) && a@.len() == 66,
{
    let mut parsed: Vec<musig2::PubNonce> = Vec::new();
    for n in nonces.iter() {
        parsed.push(musig2::PubNonce::from_bytes(n.as_slice()).ok()?);
    }
    Some(musig2::AggNonce::sum(parsed).to_bytes().to_vec())
}

/// Relies on musig2's KeyAggContext::new and sign_partial: whether the call
/// succeeds, and on success the 32-byte partial signature, are both
/// deterministic in the ordered keys, the member's secret key and secret
/// nonce, the aggregated nonce and the message.  The key list must not be
/// empty: key aggregation rejects an empty list by panicking.
#[verifier::external_body]
pub(crate) fn musig_partial_sign(
    pubkeys: &Vec<Vec<u8>>,
    secret: &Vec<u8>,
    secnonce: &Vec<u8>,
    aggnonce: &Vec<u8>,
    message: &Vec<u8>,
) -> (r: Option<Vec<u8>>)
    requires
        pubkeys.len() > 0,
    ensures
        r.is_some() == partial_sign_ok(
            pubkeys.deep_view(),
            secret@,
            secnonce@,
            aggnonce@,
            message@,
        ),
        r matches Some(s) ==> s@ == partial_sig_of(
            pubkeys.deep_view(),
            secret@,
            secnonce@,
            aggnonce@,
            message@,
        ) && s@.len() == 32,
{
    let mut keys: Vec<musig2::secp::Point> = Vec::new();
    for k in pubkeys.iter() {
        keys.push(musig2::secp::Point::from_slice(k.as_slice()).ok()?);
    }
    let ctx = musig2::KeyAggContext::new(keys).ok()?;
    let sk = musig2::secp::Scalar::from_slice(secret.as_slice()).ok()?;
    let sn = musig2::SecNonce::from_bytes(secnonce.as_slice()).ok()?;
    let an = musig2::AggNonce::from_bytes(aggnonce.as_slice()).ok()?;
    let s: musig2::PartialSignature =
        musig2::sign_partial(&ctx, sk, sn, &an, message.as_slice()).ok()?;
    Some(s.serialize().to_vec())
}

/// Relies on musig2's KeyAggContext::new and aggregate_partial_signatures:
/// whether the call succeeds, and on success the 64-byte final signature,
/// are both deterministic in the ordered keys, the aggregated nonce, the
/// ordered partial signatures and the message.  The signature is returned
/// only if it is valid under the aggregated public key; the call fails when
/// a value does not decode or a contributed partial signature is invalid.
/// The key list must not be empty: key aggregation rejects an empty list by
/// panicking.
#[verifier::external_body]
pub(crate) fn musig_aggregate(
    pubkeys: &Vec<Vec<u8>>,
    aggnonce: &Vec<u8>,
    partials: &Vec<Vec<u8>>,
    message: &Vec<u8>,
) -> (r: Option<Vec<u8>>)
    requires
        pubkeys.len() > 0,
    ensures
        r.is_some() == aggregate_ok(
            pubkeys.deep_view(),
            aggnonce@,
            partials.deep_view(),
            message@,
        ),
        r matches Some(s) ==> s@ == final_sig_of(
            pubkeys.deep_view(),
            aggnonce@,
            partials.deep_view(),
            message@,
        ) && s@.len() == 64,
{
    let mut keys: Vec<musig2::secp::Point> = Vec::new();
    for k in pubkeys.iter() {
        keys.push(musig2::secp::Point::from_slice(k.as_slice()).ok()?);
    }
    let ctx = musig2::KeyAggContext::new(keys).ok()?;
    let an = musig2::AggNonce::from_bytes(aggnonce.as_slice()).ok()?;
    let mut ps: Vec<musig2::PartialSignature> = Vec::new();
    for p in partials.iter() {
        ps.push(musig2::secp::MaybeScalar::from_slice(p.as_slice()).ok()?);
    }
    let sig: musig2::LiftedSignature =
        musig2::aggregate_partial_signatures(&ctx, &an, ps, message.as_slice()).ok()?;
    Some(sig.to_bytes().to_vec())
}

} // verus!
