//! The taproot signing message of one transaction input.

use vstd::prelude::*;
use bitcoin::consensus::deserialize;
use bitcoin::sighash::{Prevouts, SighashCache};
use bitcoin::taproot::{LeafVersion, TapLeafHash};

verus! {

/// The 32-byte taproot script-spend signing message of input `input_index`
/// of the consensus-serialized transaction `tx`, committing to the serialized
/// previous outputs, the input's previous-output script, and either the
/// all-inputs-and-outputs scope or the single-output scope.
pub uninterp spec fn sighash_of(
    tx: Seq<u8>,
    prev_outs: Seq<Seq<u8>>,
    script: Seq<u8>,
    input_index: int,
    all_scope: bool,
) -> Seq<u8>;

/// True when the signing-message computation accepts these inputs: the
/// transaction and previous outputs decode and the signing algorithm does
/// not reject the request.
pub uninterp spec fn sighash_computable(
    tx: Seq<u8>,
    prev_outs: Seq<Seq<u8>>,
    script: Seq<u8>,
    input_index: int,
    all_scope: bool,
) -> bool;

/// Relies on bitcoin's SighashCache::taproot_script_spend_signature_hash over
/// the consensus-decoded transaction and previous outputs, with the script's
/// tapleaf hash and sighash type ALL or SINGLE: whether the call succeeds,
/// and on success the 32-byte digest, are both deterministic in these
/// inputs.  It fails for instance when the transaction or an output does
/// not decode, or when the SINGLE scope lacks an output at the input's
/// index.
#[verifier::external_body]
pub(crate) fn taproot_sighash(
    tx: &Vec<u8>,
    prev_outs: &Vec<Vec<u8>>,
    script: &Vec<u8>,
    input_index: usize,
    all_scope: bool,
) -> (r: Option<Vec<u8>>)
    ensures
        r.is_some() == sighash_computable(
            tx@,
            prev_outs.deep_view(),
            script@,
            input_index as int,
            all_scope,
        ),
        r matches Some(h) ==> h@ == sighash_of(
            tx@,
            prev_outs.deep_view(),
            script@,
            input_index as int,
            all_scope,
        ) && h@.len() == 32,
{
    let t: bitcoin::Transaction = deserialize(tx.as_slice()).ok()?;
    let mut outs: Vec<bitcoin::TxOut> = Vec::new();
    for b in prev_outs.iter() {
        outs.push(deserialize(b.as_slice()).ok()?);
    }
    let sb = bitcoin::ScriptBuf::from_bytes(script.clone());
    let leaf = TapLeafHash::from_script(&sb, LeafVersion::TapScript);
    let ty = if all_scope { bitcoin::TapSighashType::All } else { bitcoin::TapSighashType::Single };
    let mut cache = SighashCache::new(&t);
    let h = cache.taproot_script_spend_signature_hash(input_index, &Prevouts::All(&outs), leaf, ty).ok()?;
    let arr: &[u8] = h.as_ref();
    Some(arr.to_vec())
}

} // verus!
