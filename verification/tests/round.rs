//! Full signing rounds: the degenerate single-member committee, a three
//! member committee over one graph instance, witness application, and the
//! idempotency guard.

use bitcoin::absolute::LockTime;
use bitcoin::sighash::{Prevouts, SighashCache};
use bitcoin::taproot::{LeafVersion, TapLeafHash};
use bitcoin::transaction::Version;
use bitcoin::{Amount, OutPoint, ScriptBuf, Sequence, TxIn, TxOut, Witness};
use committee_presign::keys::{generate_keypair_from_seed, generate_nonce_from_seed};
use committee_presign::presign::{
    committee_pre_sign, nonce_aggregation, push_committee_pre_signatures,
    signature_aggregation_and_push,
};
use committee_presign::types::{CommitteeGraph, Error, GraphParameters, PreSignedTx};

fn dummy_tx(n_inputs: usize, n_outputs: usize) -> PreSignedTx {
    let mut input = Vec::new();
    let mut prev_outs = Vec::new();
    let mut prev_scripts = Vec::new();
    let mut input_witnesses = Vec::new();
    for _ in 0..n_inputs {
        input.push(TxIn {
            previous_output: OutPoint::null(),
            script_sig: ScriptBuf::new(),
            sequence: Sequence::MAX,
            witness: Witness::new(),
        });
        let po = TxOut {
            value: Amount::from_sat(10_000),
            script_pubkey: ScriptBuf::from_bytes(vec![0x51]),
        };
        prev_outs.push(bitcoin::consensus::serialize(&po));
        prev_scripts.push(vec![0x51]);
        input_witnesses.push(Vec::new());
    }
    let mut output = Vec::new();
    for _ in 0..n_outputs {
        output.push(TxOut { value: Amount::from_sat(9_000), script_pubkey: ScriptBuf::new() });
    }
    let tx = bitcoin::Transaction { version: Version::TWO, lock_time: LockTime::ZERO, input, output };
    PreSignedTx {
        tx_bytes: bitcoin::consensus::serialize(&tx),
        prev_outs,
        prev_scripts,
        input_witnesses,
    }
}

fn test_graph(pubkeys: Vec<Vec<u8>>) -> CommitteeGraph {
    CommitteeGraph {
        parameters: GraphParameters { committee_pubkeys: pubkeys },
        take1: dummy_tx(1, 1),
        take2: dummy_tx(3, 1),
        assert_final: dummy_tx(1, 1),
        disprove: dummy_tx(1, 2),
        committee_pre_signed: false,
    }
}

/// Recomputes the five signing messages independently of the library, from
/// the obligation table's fixed (transaction, input, hash-scope) triples.
fn expected_messages(graph: &CommitteeGraph) -> Vec<Vec<u8>> {
    let slots: [(&PreSignedTx, usize, bool); 5] = [
        (&graph.take1, 0, true),
        (&graph.take2, 0, true),
        (&graph.take2, 2, true),
        (&graph.assert_final, 0, true),
        (&graph.disprove, 0, false),
    ];
    let mut msgs = Vec::new();
    for (t, input_index, all_scope) in slots {
        let tx: bitcoin::Transaction = bitcoin::consensus::deserialize(&t.tx_bytes).unwrap();
        let outs: Vec<TxOut> = t
            .prev_outs
            .iter()
            .map(|b| bitcoin::consensus::deserialize(b).unwrap())
            .collect();
        let script = ScriptBuf::from_bytes(t.prev_scripts[input_index].clone());
        let leaf = TapLeafHash::from_script(&script, LeafVersion::TapScript);
        let ty = if all_scope {
            bitcoin::TapSighashType::All
        } else {
            bitcoin::TapSighashType::Single
        };
        let mut cache = SighashCache::new(&tx);
        let h = cache
            .taproot_script_spend_signature_hash(input_index, &Prevouts::All(&outs), leaf, ty)
            .unwrap();
        let arr: &[u8] = h.as_ref();
        msgs.push(arr.to_vec());
    }
    msgs
}

fn run_round(seeds: &[&str], graph: &mut CommitteeGraph) -> Vec<Vec<Vec<u8>>> {
    let kps: Vec<_> = seeds.iter().map(|s| generate_keypair_from_seed(s).unwrap()).collect();
    let triples: Vec<_> = kps
        .iter()
        .zip(seeds.iter())
        .map(|(kp, s)| generate_nonce_from_seed(s, 0, kp).unwrap())
        .collect();
    let mut agg_nonces = Vec::new();
    for slot in 0..5 {
        let pn: Vec<Vec<u8>> = triples.iter().map(|t| t[slot].public_nonce.clone()).collect();
        agg_nonces.push(nonce_aggregation(&pn).unwrap());
    }
    let mut partials_by_member = Vec::new();
    for (i, kp) in kps.iter().enumerate() {
        let secn: Vec<Vec<u8>> = triples[i].iter().map(|t| t.secret_nonce.clone()).collect();
        partials_by_member.push(committee_pre_sign(kp, &secn, &agg_nonces, graph).unwrap());
    }
    let mut per_slot = Vec::new();
    for slot in 0..5 {
        per_slot.push(
            partials_by_member.iter().map(|m| m[slot].clone()).collect::<Vec<Vec<u8>>>(),
        );
    }
    signature_aggregation_and_push(&per_slot, &agg_nonces, graph).unwrap()
}

fn aggregated_pubkey(seeds: &[&str]) -> musig2::secp::Point {
    let keys: Vec<musig2::secp::Point> = seeds
        .iter()
        .map(|s| {
            let kp = generate_keypair_from_seed(s).unwrap();
            musig2::secp::Point::from_slice(&kp.public).unwrap()
        })
        .collect();
    let ctx = musig2::KeyAggContext::new(keys).unwrap();
    ctx.aggregated_pubkey()
}

#[test]
fn single_member_round_trip() {
    let seeds = ["test-seed"];
    let kp = generate_keypair_from_seed("test-seed").unwrap();
    let mut graph = test_graph(vec![kp.public.clone()]);
    let witnesses = run_round(&seeds, &mut graph);
    let agg_pk = aggregated_pubkey(&seeds);
    let msgs = expected_messages(&graph);
    for slot in 0..5 {
        let sig = &witnesses[slot][0][..64];
        musig2::verify_single(agg_pk, sig, &msgs[slot])
            .expect("final signature must pass standard verification");
    }
}

#[test]
fn three_member_scenario() {
    let seeds = ["test-seed-1", "test-seed-2", "test-seed-3"];
    let pubkeys: Vec<Vec<u8>> = seeds
        .iter()
        .map(|s| generate_keypair_from_seed(s).unwrap().public)
        .collect();
    let mut graph = test_graph(pubkeys.clone());
    let witnesses = run_round(&seeds, &mut graph);
    assert!(graph.committee_pre_signed);
    assert_eq!(witnesses.len(), 5);
    let agg_pk = aggregated_pubkey(&seeds);
    let msgs = expected_messages(&graph);
    for slot in 0..5 {
        // One witness item: the 64-byte signature with the hash-scope tag.
        assert_eq!(witnesses[slot].len(), 1);
        assert_eq!(witnesses[slot][0].len(), 65);
        let expected_tag = if slot == 4 { 0x03 } else { 0x01 };
        assert_eq!(witnesses[slot][0][64], expected_tag);
        let sig = &witnesses[slot][0][..64];
        musig2::verify_single(agg_pk, sig, &msgs[slot])
            .expect("final signature must pass standard verification");
        // Swapping any two rows of the obligation table would pair this
        // signature with another slot's message, which must not verify.
        let other = (slot + 1) % 5;
        assert!(musig2::verify_single(agg_pk, sig, &msgs[other]).is_err());
    }
    // The witnesses were written into the graph's obligation slots.
    assert_eq!(graph.take1.input_witnesses[0], witnesses[0]);
    assert_eq!(graph.take2.input_witnesses[0], witnesses[1]);
    assert_eq!(graph.take2.input_witnesses[2], witnesses[2]);
    assert_eq!(graph.assert_final.input_witnesses[0], witnesses[3]);
    assert_eq!(graph.disprove.input_witnesses[0], witnesses[4]);

    // Applying to a fresh copy of the same graph succeeds once.
    let mut fresh = test_graph(pubkeys.clone());
    assert!(push_committee_pre_signatures(&mut fresh, &witnesses).is_none());
    assert_eq!(fresh.take1.input_witnesses[0], witnesses[0]);
    assert_eq!(fresh.take2.input_witnesses[0], witnesses[1]);
    assert_eq!(fresh.take2.input_witnesses[2], witnesses[2]);
    assert_eq!(fresh.assert_final.input_witnesses[0], witnesses[3]);
    assert_eq!(fresh.disprove.input_witnesses[0], witnesses[4]);
    assert!(!fresh.committee_pre_signed);

    // Against the graph whose flag was set by aggregation, a second
    // application fails and changes nothing.
    let before = graph.take1.input_witnesses[0].clone();
    let r = push_committee_pre_signatures(&mut graph, &witnesses);
    assert_eq!(r, Some(Error::AlreadyPreSigned));
    assert_eq!(graph.take1.input_witnesses[0], before);
}

#[test]
fn aggregation_failure_reports_first_obligation() {
    let seeds = ["test-seed-1", "test-seed-2"];
    let pubkeys: Vec<Vec<u8>> = seeds
        .iter()
        .map(|s| generate_keypair_from_seed(s).unwrap().public)
        .collect();
    let mut graph = test_graph(pubkeys);
    // Garbage partial signatures: aggregation fails on the first slot.
    let per_slot: Vec<Vec<Vec<u8>>> = (0..5).map(|_| vec![vec![0xffu8; 32], vec![0xffu8; 32]]).collect();
    let agg_nonces: Vec<Vec<u8>> = {
        let kps: Vec<_> = seeds.iter().map(|s| generate_keypair_from_seed(s).unwrap()).collect();
        let triples: Vec<_> = kps
            .iter()
            .zip(seeds.iter())
            .map(|(kp, s)| generate_nonce_from_seed(s, 0, kp).unwrap())
            .collect();
        (0..5)
            .map(|slot| {
                let pn: Vec<Vec<u8>> =
                    triples.iter().map(|t| t[slot].public_nonce.clone()).collect();
                nonce_aggregation(&pn).unwrap()
            })
            .collect()
    };
    let r = signature_aggregation_and_push(&per_slot, &agg_nonces, &mut graph);
    assert_eq!(
        r.unwrap_err(),
        Error::Aggregate { tx: committee_presign::types::GraphTx::Take1, input_index: 0 }
    );
    assert!(!graph.committee_pre_signed);
}

#[test]
fn signing_failure_names_transaction_and_input() {
    let seeds = ["test-seed-1"];
    let kp = generate_keypair_from_seed("test-seed-1").unwrap();
    let mut graph = test_graph(vec![kp.public.clone()]);
    // A transaction that does not decode makes the first obligation fail.
    graph.take1.tx_bytes = vec![0xde, 0xad];
    let triples = generate_nonce_from_seed("test-seed-1", 0, &kp).unwrap();
    let agg_nonces: Vec<Vec<u8>> = (0..5)
        .map(|slot| nonce_aggregation(&vec![triples[slot].public_nonce.clone()]).unwrap())
        .collect();
    let secn: Vec<Vec<u8>> = triples.iter().map(|t| t.secret_nonce.clone()).collect();
    let r = committee_pre_sign(&kp, &secn, &agg_nonces, &graph);
    assert_eq!(
        r.unwrap_err(),
        Error::Sign { tx: committee_presign::types::GraphTx::Take1, input_index: 0 }
    );
}
