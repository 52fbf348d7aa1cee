//! The committee pre-signing round: per-obligation partial signatures, nonce
//! aggregation, final-signature aggregation with witness construction, and
//! the guard that applies externally produced witnesses at most once.

use vstd::prelude::*;
use crate::musig::{
    agg_nonce_of, aggregate_ok, final_sig_of, musig_aggregate, musig_nonce_sum,
    musig_partial_sign, partial_sig_of, partial_sign_ok, valid_pub_nonce,
};
use crate::sighash::{sighash_computable, sighash_of, taproot_sighash};
use crate::table::{obligation_table, spec_obligations};
use crate::types::{
    copy_stack, lemma_witness_update, CommitteeGraph, Error, PreSignedTx, SignerKeypair,
    COMMITTEE_PRE_SIGN_NUM,
};

verus! {

/// The signing message of obligation slot `i` against graph `g`: the taproot
/// signing message of the obligation's transaction input, under the
/// obligation's hash scope.
pub open spec fn obligation_message(g: CommitteeGraph, i: int) -> Seq<u8> {
    let ob = spec_obligations()[i];
    let t = g.spec_tx(ob.tx);
    sighash_of(
        t.tx_bytes@,
        t.prev_outs.deep_view(),
        t.prev_scripts.deep_view()[ob.input_index as int],
        ob.input_index as int,
        ob.sighash.spec_is_all(),
    )
}

/// The signing-message computation of obligation slot `i` accepts `g`'s
/// transaction data.
pub open spec fn slot_message_ok(g: CommitteeGraph, i: int) -> bool {
    let ob = spec_obligations()[i];
    let t = g.spec_tx(ob.tx);
    sighash_computable(
        t.tx_bytes@,
        t.prev_outs.deep_view(),
        t.prev_scripts.deep_view()[ob.input_index as int],
        ob.input_index as int,
        ob.sighash.spec_is_all(),
    )
}

/// Obligation slot `i` can be partially signed: its signing message is
/// computable and the member's key and nonce material is accepted for it.
pub open spec fn slot_sign_ok(
    g: CommitteeGraph,
    secret: Seq<u8>,
    secnonces: Seq<Seq<u8>>,
    aggnonces: Seq<Seq<u8>>,
    i: int,
) -> bool {
    &&& slot_message_ok(g, i)
    &&& partial_sign_ok(
        g.parameters.committee_pubkeys.deep_view(),
        secret,
        secnonces[i],
        aggnonces[i],
        obligation_message(g, i),
    )
}

/// For each of the five obligations in table order, the member's partial
/// signature over the obligation's signing message, using the member's
/// secret nonce and the round's aggregated nonce for the obligation's slot.
///
/// The call succeeds exactly when every slot can be signed; all-or-nothing:
/// on the first failing slot in table order the whole round is discarded
/// and the error names that obligation's transaction and input.
pub fn committee_pre_sign(
    committee_member_keypair: &SignerKeypair,
    committee_member_sec_nonce: &Vec<Vec<u8>>,
    committee_agg_nonce: &Vec<Vec<u8>>,
    graph: &CommitteeGraph,
) -> (r: Result<Vec<Vec<u8>>, Error>)
    requires
        committee_member_sec_nonce.len() == COMMITTEE_PRE_SIGN_NUM,
        committee_agg_nonce.len() == COMMITTEE_PRE_SIGN_NUM,
        graph.wf(),
    ensures
        r.is_ok() == (forall|i: int|
            0 <= i < 5 ==> #[trigger] slot_sign_ok(
                *graph,
                committee_member_keypair.secret@,
                committee_member_sec_nonce.deep_view(),
                committee_agg_nonce.deep_view(),
                i,
            )),
        r matches Ok(sigs) ==> sigs.deep_view().len() == 5 && forall|i: int|
            0 <= i < 5 ==> #[trigger] sigs.deep_view()[i] == partial_sig_of(
                graph.parameters.committee_pubkeys.deep_view(),
                committee_member_keypair.secret@,
                committee_member_sec_nonce.deep_view()[i],
                committee_agg_nonce.deep_view()[i],
                obligation_message(*graph, i),
            ),
        r matches Err(e) ==> exists|i: int|
            #![trigger spec_obligations()[i]]
            0 <= i < 5 && !slot_sign_ok(
                *graph,
                committee_member_keypair.secret@,
                committee_member_sec_nonce.deep_view(),
                committee_agg_nonce.deep_view(),
                i,
            ) && (forall|j: int|
                0 <= j < i ==> #[trigger] slot_sign_ok(
                    *graph,
                    committee_member_keypair.secret@,
                    committee_member_sec_nonce.deep_view(),
                    committee_agg_nonce.deep_view(),
                    j,
                )) && e == (Error::Sign {
                tx: spec_obligations()[i].tx,
                input_index: spec_obligations()[i].input_index,
            }),
{
    let table = obligation_table();
    let mut res: Vec<Vec<u8>> = Vec::new();
    let mut s: usize = 0;
    while s < 5
        invariant
            s <= 5,
            res@.len() == s,
            table@ == spec_obligations(),
            committee_member_sec_nonce.len() == 5,
            committee_agg_nonce.len() == 5,
            graph.wf(),
            forall|k: int|
                0 <= k < s ==> #[trigger] slot_sign_ok(
                    *graph,
                    committee_member_keypair.secret@,
                    committee_member_sec_nonce.deep_view(),
                    committee_agg_nonce.deep_view(),
                    k,
                ),
            forall|k: int|
                0 <= k < s ==> #[trigger] res.deep_view()[k] == partial_sig_of(
                    graph.parameters.committee_pubkeys.deep_view(),
                    committee_member_keypair.secret@,
                    committee_member_sec_nonce.deep_view()[k],
                    committee_agg_nonce.deep_view()[k],
                    obligation_message(*graph, k),
                ),
        decreases 5 - s,
    {
        let ob = table[s];
        proof {
            assert(ob == spec_obligations()[s as int]);
            assert(ob.nonce_index == s);
        }
        let tx = graph.tx_ref(ob.tx);
        proof {
            assert(ob.input_index < tx.prev_scripts.len());
            assert(tx.prev_scripts@[ob.input_index as int]@ == tx.prev_scripts.deep_view()[
                ob.input_index as int
            ]);
        }
        let message = match taproot_sighash(
            &tx.tx_bytes,
            &tx.prev_outs,
            &tx.prev_scripts[ob.input_index],
            ob.input_index,
            ob.sighash.is_all(),
        ) {
            Some(m) => m,
            None => {
                proof {
                    let w = s as int;
                    assert(!slot_message_ok(*graph, w));
                    assert(!slot_sign_ok(
                        *graph,
                        committee_member_keypair.secret@,
                        committee_member_sec_nonce.deep_view(),
                        committee_agg_nonce.deep_view(),
                        w,
                    ));
                    assert(0 <= w < 5 && (Error::Sign {
                        tx: spec_obligations()[w].tx,
                        input_index: spec_obligations()[w].input_index,
                    }) == (Error::Sign { tx: ob.tx, input_index: ob.input_index }));
                }
                return Err(Error::Sign { tx: ob.tx, input_index: ob.input_index });
            },
        };
        proof {
            assert(slot_message_ok(*graph, s as int));
            assert(message@ == obligation_message(*graph, s as int));
            assert(committee_member_sec_nonce@[s as int]@ == committee_member_sec_nonce.deep_view()[
                s as int
            ]);
            assert(committee_agg_nonce@[s as int]@ == committee_agg_nonce.deep_view()[s as int]);
        }
        let psig = match musig_partial_sign(
            &graph.parameters.committee_pubkeys,
            &committee_member_keypair.secret,
            &committee_member_sec_nonce[ob.nonce_index],
            &committee_agg_nonce[ob.nonce_index],
            &message,
        ) {
            Some(p) => p,
            None => {
                proof {
                    let w = s as int;
                    assert(!partial_sign_ok(
                        graph.parameters.committee_pubkeys.deep_view(),
                        committee_member_keypair.secret@,
                        committee_member_sec_nonce.deep_view()[w],
                        committee_agg_nonce.deep_view()[w],
                        obligation_message(*graph, w),
                    ));
                    assert(!slot_sign_ok(
                        *graph,
                        committee_member_keypair.secret@,
                        committee_member_sec_nonce.deep_view(),
                        committee_agg_nonce.deep_view(),
                        w,
                    ));
                    assert(0 <= w < 5 && (Error::Sign {
                        tx: spec_obligations()[w].tx,
                        input_index: spec_obligations()[w].input_index,
                    }) == (Error::Sign { tx: ob.tx, input_index: ob.input_index }));
                }
                return Err(Error::Sign { tx: ob.tx, input_index: ob.input_index });
            },
        };
        proof {
            assert(slot_sign_ok(
                *graph,
                committee_member_keypair.secret@,
                committee_member_sec_nonce.deep_view(),
                committee_agg_nonce.deep_view(),
                s as int,
            ));
        }
        let ghost res0 = res;
        res.push(psig);
        proof {
            assert(res@ == res0@.push(psig));
            assert forall|k: int| 0 <= k < s implies #[trigger] res.deep_view()[k]
                == res0.deep_view()[k] by {
                assert(res.deep_view()[k] == res@[k]@);
                assert(res@[k] == res0@[k]);
                assert(res0.deep_view()[k] == res0@[k]@);
            }
            assert(res.deep_view()[s as int] == res@[s as int]@);
            assert(res@[s as int] == psig);
        }
        s = s + 1;
    }
    Ok(res)
}

/// Deterministic, order-sensitive combination of all committee members'
/// public nonces for one slot.  A malformed nonce is a protocol violation by
/// the member that sent it, surfaced as `MalformedNonce`.
pub fn nonce_aggregation(pub_nonces: &Vec<Vec<u8>>) -> (r: Result<Vec<u8>, Error>)
    ensures
        r.is_ok() == (forall|i: int|
            0 <= i < pub_nonces.deep_view().len() ==> valid_pub_nonce(
                #[trigger] pub_nonces.deep_view()[i],
            )),
        r matches Ok(a) ==> a@ == agg_nonce_of(pub_nonces.deep_view()) && a@.len() == 66,
        r matches Err(e) ==> e == Error::MalformedNonce,
{
    match musig_nonce_sum(pub_nonces) {
        Some(a) => Ok(a),
        None => Err(Error::MalformedNonce),
    }
}

/// Transactions agree on everything except their witness stacks.
pub open spec fn tx_static_eq(a: PreSignedTx, b: PreSignedTx) -> bool {
    &&& a.tx_bytes == b.tx_bytes
    &&& a.prev_outs == b.prev_outs
    &&& a.prev_scripts == b.prev_scripts
}

/// Graphs agree on their parameters and on all transaction data other than
/// witness stacks.
pub open spec fn graph_static_eq(a: CommitteeGraph, b: CommitteeGraph) -> bool {
    &&& a.parameters == b.parameters
    &&& tx_static_eq(a.take1, b.take1)
    &&& tx_static_eq(a.take2, b.take2)
    &&& tx_static_eq(a.assert_final, b.assert_final)
    &&& tx_static_eq(a.disprove, b.disprove)
}

/// The final aggregated signature of slot `i`, tagged with the slot's hash
/// scope, for the given per-slot partial signatures and aggregated nonces.
pub open spec fn slot_final_sig(
    g: CommitteeGraph,
    partials: Seq<Seq<Seq<u8>>>,
    aggs: Seq<Seq<u8>>,
    i: int,
) -> Seq<u8> {
    final_sig_of(
        g.parameters.committee_pubkeys.deep_view(),
        aggs[i],
        partials[i],
        obligation_message(g, i),
    ).push(spec_obligations()[i].sighash.spec_tag_byte())
}

/// The witness stack the committee writes for slot `i`: the tagged final
/// signature as the stack's single item.
pub open spec fn slot_witness(
    g: CommitteeGraph,
    partials: Seq<Seq<Seq<u8>>>,
    aggs: Seq<Seq<u8>>,
    i: int,
) -> Seq<Seq<u8>> {
    seq![slot_final_sig(g, partials, aggs, i)]
}

/// Obligation slot `i` can be finally aggregated: its signing message is
/// computable and final aggregation accepts the slot's aggregated nonce and
/// partial signatures for that message.
pub open spec fn slot_aggregation_ok(
    g: CommitteeGraph,
    partials: Seq<Seq<Seq<u8>>>,
    aggs: Seq<Seq<u8>>,
    i: int,
) -> bool {
    &&& slot_message_ok(g, i)
    &&& aggregate_ok(
        g.parameters.committee_pubkeys.deep_view(),
        aggs[i],
        partials[i],
        obligation_message(g, i),
    )
}

/// For each slot, combines all members' partial signatures with the slot's
/// aggregated nonce into one final signature, tags it with the slot's hash
/// scope, and writes it into the obligation's witness slot.  The two
/// obligations of the take-2 transaction are finalized together.  The call
/// succeeds exactly when every slot can be aggregated; all five final
/// signatures are computed before any witness is written, so a failed round
/// leaves the graph unchanged, and the error names the first failing slot's
/// transaction and input.  This function alone sets `committee_pre_signed`.
/// The returned witnesses, in slot order, are meant for distribution to the
/// members that did not aggregate themselves.
pub fn signature_aggregation_and_push(
    partial_sigs: &Vec<Vec<Vec<u8>>>,
    agg_nonces: &Vec<Vec<u8>>,
    graph: &mut CommitteeGraph,
) -> (r: Result<Vec<Vec<Vec<u8>>>, Error>)
    requires
        partial_sigs.len() == COMMITTEE_PRE_SIGN_NUM,
        agg_nonces.len() == COMMITTEE_PRE_SIGN_NUM,
        old(graph).wf(),
    ensures
        r.is_ok() == (forall|i: int|
            0 <= i < 5 ==> #[trigger] slot_aggregation_ok(
                *old(graph),
                partial_sigs.deep_view(),
                agg_nonces.deep_view(),
                i,
            )),
        r matches Ok(w) ==> ({
            let g0 = *old(graph);
            let ps = partial_sigs.deep_view();
            let an = agg_nonces.deep_view();
            &&& final(graph).committee_pre_signed == true
            &&& graph_static_eq(g0, *final(graph))
            &&& final(graph).take1.input_witnesses.deep_view()
                == g0.take1.input_witnesses.deep_view().update(0, slot_witness(g0, ps, an, 0))
            &&& final(graph).take2.input_witnesses.deep_view()
                == g0.take2.input_witnesses.deep_view().update(
                0,
                slot_witness(g0, ps, an, 1),
            ).update(2, slot_witness(g0, ps, an, 2))
            &&& final(graph).assert_final.input_witnesses.deep_view()
                == g0.assert_final.input_witnesses.deep_view().update(
                0,
                slot_witness(g0, ps, an, 3),
            )
            &&& final(graph).disprove.input_witnesses.deep_view()
                == g0.disprove.input_witnesses.deep_view().update(
                0,
                slot_witness(g0, ps, an, 4),
            )
            &&& w.deep_view() == seq![
                slot_witness(g0, ps, an, 0),
                slot_witness(g0, ps, an, 1),
                slot_witness(g0, ps, an, 2),
                slot_witness(g0, ps, an, 3),
                slot_witness(g0, ps, an, 4),
            ]
        }),
        r matches Err(e) ==> *final(graph) == *old(graph) && exists|i: int|
            #![trigger spec_obligations()[i]]
            0 <= i < 5 && !slot_aggregation_ok(
                *old(graph),
                partial_sigs.deep_view(),
                agg_nonces.deep_view(),
                i,
            ) && (forall|j: int|
                0 <= j < i ==> #[trigger] slot_aggregation_ok(
                    *old(graph),
                    partial_sigs.deep_view(),
                    agg_nonces.deep_view(),
                    j,
                )) && e == (Error::Aggregate {
                tx: spec_obligations()[i].tx,
                input_index: spec_obligations()[i].input_index,
            }),
{
    let ghost g0 = *graph;
    let ghost ps = partial_sigs.deep_view();
    let ghost an = agg_nonces.deep_view();
    let table = obligation_table();
    // First pass: compute the five tagged final signatures, in table order,
    // without touching the graph.
    let mut sigs: Vec<Vec<u8>> = Vec::new();
    let mut s: usize = 0;
    while s < 5
        invariant
            s <= 5,
            sigs@.len() == s,
            *graph == g0,
            g0.wf(),
            table@ == spec_obligations(),
            partial_sigs.len() == 5,
            agg_nonces.len() == 5,
            ps == partial_sigs.deep_view(),
            an == agg_nonces.deep_view(),
            forall|k: int| 0 <= k < s ==> #[trigger] slot_aggregation_ok(g0, ps, an, k),
            forall|k: int|
                0 <= k < s ==> #[trigger] sigs.deep_view()[k] == slot_final_sig(g0, ps, an, k),
        decreases 5 - s,
    {
        let ob = table[s];
        proof {
            assert(ob == spec_obligations()[s as int]);
            assert(ob.nonce_index == s);
        }
        let tx = graph.tx_ref(ob.tx);
        proof {
            assert(ob.input_index < tx.prev_scripts.len());
            assert(tx.prev_scripts@[ob.input_index as int]@ == tx.prev_scripts.deep_view()[
                ob.input_index as int
            ]);
        }
        let message = match taproot_sighash(
            &tx.tx_bytes,
            &tx.prev_outs,
            &tx.prev_scripts[ob.input_index],
            ob.input_index,
            ob.sighash.is_all(),
        ) {
            Some(m) => m,
            None => {
                proof {
                    let w = s as int;
                    assert(!slot_message_ok(g0, w));
                    assert(!slot_aggregation_ok(g0, ps, an, w));
                    assert(0 <= w < 5 && (Error::Aggregate {
                        tx: spec_obligations()[w].tx,
                        input_index: spec_obligations()[w].input_index,
                    }) == (Error::Aggregate { tx: ob.tx, input_index: ob.input_index }));
                }
                return Err(Error::Aggregate { tx: ob.tx, input_index: ob.input_index });
            },
        };
        proof {
            assert(slot_message_ok(g0, s as int));
            assert(message@ == obligation_message(g0, s as int));
            assert(partial_sigs@[s as int].deep_view() == ps[s as int]);
            assert(agg_nonces@[s as int]@ == an[s as int]);
        }
        let fsig = match musig_aggregate(
            &graph.parameters.committee_pubkeys,
            &agg_nonces[ob.nonce_index],
            &partial_sigs[ob.nonce_index],
            &message,
        ) {
            Some(v) => v,
            None => {
                proof {
                    let w = s as int;
                    assert(!aggregate_ok(
                        g0.parameters.committee_pubkeys.deep_view(),
                        an[w],
                        ps[w],
                        obligation_message(g0, w),
                    ));
                    assert(!slot_aggregation_ok(g0, ps, an, w));
                    assert(0 <= w < 5 && (Error::Aggregate {
                        tx: spec_obligations()[w].tx,
                        input_index: spec_obligations()[w].input_index,
                    }) == (Error::Aggregate { tx: ob.tx, input_index: ob.input_index }));
                }
                return Err(Error::Aggregate { tx: ob.tx, input_index: ob.input_index });
            },
        };
        proof {
            assert(slot_aggregation_ok(g0, ps, an, s as int));
        }
        let mut tagged = fsig;
        tagged.push(ob.sighash.tag_byte());
        proof {
            assert(tagged@ == slot_final_sig(g0, ps, an, s as int));
        }
        let ghost sigs0 = sigs;
        sigs.push(tagged);
        proof {
            assert(sigs@ == sigs0@.push(sigs@[s as int]));
            assert(sigs.deep_view()[s as int] == sigs@[s as int]@);
            assert(sigs@[s as int]@ == slot_final_sig(g0, ps, an, s as int));
            assert forall|k: int| 0 <= k < s implies #[trigger] sigs.deep_view()[k]
                == sigs0.deep_view()[k] by {
                assert(sigs.deep_view()[k] == sigs@[k]@);
                assert(sigs@[k] == sigs0@[k]);
                assert(sigs0.deep_view()[k] == sigs0@[k]@);
            }
        }
        s = s + 1;
    }
    // Second pass: all five signatures exist; write the witnesses, the two
    // take-2 inputs in one combined write, and flip the flag.
    let s0 = crate::types::copy_bytes(&sigs[0]);
    let s1 = crate::types::copy_bytes(&sigs[1]);
    let s2 = crate::types::copy_bytes(&sigs[2]);
    let s3 = crate::types::copy_bytes(&sigs[3]);
    let s4 = crate::types::copy_bytes(&sigs[4]);
    proof {
        assert(sigs.deep_view()[0] == sigs@[0]@);
        assert(sigs.deep_view()[1] == sigs@[1]@);
        assert(sigs.deep_view()[2] == sigs@[2]@);
        assert(sigs.deep_view()[3] == sigs@[3]@);
        assert(sigs.deep_view()[4] == sigs@[4]@);
        assert(s0@ == slot_final_sig(g0, ps, an, 0));
        assert(s1@ == slot_final_sig(g0, ps, an, 1));
        assert(s2@ == slot_final_sig(g0, ps, an, 2));
        assert(s3@ == slot_final_sig(g0, ps, an, 3));
        assert(s4@ == slot_final_sig(g0, ps, an, 4));
    }
    let mut res: Vec<Vec<Vec<u8>>> = Vec::new();

    let st = single_stack(s0);
    res.push(copy_stack(&st));
    let ghost pre1 = graph.take1.input_witnesses;
    let ghost stg = st;
    graph.take1.input_witnesses[0] = st;
    proof {
        lemma_witness_update(pre1, graph.take1.input_witnesses, 0, stg);
    }

    let st1 = single_stack(s1);
    let st2 = single_stack(s2);
    res.push(copy_stack(&st1));
    res.push(copy_stack(&st2));
    let ghost pre2a = graph.take2.input_witnesses;
    let ghost stg1 = st1;
    graph.take2.input_witnesses[0] = st1;
    proof {
        lemma_witness_update(pre2a, graph.take2.input_witnesses, 0, stg1);
    }
    let ghost pre2b = graph.take2.input_witnesses;
    let ghost stg2 = st2;
    graph.take2.input_witnesses[2] = st2;
    proof {
        lemma_witness_update(pre2b, graph.take2.input_witnesses, 2, stg2);
    }

    let st3 = single_stack(s3);
    res.push(copy_stack(&st3));
    let ghost pre3 = graph.assert_final.input_witnesses;
    let ghost stg3 = st3;
    graph.assert_final.input_witnesses[0] = st3;
    proof {
        lemma_witness_update(pre3, graph.assert_final.input_witnesses, 0, stg3);
    }

    let st4 = single_stack(s4);
    res.push(copy_stack(&st4));
    let ghost pre4 = graph.disprove.input_witnesses;
    let ghost stg4 = st4;
    graph.disprove.input_witnesses[0] = st4;
    proof {
        lemma_witness_update(pre4, graph.disprove.input_witnesses, 0, stg4);
    }

    graph.committee_pre_signed = true;
    proof {
        assert(res.deep_view() =~= seq![
            slot_witness(g0, ps, an, 0),
            slot_witness(g0, ps, an, 1),
            slot_witness(g0, ps, an, 2),
            slot_witness(g0, ps, an, 3),
            slot_witness(g0, ps, an, 4),
        ]);
    }
    Ok(res)
}

/// Wraps one witness item as a single-item stack.
fn single_stack(item: Vec<u8>) -> (r: Vec<Vec<u8>>)
    ensures
        r.deep_view() == seq![item@],
{
    let ghost item_view = item@;
    let mut r: Vec<Vec<u8>> = Vec::new();
    r.push(item);
    proof {
        assert(r.deep_view()[0] == r@[0]@);
        assert(r.deep_view() =~= seq![item_view]);
    }
    r
}

/// Applies a previously computed set of committee witnesses onto a graph at
/// most once: if the graph is already marked pre-signed the call reports
/// `AlreadyPreSigned` and changes nothing; otherwise it writes the five
/// witnesses into the five fixed obligation slots, in slot order.  The
/// witnesses are trusted to come from an aggregation round; they are not
/// validated here.  This function never sets `committee_pre_signed`: only
/// the aggregation step does, so a node that only applies externally
/// produced witnesses keeps a graph that the guard does not yet protect.
pub fn push_committee_pre_signatures(
    graph: &mut CommitteeGraph,
    signed_witness: &Vec<Vec<Vec<u8>>>,
) -> (r: Option<Error>)
    requires
        old(graph).wf(),
        signed_witness.len() == COMMITTEE_PRE_SIGN_NUM,
    ensures
        old(graph).committee_pre_signed ==> r == Some(Error::AlreadyPreSigned) && *final(graph)
            == *old(graph),
        !old(graph).committee_pre_signed ==> ({
            let g0 = *old(graph);
            let w = signed_witness.deep_view();
            &&& r is None
            &&& final(graph).committee_pre_signed == false
            &&& graph_static_eq(g0, *final(graph))
            &&& final(graph).take1.input_witnesses.deep_view()
                == g0.take1.input_witnesses.deep_view().update(0, w[0])
            &&& final(graph).take2.input_witnesses.deep_view()
                == g0.take2.input_witnesses.deep_view().update(0, w[1]).update(2, w[2])
            &&& final(graph).assert_final.input_witnesses.deep_view()
                == g0.assert_final.input_witnesses.deep_view().update(0, w[3])
            &&& final(graph).disprove.input_witnesses.deep_view()
                == g0.disprove.input_witnesses.deep_view().update(0, w[4])
        }),
{
    if graph.committee_pre_signed {
        return Some(Error::AlreadyPreSigned);
    }
    proof {
        assert forall|k: int| 0 <= k < 5 implies #[trigger] signed_witness@[k].deep_view()
            == signed_witness.deep_view()[k] by {}
    }
    let ghost pre1 = graph.take1.input_witnesses;
    let w0 = copy_stack(&signed_witness[0]);
    let ghost w0g = w0;
    graph.take1.input_witnesses[0] = w0;
    proof {
        lemma_witness_update(pre1, graph.take1.input_witnesses, 0, w0g);
    }
    let ghost pre2a = graph.take2.input_witnesses;
    let w1 = copy_stack(&signed_witness[1]);
    let ghost w1g = w1;
    graph.take2.input_witnesses[0] = w1;
    proof {
        lemma_witness_update(pre2a, graph.take2.input_witnesses, 0, w1g);
    }
    let ghost pre2b = graph.take2.input_witnesses;
    let w2 = copy_stack(&signed_witness[2]);
    let ghost w2g = w2;
    graph.take2.input_witnesses[2] = w2;
    proof {
        lemma_witness_update(pre2b, graph.take2.input_witnesses, 2, w2g);
    }
    let ghost pre3 = graph.assert_final.input_witnesses;
    let w3 = copy_stack(&signed_witness[3]);
    let ghost w3g = w3;
    graph.assert_final.input_witnesses[0] = w3;
    proof {
        lemma_witness_update(pre3, graph.assert_final.input_witnesses, 0, w3g);
    }
    let ghost pre4 = graph.disprove.input_witnesses;
    let w4 = copy_stack(&signed_witness[4]);
    let ghost w4g = w4;
    graph.disprove.input_witnesses[0] = w4;
    proof {
        lemma_witness_update(pre4, graph.disprove.input_witnesses, 0, w4g);
    }
    None
}

} // verus!
