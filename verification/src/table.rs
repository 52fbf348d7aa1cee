//! The fixed table of the committee's five signing obligations.  The table is
//! immutable, identical across all members and all graph instances, and
//! order-significant: nonce slots are positionally assigned.

use vstd::prelude::*;
use crate::types::{GraphTx, HashScope, Obligation};

verus! {

/// The five obligations, in slot order.
pub open spec fn spec_obligations() -> Seq<Obligation> {
    seq![
        Obligation { tx: GraphTx::Take1, input_index: 0, nonce_index: 0, sighash: HashScope::All },
        Obligation { tx: GraphTx::Take2, input_index: 0, nonce_index: 1, sighash: HashScope::All },
        Obligation { tx: GraphTx::Take2, input_index: 2, nonce_index: 2, sighash: HashScope::All },
        Obligation {
            tx: GraphTx::AssertFinal,
            input_index: 0,
            nonce_index: 3,
            sighash: HashScope::All,
        },
        Obligation {
            tx: GraphTx::Disprove,
            input_index: 0,
            nonce_index: 4,
            sighash: HashScope::Single,
        },
    ]
}

/// The obligation table as an executable value, equal to `spec_obligations`.
pub fn obligation_table() -> (t: Vec<Obligation>)
    ensures
        t@ == spec_obligations(),
{
    let mut t: Vec<Obligation> = Vec::new();
    t.push(
        Obligation { tx: GraphTx::Take1, input_index: 0, nonce_index: 0, sighash: HashScope::All },
    );
    t.push(
        Obligation { tx: GraphTx::Take2, input_index: 0, nonce_index: 1, sighash: HashScope::All },
    );
    t.push(
        Obligation { tx: GraphTx::Take2, input_index: 2, nonce_index: 2, sighash: HashScope::All },
    );
    t.push(
        Obligation {
            tx: GraphTx::AssertFinal,
            input_index: 0,
            nonce_index: 3,
            sighash: HashScope::All,
        },
    );
    t.push(
        Obligation {
            tx: GraphTx::Disprove,
            input_index: 0,
            nonce_index: 4,
            sighash: HashScope::Single,
        },
    );
    proof {
        assert(t@ =~= spec_obligations());
    }
    t
}

/// Slot-table integrity: each slot's nonce index equals its position, and no
/// two obligations point at the same transaction input, so the five final
/// signatures land in five distinct witness slots.
pub proof fn lemma_slot_table_integrity()
    ensures
        spec_obligations().len() == 5,
        forall|i: int| 0 <= i < 5 ==> #[trigger] spec_obligations()[i].nonce_index == i,
        forall|i: int, j: int|
            0 <= i < j < 5
                ==> !(#[trigger] spec_obligations()[i].tx == #[trigger] spec_obligations()[j].tx
                && spec_obligations()[i].input_index == spec_obligations()[j].input_index),
{
}

} // verus!
