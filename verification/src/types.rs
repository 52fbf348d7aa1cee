//! Data model of the committee pre-signing protocol: hash scopes, the
//! transaction selectors of the settlement graph, signing obligations,
//! structured errors, key and nonce material, and the graph itself.

use vstd::prelude::*;

verus! {

/// How many signing obligations the committee has per graph instance.
pub const COMMITTEE_PRE_SIGN_NUM: usize = 5;

/// Which parts of a transaction a signature commits to.
#[derive(Clone, Copy, Debug, PartialEq, Eq, Structural)]
pub enum HashScope {
    /// Commits to all inputs and all outputs.
    All,
    /// Commits to this input and the single output at the same index.
    Single,
}

impl HashScope {
    /// The sighash tag byte appended to a 64-byte Schnorr signature in a
    /// taproot witness item: 0x01 for the all-scope, 0x03 for the
    /// single-output scope.
    pub open spec fn spec_tag_byte(self) -> u8 {
        match self {
            HashScope::All => 1u8,
            HashScope::Single => 3u8,
        }
    }

    /// True when the scope commits to all inputs and outputs.
    pub open spec fn spec_is_all(self) -> bool {
        self is All
    }

    pub fn tag_byte(self) -> (r: u8)
        ensures
            r == self.spec_tag_byte(),
    {
        match self {
            HashScope::All => 1u8,
            HashScope::Single => 3u8,
        }
    }

    pub fn is_all(self) -> (r: bool)
        ensures
            r == self.spec_is_all(),
    {
        match self {
            HashScope::All => true,
            HashScope::Single => false,
        }
    }
}

/// Selector of one of the four transactions of a settlement graph.
#[derive(Clone, Copy, Debug, PartialEq, Eq, Structural)]
pub enum GraphTx {
    Take1,
    Take2,
    AssertFinal,
    Disprove,
}

/// One fixed unit of committee signing work: which transaction, which input,
/// which nonce slot, and which hash scope applies.
#[derive(Clone, Copy, Debug, PartialEq, Eq, Structural)]
pub struct Obligation {
    pub tx: GraphTx,
    pub input_index: usize,
    pub nonce_index: usize,
    pub sighash: HashScope,
}

/// Structured errors of the pre-signing protocol.
#[derive(Clone, Copy, Debug, PartialEq, Eq, Structural)]
pub enum Error {
    /// The signing-message or partial-signature computation rejected its
    /// inputs for the named transaction input.
    Sign { tx: GraphTx, input_index: usize },
    /// Combining partial signatures failed for the named transaction input.
    Aggregate { tx: GraphTx, input_index: usize },
    /// The graph was already pre-signed by the committee; the caller should
    /// treat this as "no work needed", not as a failure.
    AlreadyPreSigned,
    /// The scalar derived from the seed is not a valid secret key.
    InvalidSecretKey,
    /// The signer's key material was rejected by the nonce primitive.
    InvalidKeyMaterial,
    /// A public nonce handed to aggregation was not a valid nonce encoding.
    MalformedNonce,
}

/// A committee member's signing key material: the 32-byte secret scalar and
/// the 33-byte compressed public key derived from it.
#[derive(Debug)]
pub struct SignerKeypair {
    pub secret: Vec<u8>,
    pub public: Vec<u8>,
}

/// Per-slot nonce material of one member for one graph instance: the 97-byte
/// serialized secret nonce (two scalars and the bound public key), the
/// 66-byte public nonce, and the member's 64-byte Schnorr attestation over
/// the public nonce's serialized encoding.
#[derive(Debug)]
pub struct NonceTriple {
    pub secret_nonce: Vec<u8>,
    pub public_nonce: Vec<u8>,
    pub attestation: Vec<u8>,
}

/// One transaction of the graph as the committee consumes it: the
/// consensus-serialized unsigned transaction, the serialized previous outputs
/// (one per input), the previous-output script of each input, and one witness
/// stack per input, written during pre-signing.
#[derive(Debug)]
pub struct PreSignedTx {
    pub tx_bytes: Vec<u8>,
    pub prev_outs: Vec<Vec<u8>>,
    pub prev_scripts: Vec<Vec<u8>>,
    pub input_witnesses: Vec<Vec<Vec<u8>>>,
}

/// Shared protocol parameters of a graph instance: the committee members'
/// compressed public keys in the canonical order all members agree on.
#[derive(Debug)]
pub struct GraphParameters {
    pub committee_pubkeys: Vec<Vec<u8>>,
}

/// The settlement graph: four transactions, shared parameters, and the flag
/// recording that the committee's witnesses were aggregated onto this graph.
#[derive(Debug)]
pub struct CommitteeGraph {
    pub parameters: GraphParameters,
    pub take1: PreSignedTx,
    pub take2: PreSignedTx,
    pub assert_final: PreSignedTx,
    pub disprove: PreSignedTx,
    pub committee_pre_signed: bool,
}

impl CommitteeGraph {
    /// The transaction selected by `sel`.
    pub open spec fn spec_tx(self, sel: GraphTx) -> PreSignedTx {
        match sel {
            GraphTx::Take1 => self.take1,
            GraphTx::Take2 => self.take2,
            GraphTx::AssertFinal => self.assert_final,
            GraphTx::Disprove => self.disprove,
        }
    }

    /// The committee is non-empty, and every input the obligation table
    /// points at exists, with its previous output, its previous-output
    /// script, and its witness slot.
    pub open spec fn wf(self) -> bool {
        &&& self.parameters.committee_pubkeys.len() >= 1
        &&& self.take1.prev_scripts.len() >= 1
        &&& self.take1.input_witnesses.len() >= 1
        &&& self.take2.prev_scripts.len() >= 3
        &&& self.take2.input_witnesses.len() >= 3
        &&& self.assert_final.prev_scripts.len() >= 1
        &&& self.assert_final.input_witnesses.len() >= 1
        &&& self.disprove.prev_scripts.len() >= 1
        &&& self.disprove.input_witnesses.len() >= 1
    }

    pub fn tx_ref(&self, sel: GraphTx) -> (r: &PreSignedTx)
        ensures
            *r == self.spec_tx(sel),
    {
        match sel {
            GraphTx::Take1 => &self.take1,
            GraphTx::Take2 => &self.take2,
            GraphTx::AssertFinal => &self.assert_final,
            GraphTx::Disprove => &self.disprove,
        }
    }
}

/// Replacing one witness stack of a transaction replaces exactly that
/// position of the deep view.
pub proof fn lemma_witness_update(
    pre: Vec<Vec<Vec<u8>>>,
    post: Vec<Vec<Vec<u8>>>,
    i: int,
    st: Vec<Vec<u8>>,
)
    requires
        0 <= i < pre@.len(),
        post@ == pre@.update(i, st),
    ensures
        post.deep_view() == pre.deep_view().update(i, st.deep_view()),
{
    assert forall|k: int| 0 <= k < post.deep_view().len() implies post.deep_view()[k]
        == pre.deep_view().update(i, st.deep_view())[k] by {
        assert(post.deep_view()[k] == post@[k].deep_view());
        assert(pre.deep_view()[k] == pre@[k].deep_view());
    }
    assert(post.deep_view() =~= pre.deep_view().update(i, st.deep_view()));
}

/// Copies a byte vector.
pub fn copy_bytes(v: &Vec<u8>) -> (r: Vec<u8>)
    ensures
        r@ == v@,
{
    let mut r: Vec<u8> = Vec::new();
    let mut i: usize = 0;
    while i < v.len()
        invariant
            i <= v.len(),
            r@ == v@.subrange(0, i as int),
        decreases v.len() - i,
    {
        r.push(v[i]);
        i = i + 1;
    }
    proof {
        assert(r@ =~= v@);
    }
    r
}

/// Copies a witness stack (a vector of byte vectors).
pub fn copy_stack(v: &Vec<Vec<u8>>) -> (r: Vec<Vec<u8>>)
    ensures
        r.deep_view() == v.deep_view(),
{
    let mut r: Vec<Vec<u8>> = Vec::new();
    let mut i: usize = 0;
    while i < v.len()
        invariant
            i <= v.len(),
            r.len() == i,
            forall|k: int| 0 <= k < i ==> #[trigger] r@[k]@ == v@[k]@,
        decreases v.len() - i,
    {
        r.push(copy_bytes(&v[i]));
        i = i + 1;
    }
    proof {
        assert forall|k: int| 0 <= k < r.deep_view().len() implies r.deep_view()[k]
            == v.deep_view()[k] by {
            assert(r.deep_view()[k] == r@[k]@);
            assert(v.deep_view()[k] == v@[k]@);
        }
        assert(r.deep_view() =~= v.deep_view());
    }
    r
}

} // verus!
