//! Unsigned transaction templates for the vault's spend paths: the CTV
//! spend (vault to unvault, or unvault to cold storage) and the delayed hot
//! spend. The CTV spend is validated against the tree's committed output set
//! before any witness is attached.

use vstd::prelude::*;
use crate::commitment::{commit, outputs_model, TxOutput};
use crate::encoding::{bytes32_eq, clone_bytes, push_bytes};
use crate::script::{ctv_leaf_script, ctv_script, leaf_script_spec, ScriptLeaf};
use crate::tree::{control_block_of, leaves_model, TaprootTree, TreeLeaf};
use crate::vault::{spend_commitment, HOP_FEE_SAT, SEQUENCE_FINAL};
use crate::VaultError;

verus! {

/// An unsigned transaction with one input, built for one spend path.
/// Immutable once built, except that a witness stack is attached to it.
#[derive(Debug)]
pub struct TxTemplate {
    /// Transaction version.
    pub version: u32,
    /// Absolute locktime.
    pub lock_time: u32,
    /// The spent output's transaction id (32 bytes, internal byte order).
    pub input_txid: [u8; 32],
    /// The spent output's index in that transaction.
    pub input_vout: u32,
    /// The input's sequence field; carries the relative timelock, if any.
    pub input_sequence: u32,
    /// The new outputs.
    pub outputs: Vec<TxOutput>,
    /// The input's witness stack, empty until attached.
    pub witness: Vec<Vec<u8>>,
}

/// The mathematical value of a witness stack: its elements' bytes.
pub open spec fn witness_model(w: Seq<Vec<u8>>) -> Seq<Seq<u8>> {
    w.map_values(|e: Vec<u8>| e@)
}

impl TxTemplate {
    /// Every template of this vault: version 2, locktime 0, one output.
    pub open spec fn wf(self) -> bool {
        &&& self.version == 2
        &&& self.lock_time == 0
        &&& self.outputs@.len() == 1
    }
}

/// Whether some leaf of the list is a CTV leaf.
pub open spec fn has_ctv_leaf(leaves: Seq<TreeLeaf>) -> bool {
    exists|i: int| 0 <= i < leaves.len() && (#[trigger] leaves[i]).leaf is CtvLeaf
}

/// Whether some CTV leaf of the list carries exactly the commitment `c`.
pub open spec fn has_ctv_commitment(leaves: Seq<TreeLeaf>, c: Seq<u8>) -> bool {
    exists|i: int|
        0 <= i < leaves.len() && ((#[trigger] leaves[i]).leaf matches ScriptLeaf::CtvLeaf {
            commitment,
        } && commitment@ == c)
}

/// Builds the template spending `prev_txid:prev_vout` through a CTV leaf of
/// `tree` into a single output of `value` satoshis to `destination_spk`.
///
/// The commitment is recomputed for that exact output set and validated
/// against the tree before the witness is attached: a tree without a CTV
/// leaf is rejected as `NoMatchingLeaf`, and a CTV leaf committed to a
/// different output set as `CommitmentMismatch`. Success, exactly when a
/// leaf carries the recomputed commitment, yields the template with witness
/// `[commitment, ctv script, control block]` (the leading commitment push
/// is a fixed witness element of this deployment's spend format).
pub fn assemble_ctv_spend(
    prev_txid: &[u8; 32],
    prev_vout: u32,
    value: u64,
    tree: &TaprootTree,
    destination_spk: &Vec<u8>,
) -> (r: Result<TxTemplate, VaultError>)
    requires
        tree.wf(),
    ensures
        r is Ok <==> has_ctv_commitment(tree.leaves@, spend_commitment(value, destination_spk@)),
        !has_ctv_leaf(tree.leaves@) ==> r is Err && r->Err_0 == VaultError::NoMatchingLeaf,
        has_ctv_leaf(tree.leaves@) && !has_ctv_commitment(
            tree.leaves@,
            spend_commitment(value, destination_spk@),
        ) ==> r is Err && r->Err_0 == VaultError::CommitmentMismatch,
        r is Ok ==> r->Ok_0.wf() && r->Ok_0.input_txid@ == prev_txid@
            && r->Ok_0.input_vout == prev_vout && r->Ok_0.input_sequence == SEQUENCE_FINAL
            && outputs_model(r->Ok_0.outputs@) == seq![(value, destination_spk@)],
        r is Ok ==> witness_model(r->Ok_0.witness@) == seq![
            spend_commitment(value, destination_spk@),
            ctv_leaf_script(spend_commitment(value, destination_spk@)),
            control_block_of(
                tree.internal_key@,
                leaves_model(tree.leaves@),
                ctv_leaf_script(spend_commitment(value, destination_spk@)),
            ),
        ],
{
    let mut outputs: Vec<TxOutput> = Vec::new();
    outputs.push(TxOutput { value, script_pubkey: clone_bytes(destination_spk) });
    assert(outputs_model(outputs@) =~= seq![(value, destination_spk@)]);
    let c = commit(&outputs, SEQUENCE_FINAL);

    let ghost all = tree.leaves@;
    let mut found_ctv = false;
    let mut matched = false;
    let mut i: usize = 0;
    while i < tree.leaves.len()
        invariant
            i <= all.len(),
            tree.leaves@ == all,
            c@ == spend_commitment(value, destination_spk@),
            found_ctv == has_ctv_leaf(all.take(i as int)),
            matched == has_ctv_commitment(all.take(i as int), c@),
        decreases all.len() - i,
    {
        let entry: TreeLeaf = tree.leaves[i];
        match entry.leaf {
            ScriptLeaf::CtvLeaf { commitment } => {
                found_ctv = true;
                assert(has_ctv_leaf(all.take(i + 1))) by {
                    assert(all.take(i + 1)[i as int] == entry);
                }
                if bytes32_eq(&commitment, &c) {
                    matched = true;
                    assert(has_ctv_commitment(all.take(i + 1), c@)) by {
                        assert(all.take(i + 1)[i as int] == entry);
                    }
                } else {
                    proof {
                        lemma_prefix_step(all, i as int, c@, matched);
                    }
                }
            },
            ScriptLeaf::TimelockSigLeaf { .. } => {
                proof {
                    lemma_prefix_step(all, i as int, c@, matched);
                    if has_ctv_leaf(all.take(i + 1)) {
                        let j = choose|j: int|
                            0 <= j < all.take(i + 1).len() && (#[trigger] all.take(
                                i + 1,
                            )[j]).leaf is CtvLeaf;
                        assert(all.take(i as int)[j] == all.take(i + 1)[j]);
                    }
                }
            },
        }
        i = i + 1;
    }
    assert(all.take(all.len() as int) =~= all);

    if !found_ctv {
        return Err(VaultError::NoMatchingLeaf);
    }
    if !matched {
        return Err(VaultError::CommitmentMismatch);
    }

    let spend_leaf = ScriptLeaf::CtvLeaf { commitment: c };
    proof {
        let j = choose|j: int|
            0 <= j < all.len() && ((#[trigger] all[j]).leaf matches ScriptLeaf::CtvLeaf {
                commitment,
            } && commitment@ == c@);
        assert(leaf_script_spec(all[j].leaf) == ctv_leaf_script(c@));
    }
    let cb = match tree.control_block(&spend_leaf) {
        Ok(cb) => cb,
        Err(_) => {
            // A CTV leaf with this very commitment was just found in the
            // tree, so by `control_block`'s contract this arm cannot be
            // reached.
            proof {
                assert(false);
            }
            return Err(VaultError::LeafNotFound);
        },
    };
    let script = ctv_script(&c);
    let mut commitment_push: Vec<u8> = Vec::new();
    push_bytes(&mut commitment_push, c.as_slice());

    let mut witness: Vec<Vec<u8>> = Vec::new();
    witness.push(commitment_push);
    witness.push(script);
    witness.push(cb);
    assert(witness_model(witness@) =~= seq![
        c@,
        ctv_leaf_script(c@),
        control_block_of(tree.internal_key@, leaves_model(tree.leaves@), ctv_leaf_script(c@)),
    ]);

    Ok(
        TxTemplate {
            version: 2,
            lock_time: 0,
            input_txid: *prev_txid,
            input_vout: prev_vout,
            input_sequence: SEQUENCE_FINAL,
            outputs,
            witness,
        },
    )
}

/// When the leaf at position `i` is not a matching CTV leaf, extending the
/// searched prefix past it adds no CTV commitment match; and when it is no
/// CTV leaf at all, no CTV leaf either.
proof fn lemma_prefix_step(all: Seq<TreeLeaf>, i: int, c: Seq<u8>, matched: bool)
    requires
        0 <= i < all.len(),
        matched == has_ctv_commitment(all.take(i), c),
        !(all[i].leaf matches ScriptLeaf::CtvLeaf { commitment } && commitment@ == c),
    ensures
        has_ctv_commitment(all.take(i + 1), c) == matched,
{
    if has_ctv_commitment(all.take(i + 1), c) {
        let j = choose|j: int|
            0 <= j < all.take(i + 1).len() && ((#[trigger] all.take(
                i + 1,
            )[j]).leaf matches ScriptLeaf::CtvLeaf { commitment } && commitment@ == c);
        assert(all.take(i + 1)[j] == all[j]);
        assert(j < i);
        assert(all.take(i)[j] == all[j]);
    }
    if matched {
        let j = choose|j: int|
            0 <= j < all.take(i).len() && ((#[trigger] all.take(
                i,
            )[j]).leaf matches ScriptLeaf::CtvLeaf { commitment } && commitment@ == c);
        assert(all.take(i + 1)[j] == all.take(i)[j]);
    }
}

/// Round trip: a tree whose first leaf is the CTV leaf committed to exactly
/// `(value, dest_spk)` — as `build_vault` and `build_unvault` produce it —
/// satisfies the success condition of `assemble_ctv_spend` for that output
/// set, so the spend template is always built.
pub proof fn lemma_round_trip(leaves: Seq<TreeLeaf>, value: u64, dest_spk: Seq<u8>)
    requires
        leaves.len() >= 1,
        leaves[0].leaf matches ScriptLeaf::CtvLeaf { commitment } && commitment@
            == spend_commitment(value, dest_spk),
    ensures
        has_ctv_commitment(leaves, spend_commitment(value, dest_spk)),
{
    assert(0 <= 0 < leaves.len() && (leaves[0].leaf matches ScriptLeaf::CtvLeaf { commitment }
        && commitment@ == spend_commitment(value, dest_spk)));
}

/// Builds the template for the timelocked hot spend: one input spending
/// `prev_txid:prev_vout` whose sequence field carries `delay` (the relative
/// timelock is enforced by consensus at broadcast time, not here), and one
/// output of `value` minus the one-hop fee to the hot wallet. The witness
/// is attached later by the signer.
pub fn assemble_hot_spend(
    prev_txid: &[u8; 32],
    prev_vout: u32,
    value: u64,
    hot_destination_spk: &Vec<u8>,
    delay: u32,
) -> (r: TxTemplate)
    requires
        value >= HOP_FEE_SAT,
    ensures
        r.wf(),
        r.input_txid@ == prev_txid@,
        r.input_vout == prev_vout,
        r.input_sequence == delay,
        outputs_model(r.outputs@) == seq![
            (((value - HOP_FEE_SAT) as u64), hot_destination_spk@),
        ],
        r.witness@.len() == 0,
{
    let mut outputs: Vec<TxOutput> = Vec::new();
    outputs.push(
        TxOutput { value: value - HOP_FEE_SAT, script_pubkey: clone_bytes(hot_destination_spk) },
    );
    assert(outputs_model(outputs@) =~= seq![
        (((value - HOP_FEE_SAT) as u64), hot_destination_spk@),
    ]);
    TxTemplate {
        version: 2,
        lock_time: 0,
        input_txid: *prev_txid,
        input_vout: prev_vout,
        input_sequence: delay,
        outputs,
        witness: Vec::new(),
    }
}

} // verus!
