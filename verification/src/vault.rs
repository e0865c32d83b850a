//! The vault topology: a "vault" tree whose single CTV leaf commits to the
//! unvault output, and an "unvault" tree pairing an immediate CTV sweep to
//! cold storage with a delayed signature path to a hot wallet.

use vstd::prelude::*;
use crate::commitment::{commit, ctv_commitment, outputs_model, TxOutput};
use crate::encoding::clone_bytes;
use crate::script::ScriptLeaf;
use crate::tree::{
    is_xonly_key, leaves_model, output_key_of, p2tr_script_pubkey, TaprootTree, TreeLeaf,
};
use crate::VaultError;

verus! {

/// Flat fee, in satoshis, subtracted by each covenant hop. A simulation
/// constant, not a fee estimate.
pub const HOP_FEE_SAT: u64 = 420;

/// Relative timelock of the hot spend path, in confirmations of the
/// unvault output.
pub const HOT_SPEND_DELAY: u32 = 100;

/// The "final" sequence value: no relative timelock.
pub const SEQUENCE_FINAL: u32 = 0xFFFF_FFFF;

/// The verifiably unspendable internal key of BIP-341: the x coordinate of
/// `H = lift_x(sha256(ser(G)))`, a point with no known discrete logarithm,
/// so the trees can only ever be spent through their script paths.
pub const UNSPENDABLE_INTERNAL_KEY: [u8; 32] = [
    0x50, 0x92, 0x9b, 0x74, 0xc1, 0xa0, 0x49, 0x54, 0xb7, 0x8b, 0x4b, 0x60, 0x35, 0xe9, 0x7a,
    0x5e, 0x07, 0x8a, 0x5a, 0x0f, 0x28, 0xec, 0x96, 0xd5, 0x47, 0xbf, 0xee, 0x9a, 0xce, 0x80,
    0x3a, 0xc0,
];

/// The commitment a vault CTV leaf carries: one output of `value` satoshis
/// to `dest_spk`, spent by a single input with no relative timelock.
pub open spec fn spend_commitment(value: u64, dest_spk: Seq<u8>) -> Seq<u8> {
    ctv_commitment(seq![(value, dest_spk)], SEQUENCE_FINAL)
}

/// Builds the unvault tree: a CTV leaf committing `amount` minus the
/// two-hop fee to the cold-storage script, and a timelocked signature leaf
/// for the hot key, both at depth 1. Returns the tree and the scriptPubKey
/// of the unvault address.
pub fn build_unvault(hot_pubkey: &[u8; 32], amount: u64, cold_script_pubkey: &Vec<u8>) -> (r:
    Result<(TaprootTree, Vec<u8>), VaultError>)
    requires
        amount >= 2 * HOP_FEE_SAT,
    ensures
        r is Ok ==> r->Ok_0.0.wf(),
        r is Ok ==> r->Ok_0.0.leaves@.len() == 2,
        r is Ok ==> r->Ok_0.0.leaves@[0].depth == 1 && r->Ok_0.0.leaves@[1].depth == 1,
        r is Ok ==> (r->Ok_0.0.leaves@[0].leaf matches ScriptLeaf::CtvLeaf { commitment }
            && commitment@ == spend_commitment((amount - 2 * HOP_FEE_SAT) as u64,
        cold_script_pubkey@)),
        r is Ok ==> r->Ok_0.0.leaves@[1].leaf == (ScriptLeaf::TimelockSigLeaf {
            pubkey: *hot_pubkey,
            delay: HOT_SPEND_DELAY,
        }),
        r is Ok ==> r->Ok_0.0.internal_key@ == UNSPENDABLE_INTERNAL_KEY@,
        r is Ok ==> r->Ok_0.1@ == p2tr_script_pubkey(output_key_of(
            UNSPENDABLE_INTERNAL_KEY@,
            leaves_model(r->Ok_0.0.leaves@),
        )),
        is_xonly_key(UNSPENDABLE_INTERNAL_KEY@) ==> r is Ok,
        r is Err ==> r->Err_0 == VaultError::TreeConstruction,
{
    let mut outputs: Vec<TxOutput> = Vec::new();
    outputs.push(TxOutput {
        value: amount - 2 * HOP_FEE_SAT,
        script_pubkey: clone_bytes(cold_script_pubkey),
    });
    assert(outputs_model(outputs@) =~= seq![
        (((amount - 2 * HOP_FEE_SAT) as u64), cold_script_pubkey@),
    ]);
    let c = commit(&outputs, SEQUENCE_FINAL);
    let mut leaves: Vec<TreeLeaf> = Vec::new();
    leaves.push(TreeLeaf { depth: 1, leaf: ScriptLeaf::CtvLeaf { commitment: c } });
    leaves.push(
        TreeLeaf {
            depth: 1,
            leaf: ScriptLeaf::TimelockSigLeaf { pubkey: *hot_pubkey, delay: HOT_SPEND_DELAY },
        },
    );
    let tree = match TaprootTree::build(leaves, &UNSPENDABLE_INTERNAL_KEY) {
        Ok(t) => t,
        Err(e) => {
            return Err(e);
        },
    };
    let spk = tree.output_script_pubkey();
    Ok((tree, spk))
}

/// Builds the vault tree: a single CTV leaf at depth 0 committing `amount`
/// minus the one-hop fee to the unvault scriptPubKey. Returns the tree and
/// the scriptPubKey of the vault address.
pub fn build_vault(amount: u64, unvault_script_pubkey: &Vec<u8>) -> (r: Result<
    (TaprootTree, Vec<u8>),
    VaultError,
>)
    requires
        amount >= HOP_FEE_SAT,
    ensures
        r is Ok ==> r->Ok_0.0.wf(),
        r is Ok ==> r->Ok_0.0.leaves@.len() == 1,
        r is Ok ==> r->Ok_0.0.leaves@[0].depth == 0,
        r is Ok ==> (r->Ok_0.0.leaves@[0].leaf matches ScriptLeaf::CtvLeaf { commitment }
            && commitment@ == spend_commitment((amount - HOP_FEE_SAT) as u64,
        unvault_script_pubkey@)),
        r is Ok ==> r->Ok_0.0.internal_key@ == UNSPENDABLE_INTERNAL_KEY@,
        r is Ok ==> r->Ok_0.1@ == p2tr_script_pubkey(output_key_of(
            UNSPENDABLE_INTERNAL_KEY@,
            leaves_model(r->Ok_0.0.leaves@),
        )),
        is_xonly_key(UNSPENDABLE_INTERNAL_KEY@) ==> r is Ok,
        r is Err ==> r->Err_0 == VaultError::TreeConstruction,
{
    let mut outputs: Vec<TxOutput> = Vec::new();
    outputs.push(TxOutput {
        value: amount - HOP_FEE_SAT,
        script_pubkey: clone_bytes(unvault_script_pubkey),
    });
    assert(outputs_model(outputs@) =~= seq![
        (((amount - HOP_FEE_SAT) as u64), unvault_script_pubkey@),
    ]);
    let c = commit(&outputs, SEQUENCE_FINAL);
    let mut leaves: Vec<TreeLeaf> = Vec::new();
    leaves.push(TreeLeaf { depth: 0, leaf: ScriptLeaf::CtvLeaf { commitment: c } });
    let tree = match TaprootTree::build(leaves, &UNSPENDABLE_INTERNAL_KEY) {
        Ok(t) => t,
        Err(e) => {
            return Err(e);
        },
    };
    let spk = tree.output_script_pubkey();
    Ok((tree, spk))
}

} // verus!
