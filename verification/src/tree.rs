//! Taproot tree assembly. The Merkle aggregation, key tweak, and control
//! block serialization are done by the `bitcoin` crate behind trusted
//! wrappers; the tree's leaf list, its well-formedness, and the success and
//! failure of every build step are verified here.

use vstd::prelude::*;
use crate::script::{leaf_script, leaf_script_spec, ScriptLeaf};
use crate::VaultError;

verus! {

/// Taproot tree values of the `bitcoin` crate, declared so that they can be
/// held and passed through verified code. They are opaque here: everything
/// known about them is stated by the trusted wrappers below.
#[verifier::external_type_specification]
#[verifier::external_body]
pub struct ExTaprootBuilder(bitcoin::taproot::TaprootBuilder);

#[verifier::external_type_specification]
#[verifier::external_body]
pub struct ExTaprootSpendInfo(bitcoin::taproot::TaprootSpendInfo);

#[verifier::external_type_specification]
#[verifier::external_body]
pub struct ExXOnlyPublicKey(bitcoin::XOnlyPublicKey);

/// The leaves a builder holds so far, in insertion (depth-first) order, each
/// as its depth and its script bytes.
pub uninterp spec fn tb_leaves(b: bitcoin::taproot::TaprootBuilder) -> Seq<(int, Seq<u8>)>;

/// The leaves a finalized tree holds, in insertion order, as depth and
/// script bytes.
pub uninterp spec fn si_leaves(si: bitcoin::taproot::TaprootSpendInfo) -> Seq<(int, Seq<u8>)>;

/// The serialized internal key a finalized tree was built under.
pub uninterp spec fn si_internal(si: bitcoin::taproot::TaprootSpendInfo) -> Seq<u8>;

/// The 32 bytes a parsed x-only key serializes back to.
pub uninterp spec fn xonly_bytes(k: bitcoin::XOnlyPublicKey) -> Seq<u8>;

/// Whether 32 bytes are the serialization of a valid x-only public key
/// (an x coordinate on the secp256k1 curve).
pub uninterp spec fn is_xonly_key(b: Seq<u8>) -> bool;

/// The x-only output key of the Taproot tree with the given internal key and
/// leaves: the BIP-341 tweak of the internal key by the Merkle root. A pure
/// function of its arguments.
pub uninterp spec fn output_key_of(internal: Seq<u8>, leaves: Seq<(int, Seq<u8>)>) -> Seq<u8>;

/// The serialized control block proving that `script` is a leaf of the tree
/// with the given internal key and leaves: parity byte, internal key, Merkle
/// path. A pure function of its arguments.
pub uninterp spec fn control_block_of(
    internal: Seq<u8>,
    leaves: Seq<(int, Seq<u8>)>,
    script: Seq<u8>,
) -> Seq<u8>;

/// Relies on `secp256k1::XOnlyPublicKey::from_slice`: it succeeds exactly on
/// the 32-byte serialization of a valid x-only key, and parsing then
/// serializing returns the same bytes.
#[verifier::external_body]
fn parse_xonly_key(b: &[u8; 32]) -> (r: Result<bitcoin::XOnlyPublicKey, ()>)
    ensures
        r is Ok <==> is_xonly_key(b@),
        r is Ok ==> xonly_bytes(r->Ok_0) == b@,
{
    bitcoin::XOnlyPublicKey::from_slice(b).map_err(|_| ())
}

/// Relies on `bitcoin::taproot::TaprootBuilder::new`: a fresh builder holds
/// no leaves.
#[verifier::external_body]
fn taproot_builder_new() -> (r: bitcoin::taproot::TaprootBuilder)
    ensures
        tb_leaves(r) == Seq::<(int, Seq<u8>)>::empty(),
{
    bitcoin::taproot::TaprootBuilder::new()
}

/// Relies on `bitcoin::taproot::TaprootBuilder::add_leaf`: on success the
/// leaf (with the TapScript version) is appended to the builder's leaves.
/// Its `insert` always succeeds for the first leaf when the depth is within
/// the 128-level limit, and for a second leaf at depth 1 beside a first
/// leaf at depth 1.
#[verifier::external_body]
fn taproot_builder_add_leaf(
    b: bitcoin::taproot::TaprootBuilder,
    depth: u8,
    script: &Vec<u8>,
) -> (r: Result<bitcoin::taproot::TaprootBuilder, ()>)
    ensures
        r is Ok ==> tb_leaves(r->Ok_0) == tb_leaves(b).push((depth as int, script@)),
        tb_leaves(b).len() == 0 && depth <= 128 ==> r is Ok,
        tb_leaves(b).len() == 1 && tb_leaves(b)[0].0 == 1 && depth == 1 ==> r is Ok,
{
    b.add_leaf(depth, bitcoin::ScriptBuf::from_bytes(script.clone())).map_err(|_| ())
}

/// Relies on `bitcoin::taproot::TaprootBuilder::finalize`: on success the
/// spend info records the builder's leaves and the internal key. It succeeds
/// whenever the leaves form a complete tree, in particular for a single leaf
/// at depth 0 and for exactly two leaves at depth 1. (The BIP-341 tweak
/// inside can only fail on a cryptographically unreachable key/tweak pair.)
#[verifier::external_body]
fn taproot_builder_finalize(
    b: bitcoin::taproot::TaprootBuilder,
    internal: &bitcoin::XOnlyPublicKey,
) -> (r: Result<bitcoin::taproot::TaprootSpendInfo, ()>)
    ensures
        r is Ok ==> si_leaves(r->Ok_0) == tb_leaves(b) && si_internal(r->Ok_0) == xonly_bytes(
            *internal,
        ),
        tb_leaves(b).len() == 1 && tb_leaves(b)[0].0 == 0 ==> r is Ok,
        tb_leaves(b).len() == 2 && tb_leaves(b)[0].0 == 1 && tb_leaves(b)[1].0 == 1 ==> r is Ok,
{
    b.finalize(&bitcoin::secp256k1::Secp256k1::new(), *internal).map_err(|_| ())
}

/// Relies on `bitcoin::taproot::TaprootSpendInfo::output_key`: the tweaked
/// output key, a pure function of the internal key and the leaves.
#[verifier::external_body]
fn spend_info_output_key(si: &bitcoin::taproot::TaprootSpendInfo) -> (r: [u8; 32])
    ensures
        r@ == output_key_of(si_internal(*si), si_leaves(*si)),
{
    si.output_key().serialize()
}

/// Relies on `bitcoin::taproot::TaprootSpendInfo::control_block`: it returns
/// `Some` exactly when the script (under the TapScript leaf version) is one
/// of the tree's leaves, and the block it returns is a pure function of the
/// tree and the script (for a duplicated script, the shortest Merkle path).
#[verifier::external_body]
fn spend_info_control_block(
    si: &bitcoin::taproot::TaprootSpendInfo,
    script: &Vec<u8>,
) -> (r: Option<Vec<u8>>)
    ensures
        r is Some <==> (exists|i: int|
            #![trigger si_leaves(*si)[i]]
            0 <= i < si_leaves(*si).len() && si_leaves(*si)[i].1 == script@),
        r is Some ==> r->0@ == control_block_of(si_internal(*si), si_leaves(*si), script@),
{
    let key = (bitcoin::ScriptBuf::from_bytes(script.clone()), bitcoin::taproot::LeafVersion::TapScript);
    si.control_block(&key).map(|cb| cb.serialize())
}

/// One leaf of a tree under construction: its depth and its script.
#[derive(Clone, Copy, Debug)]
pub struct TreeLeaf {
    /// Depth of the leaf below the Merkle root (root is depth 0).
    pub depth: u8,
    /// The leaf's script.
    pub leaf: ScriptLeaf,
}

/// The mathematical value of a leaf list: each leaf's depth and script bytes.
pub open spec fn leaves_model(leaves: Seq<TreeLeaf>) -> Seq<(int, Seq<u8>)> {
    leaves.map_values(|l: TreeLeaf| (l.depth as int, leaf_script_spec(l.leaf)))
}

/// Whether some leaf of the list has exactly the given script.
pub open spec fn tree_has_script(leaves: Seq<TreeLeaf>, script: Seq<u8>) -> bool {
    exists|i: int| 0 <= i < leaves.len() && #[trigger] leaf_script_spec(leaves[i].leaf) == script
}

/// A finalized Taproot tree: the leaves it was built from, the internal key,
/// and the finalized spend data of the `bitcoin` crate.
#[derive(Debug)]
pub struct TaprootTree {
    /// The leaves, in insertion (depth-first) order.
    pub leaves: Vec<TreeLeaf>,
    /// The serialized internal key the tree is committed under.
    pub internal_key: [u8; 32],
    /// The finalized tree of the `bitcoin` crate.
    pub info: bitcoin::taproot::TaprootSpendInfo,
}

impl TaprootTree {
    /// The spend data agrees with the recorded leaves and internal key.
    pub open spec fn wf(self) -> bool {
        &&& si_leaves(self.info) == leaves_model(self.leaves@)
        &&& si_internal(self.info) == self.internal_key@
    }

    /// Assembles leaves (with explicit depths, in depth-first order) under
    /// an internal key into a finalized tree. Any depth list the underlying
    /// builder rejects — and an empty leaf list — is a construction error;
    /// the two shapes the vault uses (one leaf at depth 0, two leaves at
    /// depth 1) always succeed once the internal key parses.
    pub fn build(leaves: Vec<TreeLeaf>, internal_key: &[u8; 32]) -> (r: Result<
        TaprootTree,
        VaultError,
    >)
        ensures
            r is Ok ==> r->Ok_0.wf() && r->Ok_0.leaves@ == leaves@
                && r->Ok_0.internal_key@ == internal_key@,
            r is Err ==> r->Err_0 == VaultError::TreeConstruction,
            leaves@.len() == 0 ==> r is Err,
            is_xonly_key(internal_key@) && leaves@.len() == 1 && leaves@[0].depth == 0 ==> r is Ok,
            is_xonly_key(internal_key@) && leaves@.len() == 2 && leaves@[0].depth == 1
                && leaves@[1].depth == 1 ==> r is Ok,
    {
        if leaves.len() == 0 {
            return Err(VaultError::TreeConstruction);
        }
        let key = match parse_xonly_key(internal_key) {
            Ok(k) => k,
            Err(_) => {
                return Err(VaultError::TreeConstruction);
            },
        };
        let mut b = taproot_builder_new();
        assert(tb_leaves(b) =~= leaves_model(leaves@.take(0)));
        let mut i: usize = 0;
        while i < leaves.len()
            invariant
                i <= leaves@.len(),
                tb_leaves(b) == leaves_model(leaves@.take(i as int)),
            decreases leaves@.len() - i,
        {
            let entry: TreeLeaf = leaves[i];
            let script = leaf_script(&entry.leaf);
            b = match taproot_builder_add_leaf(b, entry.depth, &script) {
                Ok(nb) => nb,
                Err(_) => {
                    return Err(VaultError::TreeConstruction);
                },
            };
            proof {
                assert(leaves_model(leaves@.take(i + 1)) =~= leaves_model(
                    leaves@.take(i as int),
                ).push((entry.depth as int, leaf_script_spec(entry.leaf))));
            }
            i = i + 1;
        }
        assert(leaves@.take(leaves@.len() as int) =~= leaves@);
        let info = match taproot_builder_finalize(b, &key) {
            Ok(si) => si,
            Err(_) => {
                return Err(VaultError::TreeConstruction);
            },
        };
        Ok(TaprootTree { leaves, internal_key: *internal_key, info })
    }

    /// The scriptPubKey paying to this tree: segwit version 1 and the
    /// 32-byte tweaked output key.
    pub fn output_script_pubkey(&self) -> (r: Vec<u8>)
        requires
            self.wf(),
        ensures
            r@ == p2tr_script_pubkey(output_key_of(self.internal_key@, leaves_model(self.leaves@))),
    {
        let k = spend_info_output_key(&self.info);
        let mut s: Vec<u8> = Vec::new();
        s.push(0x51);
        s.push(0x20);
        crate::encoding::push_bytes(&mut s, k.as_slice());
        assert(s@ =~= p2tr_script_pubkey(output_key_of(self.internal_key@, leaves_model(
            self.leaves@,
        ))));
        s
    }

    /// The control block for one leaf: parity and internal key followed by
    /// the Merkle path of sibling hashes. Fails exactly when no leaf of the
    /// tree has the requested leaf's script.
    pub fn control_block(&self, leaf: &ScriptLeaf) -> (r: Result<Vec<u8>, VaultError>)
        requires
            self.wf(),
        ensures
            r is Ok <==> tree_has_script(self.leaves@, leaf_script_spec(*leaf)),
            r is Ok ==> r->Ok_0@ == control_block_of(
                self.internal_key@,
                leaves_model(self.leaves@),
                leaf_script_spec(*leaf),
            ),
            r is Err ==> r->Err_0 == VaultError::LeafNotFound,
    {
        let script = leaf_script(leaf);
        match spend_info_control_block(&self.info, &script) {
            Some(cb) => {
                proof {
                    let j = choose|j: int|
                        0 <= j < si_leaves(self.info).len() && (#[trigger] si_leaves(
                            self.info,
                        )[j]).1 == script@;
                    assert(leaf_script_spec(self.leaves@[j].leaf) == script@);
                }
                Ok(cb)
            },
            None => {
                proof {
                    if tree_has_script(self.leaves@, leaf_script_spec(*leaf)) {
                        let j = choose|j: int|
                            0 <= j < self.leaves@.len() && #[trigger] leaf_script_spec(
                                self.leaves@[j].leaf,
                            ) == script@;
                        assert((si_leaves(self.info)[j]).1 == script@);
                    }
                }
                Err(VaultError::LeafNotFound)
            },
        }
    }
}

/// The scriptPubKey of a Taproot (segwit v1) output with the given 32-byte
/// output key.
pub open spec fn p2tr_script_pubkey(output_key: Seq<u8>) -> Seq<u8> {
    seq![0x51u8, 0x20u8] + output_key
}

} // verus!
