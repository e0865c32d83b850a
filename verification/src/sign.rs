//! The hot-path signer: the BIP-341 script-spend sighash and a deterministic
//! BIP-340 Schnorr signature, both computed by the `bitcoin` crate behind
//! trusted wrappers, and the witness stack `[signature, script, control
//! block]` assembled and attached here.

use vstd::prelude::*;
use bitcoin::absolute::LockTime;
use bitcoin::hashes::Hash as HashOps;
use bitcoin::sighash::{Prevouts, SighashCache};
use bitcoin::transaction::Version;
use bitcoin::{Amount, OutPoint, ScriptBuf, Sequence, TapLeafHash, TapSighashType, Transaction, TxIn, TxOut, Txid};
use crate::assemble::{witness_model, TxTemplate};
use crate::commitment::TxOutput;
use crate::encoding::push_bytes;
use crate::script::{timelock_leaf_script, timelock_sig_script, ScriptLeaf};
use crate::tree::{control_block_of, leaves_model, tree_has_script, TaprootTree};
use crate::VaultError;

verus! {

/// The BIP-341 tagged hash of a TapScript leaf with the given script.
pub uninterp spec fn tapleaf_hash_of(script: Seq<u8>) -> Seq<u8>;

/// The BIP-341 script-spend signature hash (default sighash type, committing
/// to all previous outputs) of a version-2, locktime-0 transaction with the
/// given single input and single output, spending the given previous output
/// through the leaf with the given leaf hash. A pure function of its
/// arguments.
pub uninterp spec fn taproot_sighash_of(
    txid: Seq<u8>,
    vout: u32,
    sequence: u32,
    out_value: u64,
    out_spk: Seq<u8>,
    prev_value: u64,
    prev_spk: Seq<u8>,
    leaf_hash: Seq<u8>,
) -> Seq<u8>;

/// The deterministic (no auxiliary randomness) BIP-340 Schnorr signature of
/// a 32-byte message under a secret key. A pure function of its arguments.
pub uninterp spec fn schnorr_sig_of(msg: Seq<u8>, seckey: Seq<u8>) -> Seq<u8>;

/// Whether 32 bytes are a valid secp256k1 secret key (nonzero and below the
/// group order).
pub uninterp spec fn is_seckey(b: Seq<u8>) -> bool;

/// Relies on `bitcoin::TapLeafHash::from_script` with the TapScript leaf
/// version: a pure tagged hash of the script bytes.
#[verifier::external_body]
fn tapleaf_hash(script: &Vec<u8>) -> (r: [u8; 32])
    ensures
        r@ == tapleaf_hash_of(script@),
{
    let h = TapLeafHash::from_script(
        bitcoin::Script::from_bytes(script.as_slice()),
        bitcoin::taproot::LeafVersion::TapScript,
    );
    <TapLeafHash as HashOps>::to_byte_array(h)
}

/// Relies on `bitcoin::sighash::SighashCache::taproot_script_spend_signature_hash`
/// with `Prevouts::All` and the default sighash type, on a version-2,
/// locktime-0 transaction with one input and one output: with exactly one
/// previous output for the one input, its only failure check (the prevout
/// count) passes, and the hash is a pure function of the encoded fields.
#[verifier::external_body]
fn taproot_script_sighash(
    txid: &[u8; 32],
    vout: u32,
    sequence: u32,
    out_value: u64,
    out_spk: &Vec<u8>,
    prev_value: u64,
    prev_spk: &Vec<u8>,
    leaf_hash: &[u8; 32],
) -> (r: [u8; 32])
    ensures
        r@ == taproot_sighash_of(
            txid@,
            vout,
            sequence,
            out_value,
            out_spk@,
            prev_value,
            prev_spk@,
            leaf_hash@,
        ),
{
    let tx = Transaction {
        version: Version::TWO,
        lock_time: LockTime::ZERO,
        input: vec![TxIn { previous_output: OutPoint { txid: <Txid as HashOps>::from_byte_array(*txid), vout }, sequence: Sequence(sequence), ..Default::default() }],
        output: vec![TxOut { value: Amount::from_sat(out_value), script_pubkey: ScriptBuf::from_bytes(out_spk.clone()) }],
    };
    let prev = [TxOut { value: Amount::from_sat(prev_value), script_pubkey: ScriptBuf::from_bytes(prev_spk.clone()) }];
    let sighash = SighashCache::new(&tx)
        .taproot_script_spend_signature_hash(0, &Prevouts::All(&prev), <TapLeafHash as HashOps>::from_byte_array(*leaf_hash), TapSighashType::Default)
        .expect("one previous output is supplied for the one input");
    <bitcoin::TapSighash as HashOps>::to_byte_array(sighash)
}

/// Relies on `secp256k1::SecretKey::from_slice` (succeeds exactly on a valid
/// secret key) and `Secp256k1::sign_schnorr_no_aux_rand` (a deterministic
/// signature, the same for the same message and key on every run).
#[verifier::external_body]
fn schnorr_sign(msg: &[u8; 32], seckey: &[u8; 32]) -> (r: Result<[u8; 64], ()>)
    ensures
        r is Ok <==> is_seckey(seckey@),
        r is Ok ==> r->Ok_0@ == schnorr_sig_of(msg@, seckey@),
{
    let secp = bitcoin::secp256k1::Secp256k1::new();
    let sk = match bitcoin::secp256k1::SecretKey::from_slice(seckey) {
        Ok(k) => k,
        Err(_) => return Err(()),
    };
    let keypair = bitcoin::secp256k1::Keypair::from_secret_key(&secp, &sk);
    let msg = bitcoin::secp256k1::Message::from_digest(*msg);
    Ok(secp.sign_schnorr_no_aux_rand(&msg, &keypair).serialize())
}

/// The sighash a hot-spend signature commits to: the template's single input
/// and output, the spent output, and the leaf being executed.
pub open spec fn hot_spend_sighash(t: TxTemplate, prevout: TxOutput, leaf_script: Seq<u8>) -> Seq<
    u8,
> {
    taproot_sighash_of(
        t.input_txid@,
        t.input_vout,
        t.input_sequence,
        t.outputs@[0].value,
        t.outputs@[0].script_pubkey@,
        prevout.value,
        prevout.script_pubkey@,
        tapleaf_hash_of(leaf_script),
    )
}

/// Computes the Taproot script-path sighash of `template` over the full set
/// of previous outputs and signs it with a deterministic Schnorr signature.
/// Fails when the input index is out of range or the previous-output data is
/// incomplete (the template has exactly one input), or when the key is not a
/// valid secret key.
pub fn sign_hot_spend(
    template: &TxTemplate,
    input_index: usize,
    prevouts: &Vec<TxOutput>,
    leaf_script: &Vec<u8>,
    seckey: &[u8; 32],
) -> (r: Result<[u8; 64], VaultError>)
    requires
        template.wf(),
    ensures
        input_index != 0 || prevouts@.len() != 1 ==> r is Err && r->Err_0
            == VaultError::SighashComputation,
        input_index == 0 && prevouts@.len() == 1 && !is_seckey(seckey@) ==> r is Err && r->Err_0
            == VaultError::InvalidSigningKey,
        input_index == 0 && prevouts@.len() == 1 && is_seckey(seckey@) ==> r is Ok,
        r is Ok ==> r->Ok_0@ == schnorr_sig_of(
            hot_spend_sighash(*template, prevouts@[0], leaf_script@),
            seckey@,
        ),
{
    if input_index != 0 || prevouts.len() != 1 {
        return Err(VaultError::SighashComputation);
    }
    let leaf_hash = tapleaf_hash(leaf_script);
    let sighash = taproot_script_sighash(
        &template.input_txid,
        template.input_vout,
        template.input_sequence,
        template.outputs[0].value,
        &template.outputs[0].script_pubkey,
        prevouts[0].value,
        &prevouts[0].script_pubkey,
        &leaf_hash,
    );
    match schnorr_sign(&sighash, seckey) {
        Ok(sig) => Ok(sig),
        Err(_) => Err(VaultError::InvalidSigningKey),
    }
}

/// Signs the hot-spend template against the unvault tree and attaches the
/// witness stack `[signature, leaf script, control block]`. On any failure
/// the template is left unchanged.
pub fn finalize_hot_spend(
    template: &mut TxTemplate,
    tree: &TaprootTree,
    hot_pubkey: &[u8; 32],
    delay: u32,
    prevouts: &Vec<TxOutput>,
    seckey: &[u8; 32],
) -> (r: Result<(), VaultError>)
    requires
        old(template).wf(),
        tree.wf(),
    ensures
        r is Err ==> *final(template) == *old(template),
        prevouts@.len() != 1 ==> r is Err && r->Err_0 == VaultError::SighashComputation,
        prevouts@.len() == 1 && !is_seckey(seckey@) ==> r is Err && r->Err_0
            == VaultError::InvalidSigningKey,
        prevouts@.len() == 1 && is_seckey(seckey@) && !tree_has_script(
            tree.leaves@,
            timelock_leaf_script(hot_pubkey@, delay),
        ) ==> r is Err && r->Err_0 == VaultError::LeafNotFound,
        prevouts@.len() == 1 && is_seckey(seckey@) && tree_has_script(
            tree.leaves@,
            timelock_leaf_script(hot_pubkey@, delay),
        ) ==> r is Ok,
        r is Ok ==> final(template).wf()
            && final(template).version == old(template).version
            && final(template).lock_time == old(template).lock_time
            && final(template).input_txid == old(template).input_txid
            && final(template).input_vout == old(template).input_vout
            && final(template).input_sequence == old(template).input_sequence
            && final(template).outputs == old(template).outputs,
        r is Ok ==> witness_model(final(template).witness@) == seq![
            schnorr_sig_of(
                hot_spend_sighash(
                    *old(template),
                    prevouts@[0],
                    timelock_leaf_script(hot_pubkey@, delay),
                ),
                seckey@,
            ),
            timelock_leaf_script(hot_pubkey@, delay),
            control_block_of(
                tree.internal_key@,
                leaves_model(tree.leaves@),
                timelock_leaf_script(hot_pubkey@, delay),
            ),
        ],
{
    let script = timelock_sig_script(hot_pubkey, delay);
    let sig = match sign_hot_spend(template, 0, prevouts, &script, seckey) {
        Ok(s) => s,
        Err(e) => {
            return Err(e);
        },
    };
    let cb = match tree.control_block(&ScriptLeaf::TimelockSigLeaf {
        pubkey: *hot_pubkey,
        delay,
    }) {
        Ok(cb) => cb,
        Err(e) => {
            return Err(e);
        },
    };
    let mut sig_push: Vec<u8> = Vec::new();
    push_bytes(&mut sig_push, sig.as_slice());
    let mut witness: Vec<Vec<u8>> = Vec::new();
    witness.push(sig_push);
    witness.push(script);
    witness.push(cb);
    assert(witness_model(witness@) =~= seq![
        schnorr_sig_of(
            hot_spend_sighash(
                *old(template),
                prevouts@[0],
                timelock_leaf_script(hot_pubkey@, delay),
            ),
            seckey@,
        ),
        timelock_leaf_script(hot_pubkey@, delay),
        control_block_of(
            tree.internal_key@,
            leaves_model(tree.leaves@),
            timelock_leaf_script(hot_pubkey@, delay),
        ),
    ]);
    template.witness = witness;
    Ok(())
}

} // verus!
