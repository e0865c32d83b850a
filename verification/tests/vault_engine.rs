//! End-to-end checks of the construction engine against the `bitcoin` crate:
//! the commitment hash against a reference computation over consensus
//! serialization, the scripts against the script builder, the trees against
//! an independently finalized Taproot tree, and the signatures and control
//! blocks against real secp256k1 verification.

use bitcoin::consensus::Encodable;
use bitcoin::secp256k1::{Keypair, Message, Secp256k1, SecretKey, XOnlyPublicKey};
use bitcoin::{Amount, Network, ScriptBuf};

use ctv_vault::assemble::{assemble_ctv_spend, assemble_hot_spend};
use ctv_vault::commitment::{commit, TxOutput};
use ctv_vault::script::{ctv_script, timelock_sig_script, ScriptLeaf};
use ctv_vault::sign::{finalize_hot_spend, sign_hot_spend};
use ctv_vault::tree::{TaprootTree, TreeLeaf};
use ctv_vault::vault::{
    build_unvault, build_vault, HOP_FEE_SAT, HOT_SPEND_DELAY, SEQUENCE_FINAL,
    UNSPENDABLE_INTERNAL_KEY,
};
use ctv_vault::VaultError;

fn sha256(data: &[u8]) -> [u8; 32] {
    <bitcoin::hashes::sha256::Hash as bitcoin::hashes::Hash>::to_byte_array(
        <bitcoin::hashes::sha256::Hash as bitcoin::hashes::Hash>::hash(data),
    )
}

/// The CTV hash computed directly over the `bitcoin` crate's consensus
/// serialization, with no code shared with the library's encoder.
fn reference_ctv_hash(outputs: &[bitcoin::TxOut], sequence: u32) -> [u8; 32] {
    let mut buffer = Vec::new();
    buffer.extend(2_i32.to_le_bytes());
    buffer.extend(0_i32.to_le_bytes());
    buffer.extend(1_u32.to_le_bytes());
    buffer.extend(sha256(&sequence.to_le_bytes()));
    buffer.extend((outputs.len() as u32).to_le_bytes());
    let mut output_bytes: Vec<u8> = Vec::new();
    for o in outputs {
        o.consensus_encode(&mut output_bytes).unwrap();
    }
    buffer.extend(sha256(&output_bytes));
    buffer.extend(0_u32.to_le_bytes());
    sha256(&buffer)
}

fn test_pubkey(secret: &[u8; 32]) -> [u8; 32] {
    let secp = Secp256k1::new();
    let keypair = Keypair::from_secret_key(&secp, &SecretKey::from_slice(secret).unwrap());
    XOnlyPublicKey::from_keypair(&keypair).0.serialize()
}

fn sample_spk(tag: u8) -> Vec<u8> {
    // A plausible P2TR-shaped destination script.
    let mut spk = vec![0x51, 0x20];
    spk.extend([tag; 32]);
    spk
}

#[test]
fn commit_is_deterministic() {
    let outputs = vec![TxOutput { value: 99_999_580, script_pubkey: sample_spk(7) }];
    let a = commit(&outputs, SEQUENCE_FINAL);
    let b = commit(&outputs, SEQUENCE_FINAL);
    assert_eq!(a, b);
}

#[test]
fn commit_matches_consensus_serialization() {
    for (value, tag, sequence) in [
        (99_999_580_u64, 7_u8, SEQUENCE_FINAL),
        (1_u64, 0_u8, SEQUENCE_FINAL),
        (21_000_000_0000_0000_u64, 0xFF, 100_u32),
        (840_u64, 3_u8, 0_u32),
    ] {
        let spk = sample_spk(tag);
        let ours = commit(&vec![TxOutput { value, script_pubkey: spk.clone() }], sequence);
        let reference = reference_ctv_hash(
            &[bitcoin::TxOut {
                value: Amount::from_sat(value),
                script_pubkey: ScriptBuf::from_bytes(spk),
            }],
            sequence,
        );
        assert_eq!(ours, reference);
    }
}

#[test]
fn commit_matches_for_long_scripts_and_many_outputs() {
    // A script long enough for the two-byte compact-size form, and several
    // outputs in one set.
    let long_script: Vec<u8> = (0..300_u32).map(|i| (i % 251) as u8).collect();
    let outputs = vec![
        TxOutput { value: 1_000, script_pubkey: long_script.clone() },
        TxOutput { value: 2_000, script_pubkey: sample_spk(8) },
        TxOutput { value: 3_000, script_pubkey: Vec::new() },
    ];
    let ours = commit(&outputs, SEQUENCE_FINAL);
    let reference = reference_ctv_hash(
        &[
            bitcoin::TxOut {
                value: Amount::from_sat(1_000),
                script_pubkey: ScriptBuf::from_bytes(long_script),
            },
            bitcoin::TxOut {
                value: Amount::from_sat(2_000),
                script_pubkey: ScriptBuf::from_bytes(sample_spk(8)),
            },
            bitcoin::TxOut {
                value: Amount::from_sat(3_000),
                script_pubkey: ScriptBuf::new(),
            },
        ],
        SEQUENCE_FINAL,
    );
    assert_eq!(ours, reference);
}

#[test]
fn commit_is_sensitive_to_every_field() {
    let base = commit(
        &vec![TxOutput { value: 50_000, script_pubkey: sample_spk(1) }],
        SEQUENCE_FINAL,
    );
    let amount_changed = commit(
        &vec![TxOutput { value: 50_001, script_pubkey: sample_spk(1) }],
        SEQUENCE_FINAL,
    );
    let script_changed = commit(
        &vec![TxOutput { value: 50_000, script_pubkey: sample_spk(2) }],
        SEQUENCE_FINAL,
    );
    let sequence_changed = commit(
        &vec![TxOutput { value: 50_000, script_pubkey: sample_spk(1) }],
        HOT_SPEND_DELAY,
    );
    let corpus = [base, amount_changed, script_changed, sequence_changed];
    for i in 0..corpus.len() {
        for j in 0..corpus.len() {
            if i != j {
                assert_ne!(corpus[i], corpus[j]);
            }
        }
    }
}

#[test]
fn ctv_script_matches_script_builder() {
    let commitment = [0xAB_u8; 32];
    let ours = ctv_script(&commitment);
    let reference = bitcoin::script::Builder::new()
        .push_slice(commitment)
        .push_opcode(bitcoin::opcodes::all::OP_NOP4)
        .push_opcode(bitcoin::opcodes::all::OP_DROP)
        .into_script();
    assert_eq!(ours, reference.into_bytes());
}

#[test]
fn timelock_script_matches_script_builder() {
    let pubkey_bytes = test_pubkey(&[0xAA; 32]);
    let pubkey = XOnlyPublicKey::from_slice(&pubkey_bytes).unwrap();
    for delay in [
        0_u32, 1, 2, 15, 16, 17, 100, 127, 128, 255, 256, 0x8000, 520_000, 0x7FFF_FFFF,
        u32::MAX,
    ] {
        let ours = timelock_sig_script(&pubkey_bytes, delay);
        let reference = bitcoin::script::Builder::new()
            .push_int(delay as i64)
            .push_opcode(bitcoin::opcodes::all::OP_CSV)
            .push_opcode(bitcoin::opcodes::all::OP_DROP)
            .push_x_only_key(&pubkey)
            .push_opcode(bitcoin::opcodes::all::OP_CHECKSIG)
            .into_script();
        assert_eq!(ours, reference.into_bytes(), "delay {delay}");
    }
}

#[test]
fn vault_output_key_matches_reference_tree() {
    let secp = Secp256k1::new();
    let amount = 100_000_000_u64;
    let unvault_spk = sample_spk(9);
    let (_tree, vault_spk) = build_vault(amount, &unvault_spk).unwrap();

    let committed_output = bitcoin::TxOut {
        value: Amount::from_sat(amount - HOP_FEE_SAT),
        script_pubkey: ScriptBuf::from_bytes(unvault_spk),
    };
    let leaf_script = bitcoin::script::Builder::new()
        .push_slice(reference_ctv_hash(&[committed_output], SEQUENCE_FINAL))
        .push_opcode(bitcoin::opcodes::all::OP_NOP4)
        .push_opcode(bitcoin::opcodes::all::OP_DROP)
        .into_script();
    let internal = XOnlyPublicKey::from_slice(&UNSPENDABLE_INTERNAL_KEY).unwrap();
    let info = bitcoin::taproot::TaprootBuilder::new()
        .add_leaf(0, leaf_script)
        .unwrap()
        .finalize(&secp, internal)
        .unwrap();
    let reference_spk =
        bitcoin::Address::p2tr_tweaked(info.output_key(), Network::Regtest).script_pubkey();
    assert_eq!(vault_spk, reference_spk.into_bytes());
}

#[test]
fn control_blocks_verify_against_output_key() {
    let secp = Secp256k1::new();
    let amount = 100_000_000_u64;
    let cold_spk = sample_spk(4);
    let hot_pubkey = test_pubkey(&[0xAA; 32]);
    let (tree, unvault_spk) = build_unvault(&hot_pubkey, amount, &cold_spk).unwrap();
    let output_key = XOnlyPublicKey::from_slice(&unvault_spk[2..]).unwrap();

    let cold_commitment = commit(
        &vec![TxOutput { value: amount - 2 * HOP_FEE_SAT, script_pubkey: cold_spk }],
        SEQUENCE_FINAL,
    );
    let leaves = [
        ScriptLeaf::CtvLeaf { commitment: cold_commitment },
        ScriptLeaf::TimelockSigLeaf { pubkey: hot_pubkey, delay: HOT_SPEND_DELAY },
    ];
    for leaf in leaves {
        let cb_bytes = tree.control_block(&leaf).unwrap();
        let cb = bitcoin::taproot::ControlBlock::decode(&cb_bytes).unwrap();
        let script_bytes = match leaf {
            ScriptLeaf::CtvLeaf { commitment } => ctv_script(&commitment),
            ScriptLeaf::TimelockSigLeaf { pubkey, delay } => timelock_sig_script(&pubkey, delay),
        };
        let script = ScriptBuf::from_bytes(script_bytes);
        assert!(cb.verify_taproot_commitment(&secp, output_key, &script));
    }
}

#[test]
fn control_block_for_absent_leaf_fails() {
    let amount = 100_000_000_u64;
    let (tree, _spk) = build_vault(amount, &sample_spk(9)).unwrap();
    let absent = ScriptLeaf::TimelockSigLeaf { pubkey: [1; 32], delay: 7 };
    assert_eq!(tree.control_block(&absent).unwrap_err(), VaultError::LeafNotFound);
}

#[test]
fn tree_construction_errors() {
    assert_eq!(
        TaprootTree::build(Vec::new(), &UNSPENDABLE_INTERNAL_KEY).unwrap_err(),
        VaultError::TreeConstruction
    );
    // A single leaf at non-zero depth never completes the tree.
    let dangling = vec![TreeLeaf { depth: 1, leaf: ScriptLeaf::CtvLeaf { commitment: [9; 32] } }];
    assert_eq!(
        TaprootTree::build(dangling, &UNSPENDABLE_INTERNAL_KEY).unwrap_err(),
        VaultError::TreeConstruction
    );
}

#[test]
fn ctv_spend_round_trip_passes_validation() {
    let amount = 100_000_000_u64;
    let unvault_spk = sample_spk(9);
    let (tree, _vault_spk) = build_vault(amount, &unvault_spk).unwrap();
    let template =
        assemble_ctv_spend(&[0x11; 32], 0, amount - HOP_FEE_SAT, &tree, &unvault_spk).unwrap();
    assert_eq!(template.version, 2);
    assert_eq!(template.lock_time, 0);
    assert_eq!(template.input_sequence, SEQUENCE_FINAL);
    assert_eq!(template.outputs.len(), 1);
    assert_eq!(template.outputs[0].value, amount - HOP_FEE_SAT);
    assert_eq!(template.outputs[0].script_pubkey, unvault_spk);
    // Witness: commitment push, CTV leaf script, control block.
    assert_eq!(template.witness.len(), 3);
    let c = commit(
        &vec![TxOutput { value: amount - HOP_FEE_SAT, script_pubkey: unvault_spk }],
        SEQUENCE_FINAL,
    );
    assert_eq!(template.witness[0], c.to_vec());
    assert_eq!(template.witness[1], ctv_script(&c));
    assert_eq!(template.witness[2], tree.control_block(&ScriptLeaf::CtvLeaf {
        commitment: c,
    }).unwrap());
}

#[test]
fn ctv_spend_to_wrong_destination_is_rejected() {
    let amount = 100_000_000_u64;
    let committed_spk = sample_spk(9);
    let thief_spk = sample_spk(66);
    let (tree, _vault_spk) = build_vault(amount, &committed_spk).unwrap();
    let err = assemble_ctv_spend(&[0x11; 32], 0, amount - HOP_FEE_SAT, &tree, &thief_spk)
        .unwrap_err();
    assert_eq!(err, VaultError::CommitmentMismatch);
    // A wrong amount is a different output set too.
    let err = assemble_ctv_spend(&[0x11; 32], 0, amount, &tree, &committed_spk).unwrap_err();
    assert_eq!(err, VaultError::CommitmentMismatch);
}

#[test]
fn ctv_spend_without_ctv_leaf_is_rejected() {
    let hot_pubkey = test_pubkey(&[0xAA; 32]);
    let only_hot = vec![TreeLeaf {
        depth: 0,
        leaf: ScriptLeaf::TimelockSigLeaf { pubkey: hot_pubkey, delay: HOT_SPEND_DELAY },
    }];
    let tree = TaprootTree::build(only_hot, &UNSPENDABLE_INTERNAL_KEY).unwrap();
    let err = assemble_ctv_spend(&[0x11; 32], 0, 50_000, &tree, &sample_spk(9)).unwrap_err();
    assert_eq!(err, VaultError::NoMatchingLeaf);
}

#[test]
fn hot_spend_template_carries_the_delay() {
    let amount = 99_999_580_u64;
    let hot_spk = sample_spk(5);
    let template = assemble_hot_spend(&[0x22; 32], 0, amount, &hot_spk, HOT_SPEND_DELAY);
    assert_eq!(template.version, 2);
    assert_eq!(template.lock_time, 0);
    assert_eq!(template.input_sequence, HOT_SPEND_DELAY);
    assert_eq!(template.outputs.len(), 1);
    assert_eq!(template.outputs[0].value, amount - HOP_FEE_SAT);
    assert_eq!(template.outputs[0].script_pubkey, hot_spk);
    assert!(template.witness.is_empty());
}

#[test]
fn two_stage_sweep_amounts() {
    let amount = 100_000_000_u64;
    let cold_spk = sample_spk(4);
    let hot_pubkey = test_pubkey(&[0xAA; 32]);
    let (unvault_tree, unvault_spk) = build_unvault(&hot_pubkey, amount, &cold_spk).unwrap();
    let (vault_tree, _vault_spk) = build_vault(amount, &unvault_spk).unwrap();

    let vault_spend =
        assemble_ctv_spend(&[0x11; 32], 0, amount - HOP_FEE_SAT, &vault_tree, &unvault_spk)
            .unwrap();
    assert_eq!(vault_spend.outputs[0].value, amount - HOP_FEE_SAT);

    let cold_sweep =
        assemble_ctv_spend(&[0x33; 32], 0, amount - 2 * HOP_FEE_SAT, &unvault_tree, &cold_spk)
            .unwrap();
    assert_eq!(cold_sweep.outputs[0].value, amount - 2 * HOP_FEE_SAT);
    assert_eq!(cold_sweep.outputs[0].value, 100_000_000 - 840);
}

#[test]
fn hot_spend_signature_verifies() {
    let secp = Secp256k1::new();
    let secret = [0xAA_u8; 32];
    let hot_pubkey = test_pubkey(&secret);
    let amount = 100_000_000_u64;
    let cold_spk = sample_spk(4);
    let hot_spk = sample_spk(5);
    let (tree, unvault_spk) = build_unvault(&hot_pubkey, amount, &cold_spk).unwrap();

    let unvault_value = amount - HOP_FEE_SAT;
    let mut template =
        assemble_hot_spend(&[0x33; 32], 0, unvault_value, &hot_spk, HOT_SPEND_DELAY);
    let prevouts =
        vec![TxOutput { value: unvault_value, script_pubkey: unvault_spk.clone() }];
    finalize_hot_spend(&mut template, &tree, &hot_pubkey, HOT_SPEND_DELAY, &prevouts, &secret)
        .unwrap();

    assert_eq!(template.witness.len(), 3);
    let sig = &template.witness[0];
    let script_bytes = &template.witness[1];
    let cb_bytes = &template.witness[2];
    assert_eq!(sig.len(), 64);
    assert_eq!(*script_bytes, timelock_sig_script(&hot_pubkey, HOT_SPEND_DELAY));

    // Recompute the sighash independently with the bitcoin crate.
    let tx = bitcoin::Transaction {
        version: bitcoin::transaction::Version::TWO,
        lock_time: bitcoin::absolute::LockTime::ZERO,
        input: vec![bitcoin::TxIn {
            previous_output: bitcoin::OutPoint {
                txid: <bitcoin::Txid as bitcoin::hashes::Hash>::from_byte_array([0x33; 32]),
                vout: 0,
            },
            sequence: bitcoin::Sequence(HOT_SPEND_DELAY),
            ..Default::default()
        }],
        output: vec![bitcoin::TxOut {
            value: Amount::from_sat(unvault_value - HOP_FEE_SAT),
            script_pubkey: ScriptBuf::from_bytes(hot_spk),
        }],
    };
    let prev = [bitcoin::TxOut {
        value: Amount::from_sat(unvault_value),
        script_pubkey: ScriptBuf::from_bytes(unvault_spk.clone()),
    }];
    let script = ScriptBuf::from_bytes(script_bytes.clone());
    let sighash = bitcoin::sighash::SighashCache::new(&tx)
        .taproot_script_spend_signature_hash(
            0,
            &bitcoin::sighash::Prevouts::All(&prev),
            bitcoin::TapLeafHash::from_script(&script, bitcoin::taproot::LeafVersion::TapScript),
            bitcoin::TapSighashType::Default,
        )
        .unwrap();
    let msg = Message::from_digest(
        <bitcoin::TapSighash as bitcoin::hashes::Hash>::to_byte_array(sighash),
    );
    let signature = bitcoin::secp256k1::schnorr::Signature::from_slice(sig).unwrap();
    let pubkey = XOnlyPublicKey::from_slice(&hot_pubkey).unwrap();
    assert!(secp.verify_schnorr(&signature, &msg, &pubkey).is_ok());

    // And the control block proves the hot leaf against the unvault key.
    let cb = bitcoin::taproot::ControlBlock::decode(cb_bytes).unwrap();
    let output_key = XOnlyPublicKey::from_slice(&unvault_spk[2..]).unwrap();
    assert!(cb.verify_taproot_commitment(&secp, output_key, &script));
}

#[test]
fn signing_errors() {
    let amount = 99_999_580_u64;
    let hot_spk = sample_spk(5);
    let template = assemble_hot_spend(&[0x22; 32], 0, amount, &hot_spk, HOT_SPEND_DELAY);
    let prevouts = vec![TxOutput { value: amount, script_pubkey: sample_spk(9) }];
    let leaf_script = timelock_sig_script(&test_pubkey(&[0xAA; 32]), HOT_SPEND_DELAY);

    // Out-of-range input index: the template has exactly one input.
    let err = sign_hot_spend(&template, 1, &prevouts, &leaf_script, &[0xAA; 32]).unwrap_err();
    assert_eq!(err, VaultError::SighashComputation);

    // Incomplete previous-output data: one prevout per input is needed.
    let empty: Vec<TxOutput> = Vec::new();
    let err = sign_hot_spend(&template, 0, &empty, &leaf_script, &[0xAA; 32]).unwrap_err();
    assert_eq!(err, VaultError::SighashComputation);

    // An all-zero key is not a valid secret key.
    let err = sign_hot_spend(&template, 0, &prevouts, &leaf_script, &[0; 32]).unwrap_err();
    assert_eq!(err, VaultError::InvalidSigningKey);
}
