//! The CTV template commitment: a single SHA-256 over the fixed template
//! fields of the spending transaction (version 2, locktime 0, one input) and
//! the hashes of its sequence field and serialized outputs.

use vstd::prelude::*;
use crate::encoding::{
    encode_output, encode_outputs, le32, lemma_encode_outputs_push, push_bytes,
    push_compact_size, push_le32, push_le64,
};
use crate::hashing::{sha256, sha256_of};

verus! {

/// One transaction output: an amount in satoshis and the destination script.
#[derive(Debug)]
pub struct TxOutput {
    /// Amount in satoshis.
    pub value: u64,
    /// The scriptPubKey the amount is paid to.
    pub script_pubkey: Vec<u8>,
}

/// The mathematical value of one output: its amount and script bytes.
pub open spec fn output_model(o: TxOutput) -> (u64, Seq<u8>) {
    (o.value, o.script_pubkey@)
}

/// The mathematical value of an output list.
pub open spec fn outputs_model(s: Seq<TxOutput>) -> Seq<(u64, Seq<u8>)> {
    s.map_values(|o: TxOutput| output_model(o))
}

/// The byte string the commitment hash is computed over: little-endian
/// version (2), locktime (0), input count (1), the SHA-256 of the 4-byte
/// sequence, the output count, the SHA-256 of the serialized outputs, and
/// the input index (0).
pub open spec fn ctv_preimage(outs: Seq<(u64, Seq<u8>)>, sequence: u32) -> Seq<u8> {
    le32(2) + le32(0) + le32(1) + sha256_of(le32(sequence)) + le32(outs.len() as u32)
        + sha256_of(encode_outputs(outs)) + le32(0)
}

/// The 32-byte CTV commitment: a single (not double) SHA-256 of the preimage.
pub open spec fn ctv_commitment(outs: Seq<(u64, Seq<u8>)>, sequence: u32) -> Seq<u8> {
    sha256_of(ctv_preimage(outs, sequence))
}

/// Computes the CTV commitment for an output set and an input sequence.
pub fn commit(outputs: &Vec<TxOutput>, sequence: u32) -> (r: [u8; 32])
    requires
        outputs@.len() < 0x1_0000_0000,
    ensures
        r@ == ctv_commitment(outputs_model(outputs@), sequence),
{
    let mut seq_bytes: Vec<u8> = Vec::new();
    push_le32(&mut seq_bytes, sequence);
    assert(seq_bytes@ =~= le32(sequence));
    let seq_hash = sha256(&seq_bytes);

    let mut outs_bytes: Vec<u8> = Vec::new();
    assert(outs_bytes@ =~= encode_outputs(outputs_model(outputs@).take(0)));
    let mut i: usize = 0;
    while i < outputs.len()
        invariant
            i <= outputs@.len(),
            outs_bytes@ == encode_outputs(outputs_model(outputs@).take(i as int)),
        decreases outputs@.len() - i,
    {
        let ghost prefix = outs_bytes@;
        let value: u64 = outputs[i].value;
        push_le64(&mut outs_bytes, value);
        push_compact_size(&mut outs_bytes, outputs[i].script_pubkey.len());
        push_bytes(&mut outs_bytes, outputs[i].script_pubkey.as_slice());
        proof {
            let m = outputs_model(outputs@);
            let o = output_model(outputs@[i as int]);
            assert(outs_bytes@ =~= prefix + encode_output(o.0, o.1));
            lemma_encode_outputs_push(m.take(i as int), o);
            assert(m.take(i + 1) =~= m.take(i as int).push(o));
        }
        i = i + 1;
    }
    assert(outputs_model(outputs@).take(outputs@.len() as int) =~= outputs_model(outputs@));
    let outs_hash = sha256(&outs_bytes);

    let mut buf: Vec<u8> = Vec::new();
    push_le32(&mut buf, 2);
    push_le32(&mut buf, 0);
    push_le32(&mut buf, 1);
    push_bytes(&mut buf, seq_hash.as_slice());
    push_le32(&mut buf, outputs.len() as u32);
    push_bytes(&mut buf, outs_hash.as_slice());
    push_le32(&mut buf, 0);
    assert(buf@ =~= ctv_preimage(outputs_model(outputs@), sequence));
    sha256(&buf)
}

/// Sensitivity of the commitment, as far as it is a property of this code
/// rather than of SHA-256: the byte strings handed to the hash are injective
/// in the data. Changing a single output's amount or destination script
/// changes the serialized output list, and changing the sequence value
/// changes the hashed sequence bytes. That distinct hash inputs give
/// distinct commitments is collision resistance of SHA-256 itself, which no
/// property of the abstract digest can state.
pub proof fn lemma_commitment_input_sensitivity(
    v1: u64,
    s1: Seq<u8>,
    q1: u32,
    v2: u64,
    s2: Seq<u8>,
    q2: u32,
)
    requires
        s1.len() < 0x1_0000_0000_0000_0000,
        s2.len() < 0x1_0000_0000_0000_0000,
    ensures
        v1 != v2 || s1 != s2 ==> encode_outputs(seq![(v1, s1)]) != encode_outputs(
            seq![(v2, s2)],
        ),
        q1 != q2 ==> le32(q1) != le32(q2),
{
    let o1: Seq<(u64, Seq<u8>)> = seq![(v1, s1)];
    let o2: Seq<(u64, Seq<u8>)> = seq![(v2, s2)];
    assert(o1.drop_first() =~= Seq::<(u64, Seq<u8>)>::empty());
    assert(o2.drop_first() =~= Seq::<(u64, Seq<u8>)>::empty());
    Seq::add_empty_right(encode_output(v1, s1), encode_outputs(o1.drop_first()));
    Seq::add_empty_right(encode_output(v2, s2), encode_outputs(o2.drop_first()));
    if encode_outputs(o1) == encode_outputs(o2) {
        crate::encoding::lemma_encode_output_injective(v1, s1, v2, s2);
    }
    if le32(q1) == le32(q2) {
        crate::encoding::lemma_le32_injective(q1, q2);
    }
}

/// Determinism of the commitment: it is a function of the output set and the
/// sequence value alone, so equal inputs always give equal commitments, in
/// any call and in any process.
pub proof fn lemma_commit_deterministic(
    outs1: Seq<(u64, Seq<u8>)>,
    seq1: u32,
    outs2: Seq<(u64, Seq<u8>)>,
    seq2: u32,
)
    requires
        outs1 == outs2,
        seq1 == seq2,
    ensures
        ctv_commitment(outs1, seq1) == ctv_commitment(outs2, seq2),
{
}

} // verus!
