//! Little-endian integer serialization, compact-size length prefixes, and the
//! consensus serialization of a transaction output. These byte layouts are
//! what the CTV commitment hash is computed over.

use vstd::prelude::*;

verus! {

/// The two bytes of `v`, least significant first.
pub open spec fn le16(v: u16) -> Seq<u8> {
    seq![(v % 256) as u8, ((v / 256) % 256) as u8]
}

/// The four bytes of `v`, least significant first.
pub open spec fn le32(v: u32) -> Seq<u8> {
    seq![
        (v % 256) as u8,
        ((v / 256) % 256) as u8,
        ((v / 0x10000) % 256) as u8,
        ((v / 0x1000000) % 256) as u8,
    ]
}

/// The eight bytes of `v`, least significant first.
pub open spec fn le64(v: u64) -> Seq<u8> {
    seq![
        (v % 256) as u8,
        ((v / 256) % 256) as u8,
        ((v / 0x10000) % 256) as u8,
        ((v / 0x1000000) % 256) as u8,
        ((v / 0x1_0000_0000) % 256) as u8,
        ((v / 0x100_0000_0000) % 256) as u8,
        ((v / 0x1_0000_0000_0000) % 256) as u8,
        ((v / 0x100_0000_0000_0000) % 256) as u8,
    ]
}

/// Bitcoin's variable-length integer: the length prefix placed before a
/// script in the consensus serialization of an output.
pub open spec fn compact_size(n: nat) -> Seq<u8> {
    if n < 0xFD {
        seq![n as u8]
    } else if n <= 0xFFFF {
        seq![0xFDu8] + le16(n as u16)
    } else if n <= 0xFFFF_FFFF {
        seq![0xFEu8] + le32(n as u32)
    } else {
        seq![0xFFu8] + le64(n as u64)
    }
}

/// Consensus serialization of one transaction output: the 8-byte
/// little-endian amount, then the length-prefixed destination script.
pub open spec fn encode_output(value: u64, script_pubkey: Seq<u8>) -> Seq<u8> {
    le64(value) + compact_size(script_pubkey.len()) + script_pubkey
}

/// Concatenated consensus serialization of a whole output list.
pub open spec fn encode_outputs(outs: Seq<(u64, Seq<u8>)>) -> Seq<u8>
    decreases outs.len(),
{
    if outs.len() == 0 {
        Seq::empty()
    } else {
        encode_output(outs[0].0, outs[0].1) + encode_outputs(outs.drop_first())
    }
}

/// Appending one output to the list appends its encoding to the byte string.
pub proof fn lemma_encode_outputs_push(outs: Seq<(u64, Seq<u8>)>, o: (u64, Seq<u8>))
    ensures
        encode_outputs(outs.push(o)) == encode_outputs(outs) + encode_output(o.0, o.1),
    decreases outs.len(),
{
    let p = outs.push(o);
    if outs.len() == 0 {
        assert(p.drop_first() =~= Seq::<(u64, Seq<u8>)>::empty());
        assert(p[0] == o);
        Seq::add_empty_right(encode_output(o.0, o.1), encode_outputs(p.drop_first()));
        Seq::add_empty_left(encode_outputs(outs), encode_output(o.0, o.1));
    } else {
        assert(p.drop_first() =~= outs.drop_first().push(o));
        assert(p[0] == outs[0]);
        lemma_encode_outputs_push(outs.drop_first(), o);
        vstd::seq_lib::lemma_concat_associative(
            encode_output(outs[0].0, outs[0].1),
            encode_outputs(outs.drop_first()),
            encode_output(o.0, o.1),
        );
    }
}

/// Appends the two little-endian bytes of `v` to `dst`.
pub fn push_le16(dst: &mut Vec<u8>, v: u16)
    ensures
        final(dst)@ == old(dst)@ + le16(v),
{
    dst.push((v % 256) as u8);
    dst.push(((v / 256) % 256) as u8);
    assert(dst@ =~= old(dst)@ + le16(v));
}

/// Appends the four little-endian bytes of `v` to `dst`.
pub fn push_le32(dst: &mut Vec<u8>, v: u32)
    ensures
        final(dst)@ == old(dst)@ + le32(v),
{
    dst.push((v % 256) as u8);
    dst.push(((v / 256) % 256) as u8);
    dst.push(((v / 0x10000) % 256) as u8);
    dst.push(((v / 0x1000000) % 256) as u8);
    assert(dst@ =~= old(dst)@ + le32(v));
}

/// Appends the eight little-endian bytes of `v` to `dst`.
pub fn push_le64(dst: &mut Vec<u8>, v: u64)
    ensures
        final(dst)@ == old(dst)@ + le64(v),
{
    dst.push((v % 256) as u8);
    dst.push(((v / 256) % 256) as u8);
    dst.push(((v / 0x10000) % 256) as u8);
    dst.push(((v / 0x1000000) % 256) as u8);
    dst.push(((v / 0x1_0000_0000) % 256) as u8);
    dst.push(((v / 0x100_0000_0000) % 256) as u8);
    dst.push(((v / 0x1_0000_0000_0000) % 256) as u8);
    dst.push(((v / 0x100_0000_0000_0000) % 256) as u8);
    assert(dst@ =~= old(dst)@ + le64(v));
}

/// Appends the compact-size encoding of `n` to `dst`.
pub fn push_compact_size(dst: &mut Vec<u8>, n: usize)
    ensures
        final(dst)@ == old(dst)@ + compact_size(n as nat),
{
    if n < 0xFD {
        dst.push(n as u8);
        assert(dst@ =~= old(dst)@ + compact_size(n as nat));
    } else if n <= 0xFFFF {
        dst.push(0xFD);
        push_le16(dst, n as u16);
        assert(dst@ =~= old(dst)@ + compact_size(n as nat));
    } else if n <= 0xFFFF_FFFF {
        dst.push(0xFE);
        push_le32(dst, n as u32);
        assert(dst@ =~= old(dst)@ + compact_size(n as nat));
    } else {
        dst.push(0xFF);
        push_le64(dst, n as u64);
        assert(dst@ =~= old(dst)@ + compact_size(n as nat));
    }
}

/// The two little-endian bytes determine the 16-bit value.
pub proof fn lemma_le16_injective(a: u16, b: u16)
    requires
        le16(a) == le16(b),
    ensures
        a == b,
{
    assert(le16(a)[0] == le16(b)[0]);
    assert(le16(a)[1] == le16(b)[1]);
    assert(a % 256 == b % 256 && (a / 256) % 256 == (b / 256) % 256 ==> a == b) by (bit_vector);
}

/// The four little-endian bytes determine the 32-bit value.
pub proof fn lemma_le32_injective(a: u32, b: u32)
    requires
        le32(a) == le32(b),
    ensures
        a == b,
{
    assert(forall|k: int| 0 <= k < 4 ==> le32(a)[k] == le32(b)[k]);
    assert(a % 256 == b % 256 && (a / 256) % 256 == (b / 256) % 256 && (a / 0x10000) % 256 == (b
        / 0x10000) % 256 && (a / 0x1000000) % 256 == (b / 0x1000000) % 256 ==> a == b)
        by (bit_vector);
}

/// The eight little-endian bytes determine the 64-bit value.
pub proof fn lemma_le64_injective(a: u64, b: u64)
    requires
        le64(a) == le64(b),
    ensures
        a == b,
{
    assert(forall|k: int| 0 <= k < 8 ==> le64(a)[k] == le64(b)[k]);
    assert(a % 256 == b % 256 && (a / 256) % 256 == (b / 256) % 256 && (a / 0x10000) % 256 == (b
        / 0x10000) % 256 && (a / 0x1000000) % 256 == (b / 0x1000000) % 256 && (a / 0x1_0000_0000)
        % 256 == (b / 0x1_0000_0000) % 256 && (a / 0x100_0000_0000) % 256 == (b / 0x100_0000_0000)
        % 256 && (a / 0x1_0000_0000_0000) % 256 == (b / 0x1_0000_0000_0000) % 256 && (a
        / 0x100_0000_0000_0000) % 256 == (b / 0x100_0000_0000_0000) % 256 ==> a == b)
        by (bit_vector);
}

/// A length-prefixed byte string determines the bytes: the compact-size
/// prefix fixes the length (its first byte fixes the prefix form), and with
/// equal lengths the payloads coincide.
/// The compact-size prefix of a longer byte string fixes the encoded
/// number: the first byte fixes the prefix form, and within one form the
/// little-endian length bytes are injective.
#[verifier::spinoff_prover]
#[verifier::rlimit(100)]
proof fn lemma_compact_size_prefix_fixes_len(n1: nat, n2: nat, r1: Seq<u8>, r2: Seq<u8>)
    requires
        compact_size(n1) + r1 == compact_size(n2) + r2,
        n1 < 0x1_0000_0000_0000_0000,
        n2 < 0x1_0000_0000_0000_0000,
    ensures
        n1 == n2,
{
    let t = compact_size(n1) + r1;
    let c1 = compact_size(n1);
    let c2 = compact_size(n2);
    assert(t[0] == c1[0] && t[0] == c2[0]);
    if n1 < 0xFD {
        assert(c1[0] == n1 as u8 && c1[0] < 0xFD);
        assert(n2 < 0xFD);
        assert(c2[0] == n2 as u8);
    } else if n1 <= 0xFFFF {
        assert(c1[0] == 0xFD);
        assert(n2 >= 0xFD && n2 <= 0xFFFF);
        assert(le16(n1 as u16) =~= Seq::new(2, |k: int| t[1 + k]));
        assert(le16(n2 as u16) =~= Seq::new(2, |k: int| t[1 + k]));
        lemma_le16_injective(n1 as u16, n2 as u16);
    } else if n1 <= 0xFFFF_FFFF {
        assert(c1[0] == 0xFE);
        assert(n2 > 0xFFFF && n2 <= 0xFFFF_FFFF);
        assert(le32(n1 as u32) =~= Seq::new(4, |k: int| t[1 + k]));
        assert(le32(n2 as u32) =~= Seq::new(4, |k: int| t[1 + k]));
        lemma_le32_injective(n1 as u32, n2 as u32);
    } else {
        assert(c1[0] == 0xFF);
        assert(n2 > 0xFFFF_FFFF);
        assert(le64(n1 as u64) =~= Seq::new(8, |k: int| t[1 + k]));
        assert(le64(n2 as u64) =~= Seq::new(8, |k: int| t[1 + k]));
        lemma_le64_injective(n1 as u64, n2 as u64);
    }
}

/// A length-prefixed byte string determines the bytes: the compact-size
/// prefix fixes the length, and with an equal prefix the payloads coincide.
pub proof fn lemma_length_prefixed_injective(s1: Seq<u8>, s2: Seq<u8>)
    requires
        compact_size(s1.len()) + s1 == compact_size(s2.len()) + s2,
        s1.len() < 0x1_0000_0000_0000_0000,
        s2.len() < 0x1_0000_0000_0000_0000,
    ensures
        s1 == s2,
{
    lemma_compact_size_prefix_fixes_len(s1.len(), s2.len(), s1, s2);
    compact_size(s1.len()).lemma_concat_injective(s1, s2);
}

/// The serialization of one output determines its amount and script.
pub proof fn lemma_encode_output_injective(v1: u64, s1: Seq<u8>, v2: u64, s2: Seq<u8>)
    requires
        encode_output(v1, s1) == encode_output(v2, s2),
        s1.len() < 0x1_0000_0000_0000_0000,
        s2.len() < 0x1_0000_0000_0000_0000,
    ensures
        v1 == v2,
        s1 == s2,
{
    let e = encode_output(v1, s1);
    assert(le64(v1) =~= Seq::new(8, |k: int| e[k]));
    assert(le64(v2) =~= Seq::new(8, |k: int| e[k]));
    lemma_le64_injective(v1, v2);
    assert(compact_size(s1.len()) + s1 =~= Seq::new((e.len() - 8) as nat, |k: int| e[8 + k]));
    assert(compact_size(s2.len()) + s2 =~= Seq::new((e.len() - 8) as nat, |k: int| e[8 + k]));
    lemma_length_prefixed_injective(s1, s2);
}

/// Whether two 32-byte strings are equal.
pub fn bytes32_eq(a: &[u8; 32], b: &[u8; 32]) -> (r: bool)
    ensures
        r <==> a@ == b@,
{
    let mut i: usize = 0;
    while i < 32
        invariant
            i <= 32,
            forall|j: int| 0 <= j < i ==> a@[j] == b@[j],
        decreases 32 - i,
    {
        if a[i] != b[i] {
            return false;
        }
        i = i + 1;
    }
    assert(a@ =~= b@);
    true
}

/// A byte-for-byte copy of `src`.
pub fn clone_bytes(src: &Vec<u8>) -> (r: Vec<u8>)
    ensures
        r@ == src@,
{
    let mut r: Vec<u8> = Vec::new();
    push_bytes(&mut r, src.as_slice());
    assert(r@ =~= src@);
    r
}

/// Appends all of `src` to `dst`.
pub fn push_bytes(dst: &mut Vec<u8>, src: &[u8])
    ensures
        final(dst)@ == old(dst)@ + src@,
{
    let mut i: usize = 0;
    while i < src.len()
        invariant
            i <= src@.len(),
            dst@ == old(dst)@ + src@.take(i as int),
        decreases src@.len() - i,
    {
        let b: u8 = src[i];
        dst.push(b);
        assert(dst@ =~= old(dst)@ + src@.take(i + 1));
        i = i + 1;
    }
    assert(dst@ =~= old(dst)@ + src@);
}

} // verus!
