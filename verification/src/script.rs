//! The two Taproot leaf script templates of the vault: a CTV-enforcing leaf
//! and a relative-timelocked signature leaf, built byte for byte.

use vstd::prelude::*;

verus! {

/// OP_PUSHBYTES_32: push the next 32 bytes.
pub const OP_PUSHBYTES_32: u8 = 0x20;

/// OP_DROP: drop the top stack item.
pub const OP_DROP: u8 = 0x75;

/// OP_NOP4, executed as OP_CHECKTEMPLATEVERIFY on chains that deploy it.
pub const OP_CTV: u8 = 0xb3;

/// OP_CHECKSEQUENCEVERIFY: enforce a relative timelock.
pub const OP_CSV: u8 = 0xb2;

/// OP_CHECKSIG: verify a signature against a public key.
pub const OP_CHECKSIG: u8 = 0xac;

/// A Taproot leaf of the vault: either a CTV covenant or a delayed
/// signature check.
#[derive(Clone, Copy, Debug)]
pub enum ScriptLeaf {
    /// `<commitment> OP_CHECKTEMPLATEVERIFY OP_DROP`
    CtvLeaf {
        /// The 32-byte CTV template commitment the leaf enforces.
        commitment: [u8; 32],
    },
    /// `<delay> OP_CHECKSEQUENCEVERIFY OP_DROP <pubkey> OP_CHECKSIG`
    TimelockSigLeaf {
        /// The x-only public key that may spend after the delay.
        pubkey: [u8; 32],
        /// The relative timelock, in confirmations of the spent output.
        delay: u32,
    },
}

/// The minimal little-endian magnitude bytes of `n` (empty for zero).
pub open spec fn scriptnum_magnitude(n: nat) -> Seq<u8>
    decreases n,
{
    if n == 0 {
        Seq::empty()
    } else {
        seq![(n % 256) as u8] + scriptnum_magnitude(n / 256)
    }
}

/// The script instructions that push the non-negative number `n`: the
/// dedicated opcodes OP_0 and OP_1..OP_16 where they exist, otherwise a
/// direct push of the minimal signed-magnitude encoding, which gains a zero
/// byte when the top magnitude byte would read as a sign bit.
pub open spec fn scriptnum_push(n: nat) -> Seq<u8> {
    if n == 0 {
        seq![0x00u8]
    } else if n <= 16 {
        seq![(0x50 + n) as u8]
    } else {
        let m = scriptnum_magnitude(n);
        let digits = if m.last() >= 0x80 {
            m + seq![0x00u8]
        } else {
            m
        };
        seq![digits.len() as u8] + digits
    }
}

/// The CTV leaf script: push the 32-byte commitment, OP_CTV, OP_DROP.
pub open spec fn ctv_leaf_script(commitment: Seq<u8>) -> Seq<u8> {
    seq![OP_PUSHBYTES_32] + commitment + seq![OP_CTV, OP_DROP]
}

/// The timelocked-signature leaf script: push the delay, OP_CSV, OP_DROP,
/// push the 32-byte x-only key, OP_CHECKSIG.
pub open spec fn timelock_leaf_script(pubkey: Seq<u8>, delay: u32) -> Seq<u8> {
    scriptnum_push(delay as nat) + seq![OP_CSV, OP_DROP, OP_PUSHBYTES_32] + pubkey
        + seq![OP_CHECKSIG]
}

/// The script of a leaf, by its variant.
pub open spec fn leaf_script_spec(leaf: ScriptLeaf) -> Seq<u8> {
    match leaf {
        ScriptLeaf::CtvLeaf { commitment } => ctv_leaf_script(commitment@),
        ScriptLeaf::TimelockSigLeaf { pubkey, delay } => timelock_leaf_script(pubkey@, delay),
    }
}

/// A 32-bit magnitude never takes more than four bytes.
proof fn lemma_scriptnum_magnitude_len(n: nat)
    requires
        n < 0x1_0000_0000,
    ensures
        scriptnum_magnitude(n).len() <= 4,
{
    reveal_with_fuel(scriptnum_magnitude, 5);
    assert(n / 256 < 0x100_0000);
    assert(n / 256 / 256 < 0x1_0000);
    assert(n / 256 / 256 / 256 < 0x100);
    assert(n / 256 / 256 / 256 / 256 == 0);
}

/// Builds the `ctv_script(commitment)` leaf.
pub fn ctv_script(commitment: &[u8; 32]) -> (r: Vec<u8>)
    ensures
        r@ == ctv_leaf_script(commitment@),
{
    let mut s: Vec<u8> = Vec::new();
    s.push(OP_PUSHBYTES_32);
    crate::encoding::push_bytes(&mut s, commitment.as_slice());
    s.push(OP_CTV);
    s.push(OP_DROP);
    assert(s@ =~= ctv_leaf_script(commitment@));
    s
}

/// Builds the `timelock_sig_script(pubkey, delay)` leaf.
pub fn timelock_sig_script(pubkey: &[u8; 32], delay: u32) -> (r: Vec<u8>)
    ensures
        r@ == timelock_leaf_script(pubkey@, delay),
{
    let mut s: Vec<u8> = Vec::new();
    if delay == 0 {
        s.push(0x00);
        assert(s@ =~= scriptnum_push(delay as nat));
    } else if delay <= 16 {
        s.push(0x50 + delay as u8);
        assert(s@ =~= scriptnum_push(delay as nat));
    } else {
        let mut m: Vec<u8> = Vec::new();
        let mut x: u32 = delay;
        proof {
            Seq::add_empty_left(Seq::<u8>::empty(), scriptnum_magnitude(delay as nat));
        }
        while x > 0
            invariant
                scriptnum_magnitude(delay as nat) == m@ + scriptnum_magnitude(x as nat),
            decreases x,
        {
            let ghost before = m@;
            m.push((x % 256) as u8);
            proof {
                assert(scriptnum_magnitude(x as nat) =~= seq![(x % 256) as u8]
                    + scriptnum_magnitude((x / 256) as nat));
                assert(before + scriptnum_magnitude(x as nat) =~= m@
                    + scriptnum_magnitude((x / 256) as nat));
            }
            x = x / 256;
        }
        proof {
            Seq::add_empty_right(m@, scriptnum_magnitude(0));
            lemma_scriptnum_magnitude_len(delay as nat);
            assert(scriptnum_magnitude(delay as nat).len() >= 1);
        }
        if m[m.len() - 1] >= 0x80 {
            m.push(0x00);
        }
        s.push(m.len() as u8);
        crate::encoding::push_bytes(&mut s, m.as_slice());
        assert(s@ =~= scriptnum_push(delay as nat));
    }
    s.push(OP_CSV);
    s.push(OP_DROP);
    s.push(OP_PUSHBYTES_32);
    crate::encoding::push_bytes(&mut s, pubkey.as_slice());
    s.push(OP_CHECKSIG);
    assert(s@ =~= timelock_leaf_script(pubkey@, delay));
    s
}

/// Builds the script of `leaf`.
pub fn leaf_script(leaf: &ScriptLeaf) -> (r: Vec<u8>)
    ensures
        r@ == leaf_script_spec(*leaf),
{
    match leaf {
        ScriptLeaf::CtvLeaf { commitment } => ctv_script(commitment),
        ScriptLeaf::TimelockSigLeaf { pubkey, delay } => timelock_sig_script(pubkey, *delay),
    }
}

} // verus!
