//! The one cryptographic hash the commitment scheme uses: SHA-256, supplied
//! by the `bitcoin` crate. The digest is left abstract; `sha256_of` names it.

use vstd::prelude::*;

verus! {

/// The SHA-256 digest of `data`: 32 bytes, a function of the input alone.
pub uninterp spec fn sha256_of(data: Seq<u8>) -> Seq<u8>;

/// Relies on `bitcoin::hashes::sha256::Hash::hash` (via the `Hash` trait):
/// a pure digest of the input bytes, identical for identical inputs.
#[verifier::external_body]
pub(crate) fn sha256(data: &Vec<u8>) -> (r: [u8; 32])
    ensures
        r@ == sha256_of(data@),
{
    <bitcoin::hashes::sha256::Hash as bitcoin::hashes::Hash>::to_byte_array(
        <bitcoin::hashes::sha256::Hash as bitcoin::hashes::Hash>::hash(data.as_slice()),
    )
}

} // verus!
