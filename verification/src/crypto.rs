//! Trusted bindings to the ledger SDK's cryptographic primitives: the
//! SHA-256 digest that seals a transaction buffer, and program-derived
//! address lookup. Both are pure functions of their arguments; their results
//! are named, never restated.

use vstd::prelude::*;

use crate::pubkey::Pubkey;

verus! {

/// The SHA-256 digest of a byte string. It depends on the bytes alone.
pub uninterp spec fn sha256_of(bytes: Seq<u8>) -> Seq<u8>;

/// Relies on `anchor_lang::solana_program::hash::hash`: the 32-byte SHA-256
/// digest of the input, a function of the input bytes alone.
#[verifier::external_body]
pub fn sha256(bytes: &Vec<u8>) -> (r: Vec<u8>)
    ensures
        r@ == sha256_of(bytes@),
        r@.len() == 32,
{
    anchor_lang::solana_program::hash::hash(bytes.as_slice()).to_bytes().to_vec()
}

/// The program-derived address (32 bytes) and bump seed that the ledger SDK
/// derives for the seeds under the program, or `None` in the statistically
/// improbable case that no bump yields a valid address or a seed is over
/// the SDK's length limits. It depends on the arguments alone.
pub uninterp spec fn pda_of(seeds: Seq<Seq<u8>>, program_id: Seq<u8>) -> Option<(Seq<u8>, u8)>;

/// Relies on `Pubkey::try_find_program_address` of the ledger SDK: the
/// derived address and bump for the seeds under the program, a function of
/// its arguments alone; `None` when the SDK finds no valid derivation.
#[verifier::external_body]
pub fn find_program_address(seeds: &Vec<Vec<u8>>, program_id: &Pubkey) -> (r: Option<
    (Pubkey, u8),
>)
    requires
        program_id.wf(),
    ensures
        match (r, pda_of(seeds.deep_view(), program_id@)) {
            (Some(found), Some(derived)) => found.0@ == derived.0 && found.0@.len() == 32
                && found.1 == derived.1,
            (None, None) => true,
            _ => false,
        },
{
    let arr: [u8; 32] = program_id.bytes.as_slice().try_into().unwrap();
    let pid = anchor_lang::solana_program::pubkey::Pubkey::new_from_array(arr);
    let refs: Vec<&[u8]> = seeds.iter().map(|s| s.as_slice()).collect();
    anchor_lang::solana_program::pubkey::Pubkey::try_find_program_address(&refs, &pid).map(
        |(key, bump)| (Pubkey { bytes: key.to_bytes().to_vec() }, bump),
    )
}

} // verus!
