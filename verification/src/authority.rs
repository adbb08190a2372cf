//! The derived custody authority.
//!
//! The escrowed funds are controlled by no human key: their authority is a
//! value computed deterministically from a fixed domain-separation tag and
//! the program's own identity.  Any party can re-run the computation and
//! obtain the same value.

use vstd::prelude::*;
use crate::account_id::AccountId;

verus! {

/// The derived authority (and its bump seed) for a given domain tag and
/// program identity, or `None` in the statistically improbable case that
/// none exists.  Deterministic: the same inputs always name the same value.
pub uninterp spec fn derived_authority_of(seed: Seq<u8>, program_id: Seq<u8>) -> Option<
    (Seq<u8>, u8),
>;

/// The domain-separation tag under which the custody authority is derived:
/// the bytes of the ASCII string "tokenizer".
pub open spec fn spec_tokenizer_pda_seed() -> Seq<u8> {
    seq![116u8, 111u8, 107u8, 101u8, 110u8, 105u8, 122u8, 101u8, 114u8]
}

/// The domain-separation tag, as a byte vector.
pub fn tokenizer_pda_seed() -> (r: Vec<u8>)
    ensures
        r@ == spec_tokenizer_pda_seed(),
{
    let r: Vec<u8> = vec![116u8, 111u8, 107u8, 101u8, 110u8, 105u8, 122u8, 101u8, 114u8];
    proof {
        assert(r@ =~= spec_tokenizer_pda_seed());
    }
    r
}

/// Relies on solana_program's `Pubkey::try_find_program_address`: a
/// deterministic, stateless function of the seed slices and the program
/// identity, returning an address off the signing curve together with its
/// bump seed, or `None` when no bump seed yields one.
#[verifier::external_body]
pub(crate) fn find_derived_authority(seed: &[u8], program_id: &AccountId) -> (r: Option<
    (AccountId, u8),
>)
    ensures
        match derived_authority_of(seed@, program_id@) {
            Some(p) => r matches Some(q) && q.0@ == p.0 && q.1 == p.1,
            None => r is None,
        },
{
    let program = solana_program::pubkey::Pubkey::new_from_array(program_id.bytes);
    match solana_program::pubkey::Pubkey::try_find_program_address(&[seed], &program) {
        Some((pda, bump)) => Some((AccountId { bytes: pda.to_bytes() }, bump)),
        None => None,
    }
}

} // verus!
