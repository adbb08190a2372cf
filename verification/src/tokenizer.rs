//! The persistent escrow record.

use vstd::prelude::*;
use crate::account_id::AccountId;

verus! {

/// The terms of one pending trade: who deposited, where the deposit sits,
/// where the counter-asset is to be delivered, and how much of it.
#[derive(Clone, Copy, Debug)]
pub struct Tokenizer {
    pub is_initialized: bool,
    pub initializer_pubkey: AccountId,
    pub temp_token_account_pubkey: AccountId,
    pub initializer_token_to_receive_account_pubkey: AccountId,
    pub expected_amount: u64,
}

/// The storage slot holding a record, together with the storage cost that
/// returns to the initializer when the record is destroyed.
#[derive(Clone, Copy, Debug)]
pub struct TokenizerAccount {
    pub lamports: u64,
    pub record: Tokenizer,
}

} // verus!
