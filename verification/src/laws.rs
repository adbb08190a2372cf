//! What the escrow guarantees, proved once and for all over the functional
//! specifications.  The operations' own contracts add that an executable
//! call mutates exactly as the specification says on success and mutates
//! nothing on failure.

use vstd::prelude::*;
use crate::account_id::AccountId;
use crate::errors::EscrowError;
use crate::exchange::{Exchange, spec_exchange};
use crate::initialize::{Initialize, spec_initialize, spec_new_record};
use crate::ledger::LedgerModel;
use crate::tokenizer::TokenizerAccount;

verus! {

/// A valid initialize call creates exactly one record: it only succeeds on
/// a slot with no initialized record, the record it writes is initialized
/// and carries the presented terms, and custody of the deposit now answers
/// to the derived authority — no longer to the initializer, whenever the
/// two differ.
pub proof fn law_initialize_creates_record(
    m: LedgerModel,
    slot: Option<TokenizerAccount>,
    accounts: Initialize,
    amount: u64,
    record_rent: u64,
    pda: AccountId,
)
    requires
        spec_initialize(m, slot, accounts, amount, record_rent, pda) is Ok,
    ensures
        !(slot matches Some(a) && a.record.is_initialized),
        ({
            let q = spec_initialize(m, slot, accounts, amount, record_rent, pda)->Ok_0;
            &&& q.1.record == spec_new_record(accounts, amount)
            &&& q.1.record.is_initialized
            &&& q.0.tokens.contains_key(accounts.temp_token_account)
            &&& q.0.tokens[accounts.temp_token_account].authority == pda
            &&& pda != accounts.initializer ==> q.0.tokens[accounts.temp_token_account].authority
                != accounts.initializer
        }),
{
}

/// Re-initializing a slot that already holds an initialized record is
/// always rejected as `AlreadyInitialized`; by the operation's contract a
/// rejected call changes nothing, so the record stands unchanged.
pub proof fn law_reinitialize_rejected(
    m: LedgerModel,
    slot: Option<TokenizerAccount>,
    accounts: Initialize,
    amount: u64,
    record_rent: u64,
    pda: AccountId,
)
    requires
        slot matches Some(a) && a.record.is_initialized,
    ensures
        spec_initialize(m, slot, accounts, amount, record_rent, pda) == Err::<
            (LedgerModel, TokenizerAccount),
            EscrowError,
        >(EscrowError::AlreadyInitialized),
{
}

/// A claimed amount that differs from the custody balance is always
/// rejected as `ExpectedAmountMismatch`, whatever else holds; by the
/// operation's contract a rejected call changes no balances.
pub proof fn law_amount_mismatch_rejected(
    m: LedgerModel,
    slot: Option<TokenizerAccount>,
    accounts: Exchange,
    amount_expected_by_taker: u64,
    pda: AccountId,
)
    requires
        slot matches Some(a) && a.record.temp_token_account_pubkey
            == accounts.pdas_temp_token_account && a.record.initializer_pubkey
            == accounts.initializers_main_account
            && a.record.initializer_token_to_receive_account_pubkey
            == accounts.initializers_token_to_receive_account,
        m.tokens.contains_key(accounts.pdas_temp_token_account),
        amount_expected_by_taker != m.tokens[accounts.pdas_temp_token_account].balance,
    ensures
        spec_exchange(m, slot, accounts, amount_expected_by_taker, pda) == Err::<
            LedgerModel,
            EscrowError,
        >(EscrowError::ExpectedAmountMismatch),
{
}

/// An exchange whose presented custody, initializer or receiving account
/// differs from the record is always rejected; by the operation's contract
/// a rejected call changes no balances.
pub proof fn law_account_mismatch_rejected(
    m: LedgerModel,
    slot: Option<TokenizerAccount>,
    accounts: Exchange,
    amount_expected_by_taker: u64,
    pda: AccountId,
)
    requires
        slot matches Some(a) && !(a.record.temp_token_account_pubkey
            == accounts.pdas_temp_token_account && a.record.initializer_pubkey
            == accounts.initializers_main_account
            && a.record.initializer_token_to_receive_account_pubkey
            == accounts.initializers_token_to_receive_account),
    ensures
        spec_exchange(m, slot, accounts, amount_expected_by_taker, pda) == Err::<
            LedgerModel,
            EscrowError,
        >(EscrowError::InvalidAccountData),
{
}

/// What a successful exchange settles, for distinct token accounts: the
/// initializer's receiving account gains exactly the demanded amount, the
/// taker's source pays exactly that amount, the taker's destination gains
/// exactly the custody's prior balance, the custody account is gone, and
/// the initializer's wallet reclaims both storage costs.
pub proof fn law_exchange_settles(
    m: LedgerModel,
    slot: Option<TokenizerAccount>,
    accounts: Exchange,
    amount_expected_by_taker: u64,
    pda: AccountId,
)
    requires
        spec_exchange(m, slot, accounts, amount_expected_by_taker, pda) is Ok,
        accounts.takers_sending_token_account != accounts.initializers_token_to_receive_account,
        accounts.takers_sending_token_account != accounts.pdas_temp_token_account,
        accounts.takers_sending_token_account != accounts.takers_token_to_receive_account,
        accounts.initializers_token_to_receive_account != accounts.pdas_temp_token_account,
        accounts.initializers_token_to_receive_account
            != accounts.takers_token_to_receive_account,
        accounts.pdas_temp_token_account != accounts.takers_token_to_receive_account,
    ensures
        ({
            let m4 = spec_exchange(m, slot, accounts, amount_expected_by_taker, pda)->Ok_0;
            let record = slot->Some_0.record;
            let prior_custody = m.tokens[accounts.pdas_temp_token_account].balance;
            &&& amount_expected_by_taker == prior_custody
            &&& m4.tokens[accounts.initializers_token_to_receive_account].balance
                == m.tokens[accounts.initializers_token_to_receive_account].balance
                + record.expected_amount
            &&& m4.tokens[accounts.takers_sending_token_account].balance
                == m.tokens[accounts.takers_sending_token_account].balance
                - record.expected_amount
            &&& m4.tokens[accounts.takers_token_to_receive_account].balance
                == m.tokens[accounts.takers_token_to_receive_account].balance + prior_custody
            &&& !m4.tokens.contains_key(accounts.pdas_temp_token_account)
            &&& m4.wallets[accounts.initializers_main_account].lamports
                == m.wallets[accounts.initializers_main_account].lamports
                + m.tokens[accounts.pdas_temp_token_account].lamports + slot->Some_0.lamports
        }),
{
}

/// A trade can never complete twice: an exchange against an empty slot —
/// and by the operation's contract a successful exchange leaves the slot
/// empty — is always rejected as `RecordMissing`.
pub proof fn law_replay_rejected(
    m: LedgerModel,
    accounts: Exchange,
    amount_expected_by_taker: u64,
    pda: AccountId,
)
    ensures
        spec_exchange(m, None, accounts, amount_expected_by_taker, pda) == Err::<
            LedgerModel,
            EscrowError,
        >(EscrowError::RecordMissing),
{
}

} // verus!
