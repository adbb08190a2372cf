//! Setting up a trade: writing the escrow record and handing custody of the
//! deposited funds to the derived authority.

use vstd::prelude::*;
use crate::account_id::{AccountId, lemma_id_view_injective};
use crate::authority::{derived_authority_of, find_derived_authority, spec_tokenizer_pda_seed,
    tokenizer_pda_seed};
use crate::errors::EscrowError;
use crate::ledger::{Ledger, LedgerModel, SetAuthorityAccounts, spec_debit_lamports,
    spec_set_authority};
use crate::tokenizer::{Tokenizer, TokenizerAccount};

verus! {

/// The accounts an initialize call presents: the depositing party, the
/// custody account already funded with the asset to escrow, and the account
/// that is to receive the counter-asset.
#[derive(Clone, Copy, Debug)]
pub struct Initialize {
    pub initializer: AccountId,
    pub temp_token_account: AccountId,
    pub token_to_receive_account: AccountId,
}

impl Initialize {
    /// The accounts of the custody authority reassignment: the custody
    /// account, released by the initializer.
    pub fn into_set_authority_context(&self) -> (r: SetAuthorityAccounts)
        ensures
            r == spec_set_authority_context(*self),
    {
        SetAuthorityAccounts {
            account_or_mint: self.temp_token_account,
            current_authority: self.initializer,
        }
    }
}

/// The accounts of the custody authority reassignment.
pub open spec fn spec_set_authority_context(accounts: Initialize) -> SetAuthorityAccounts {
    SetAuthorityAccounts {
        account_or_mint: accounts.temp_token_account,
        current_authority: accounts.initializer,
    }
}

/// What a successful initialize leaves behind: the record written from the
/// presented accounts, initialized, demanding `amount`.
pub open spec fn spec_new_record(accounts: Initialize, amount: u64) -> Tokenizer {
    Tokenizer {
        is_initialized: true,
        initializer_pubkey: accounts.initializer,
        temp_token_account_pubkey: accounts.temp_token_account,
        initializer_token_to_receive_account_pubkey: accounts.token_to_receive_account,
        expected_amount: amount,
    }
}

/// What an initialize call does.  It is rejected if the slot already holds
/// an initialized record or the receiving account is not a token account of
/// the ledger; otherwise custody of the deposit passes to `pda`, and a
/// fresh slot pays its storage cost `record_rent` out of the initializer's
/// wallet.  On any failure nothing changes.
pub open spec fn spec_initialize(
    m: LedgerModel,
    slot: Option<TokenizerAccount>,
    accounts: Initialize,
    amount: u64,
    record_rent: u64,
    pda: AccountId,
) -> Result<(LedgerModel, TokenizerAccount), EscrowError> {
    if slot matches Some(acct) && acct.record.is_initialized {
        Err(EscrowError::AlreadyInitialized)
    } else if !m.tokens.contains_key(accounts.token_to_receive_account) {
        Err(EscrowError::IncorrectCounterpartyAssetAccount)
    } else {
        match spec_set_authority(m, spec_set_authority_context(accounts), pda) {
            Err(e) => Err(EscrowError::Ledger(e)),
            Ok(m1) => match slot {
                Some(acct) => Ok(
                    (
                        m1,
                        TokenizerAccount {
                            lamports: acct.lamports,
                            record: spec_new_record(accounts, amount),
                        },
                    ),
                ),
                None => match spec_debit_lamports(m1, accounts.initializer, record_rent) {
                    Err(e) => Err(EscrowError::Ledger(e)),
                    Ok(m2) => Ok(
                        (
                            m2,
                            TokenizerAccount {
                                lamports: record_rent,
                                record: spec_new_record(accounts, amount),
                            },
                        ),
                    ),
                },
            },
        }
    }
}

/// Initialize against a caller-supplied custody authority; behaves exactly
/// as `spec_initialize` says, and changes nothing on failure.
pub fn initialize_with_authority(
    ledger: &mut Ledger,
    tokenizer_account: &mut Option<TokenizerAccount>,
    accounts: &Initialize,
    amount: u64,
    record_rent: u64,
    pda: &AccountId,
) -> (r: Result<(), EscrowError>)
    requires
        old(ledger).wf(),
    ensures
        final(ledger).wf(),
        match r {
            Ok(()) => spec_initialize(
                old(ledger)@,
                *old(tokenizer_account),
                *accounts,
                amount,
                record_rent,
                *pda,
            ) matches Ok(q) && q.0 == final(ledger)@ && *final(tokenizer_account) == Some(q.1),
            Err(e) => *final(ledger) == *old(ledger)
                && *final(tokenizer_account) == *old(tokenizer_account) && spec_initialize(
                old(ledger)@,
                *old(tokenizer_account),
                *accounts,
                amount,
                record_rent,
                *pda,
            ) == Err::<(LedgerModel, TokenizerAccount), EscrowError>(e),
        },
{
    let slot0 = *tokenizer_account;
    let already = match &slot0 {
        Some(acct) => acct.record.is_initialized,
        None => false,
    };
    if already {
        return Err(EscrowError::AlreadyInitialized);
    }
    if !ledger.has_token_account(&accounts.token_to_receive_account) {
        return Err(EscrowError::IncorrectCounterpartyAssetAccount);
    }
    let mut scratch = ledger.duplicate();
    let context = accounts.into_set_authority_context();
    match scratch.set_authority(&context, pda) {
        Err(e) => {
            return Err(EscrowError::Ledger(e));
        },
        Ok(()) => {},
    }
    let record = Tokenizer {
        is_initialized: true,
        initializer_pubkey: accounts.initializer,
        temp_token_account_pubkey: accounts.temp_token_account,
        initializer_token_to_receive_account_pubkey: accounts.token_to_receive_account,
        expected_amount: amount,
    };
    let new_account = match &slot0 {
        Some(acct) => TokenizerAccount { lamports: acct.lamports, record },
        None => {
            match scratch.debit_lamports(&accounts.initializer, record_rent) {
                Err(e) => {
                    return Err(EscrowError::Ledger(e));
                },
                Ok(()) => {},
            }
            TokenizerAccount { lamports: record_rent, record }
        },
    };
    *ledger = scratch;
    *tokenizer_account = Some(new_account);
    Ok(())
}

/// Sets up a trade: derives the custody authority from the fixed domain tag
/// and `program_id`, then proceeds as `spec_initialize` says for that
/// authority.  On any failure nothing changes.
pub fn initialize(
    ledger: &mut Ledger,
    tokenizer_account: &mut Option<TokenizerAccount>,
    accounts: &Initialize,
    amount: u64,
    record_rent: u64,
    program_id: &AccountId,
) -> (r: Result<(), EscrowError>)
    requires
        old(ledger).wf(),
    ensures
        final(ledger).wf(),
        derived_authority_of(spec_tokenizer_pda_seed(), program_id@) is None ==> r == Err::<
            (),
            EscrowError,
        >(EscrowError::DerivedAuthorityUnavailable) && *final(ledger) == *old(ledger)
            && *final(tokenizer_account) == *old(tokenizer_account),
        forall|pda: AccountId| #![trigger pda@]
            derived_authority_of(spec_tokenizer_pda_seed(), program_id@) matches Some(p) && pda@
                == p.0 ==> match r {
                Ok(()) => spec_initialize(
                    old(ledger)@,
                    *old(tokenizer_account),
                    *accounts,
                    amount,
                    record_rent,
                    pda,
                ) matches Ok(q) && q.0 == final(ledger)@ && *final(tokenizer_account) == Some(q.1),
                Err(e) => *final(ledger) == *old(ledger)
                    && *final(tokenizer_account) == *old(tokenizer_account) && spec_initialize(
                    old(ledger)@,
                    *old(tokenizer_account),
                    *accounts,
                    amount,
                    record_rent,
                    pda,
                ) == Err::<(LedgerModel, TokenizerAccount), EscrowError>(e),
            },
{
    let seed = tokenizer_pda_seed();
    let pda = match find_derived_authority(seed.as_slice(), program_id) {
        None => {
            return Err(EscrowError::DerivedAuthorityUnavailable);
        },
        Some((pda, _bump)) => pda,
    };
    let r = initialize_with_authority(
        ledger,
        tokenizer_account,
        accounts,
        amount,
        record_rent,
        &pda,
    );
    proof {
        assert forall|pda2: AccountId| #![trigger pda2@]
            derived_authority_of(spec_tokenizer_pda_seed(), program_id@) matches Some(p) && pda2@
                == p.0 implies pda2 == pda by {
            lemma_id_view_injective(pda2, pda);
        }
    }
    r
}

} // verus!
