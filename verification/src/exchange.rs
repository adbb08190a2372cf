//! Completing a trade: the taker delivers the counter-asset to the
//! initializer, receives the escrowed deposit, and the escrow is torn down,
//! all as one all-or-nothing step.

use vstd::prelude::*;
use crate::account_id::{AccountId, lemma_id_view_injective};
use crate::authority::{derived_authority_of, find_derived_authority, spec_tokenizer_pda_seed,
    tokenizer_pda_seed};
use crate::errors::EscrowError;
use crate::ledger::{CloseAccounts, Ledger, LedgerError, LedgerModel, TransferAccounts,
    spec_close_account, spec_credit_lamports, spec_transfer};
use crate::tokenizer::TokenizerAccount;

verus! {

/// The rejection a mismatched amount claim earns.
#[derive(Clone, Copy, Debug, PartialEq, Eq, Structural)]
pub enum ExchangeError {
    ExpectedAmountMismatch,
}

/// The accounts an exchange call presents.
#[derive(Clone, Copy, Debug)]
pub struct Exchange {
    pub taker: AccountId,
    pub takers_sending_token_account: AccountId,
    pub takers_token_to_receive_account: AccountId,
    pub pdas_temp_token_account: AccountId,
    pub initializers_main_account: AccountId,
    pub initializers_token_to_receive_account: AccountId,
    pub pda_account: AccountId,
}

/// The accounts of the counter-asset transfer, taker to initializer.
pub open spec fn spec_transfer_to_initializer_context(accounts: Exchange) -> TransferAccounts {
    TransferAccounts {
        from: accounts.takers_sending_token_account,
        to: accounts.initializers_token_to_receive_account,
        authority: accounts.taker,
    }
}

/// The accounts of the deposit transfer, custody to taker.
pub open spec fn spec_transfer_to_taker_context(accounts: Exchange) -> TransferAccounts {
    TransferAccounts {
        from: accounts.pdas_temp_token_account,
        to: accounts.takers_token_to_receive_account,
        authority: accounts.pda_account,
    }
}

/// The accounts of the custody teardown.
pub open spec fn spec_close_temp_token_context(accounts: Exchange) -> CloseAccounts {
    CloseAccounts {
        account: accounts.pdas_temp_token_account,
        destination: accounts.initializers_main_account,
        authority: accounts.pda_account,
    }
}

impl Exchange {
    /// The accounts of the counter-asset transfer, authorized by the taker.
    pub fn into_transfer_to_initializer_context(&self) -> (r: TransferAccounts)
        ensures
            r == spec_transfer_to_initializer_context(*self),
    {
        TransferAccounts {
            from: self.takers_sending_token_account,
            to: self.initializers_token_to_receive_account,
            authority: self.taker,
        }
    }

    /// The accounts of the deposit transfer, authorized by the derived
    /// authority.
    pub fn into_transfer_to_taker_context(&self) -> (r: TransferAccounts)
        ensures
            r == spec_transfer_to_taker_context(*self),
    {
        TransferAccounts {
            from: self.pdas_temp_token_account,
            to: self.takers_token_to_receive_account,
            authority: self.pda_account,
        }
    }

    /// The accounts of the custody teardown: the emptied custody account's
    /// storage cost returns to the initializer.
    pub fn into_close_temp_token_context(&self) -> (r: CloseAccounts)
        ensures
            r == spec_close_temp_token_context(*self),
    {
        CloseAccounts {
            account: self.pdas_temp_token_account,
            destination: self.initializers_main_account,
            authority: self.pda_account,
        }
    }
}

/// The amount the taker claims must equal the custody balance exactly.
pub fn check_expected_amount(amount_expected_by_taker: u64, custody_balance: u64) -> (r: Result<
    (),
    ExchangeError,
>)
    ensures
        r == if amount_expected_by_taker == custody_balance {
            Ok::<(), ExchangeError>(())
        } else {
            Err::<(), ExchangeError>(ExchangeError::ExpectedAmountMismatch)
        },
{
    if amount_expected_by_taker == custody_balance {
        Ok(())
    } else {
        Err(ExchangeError::ExpectedAmountMismatch)
    }
}

/// What an exchange call does.  The record's identifiers must match the
/// presented accounts and the claimed amount must equal the custody
/// balance; then the counter-asset moves taker to initializer, the deposit
/// moves custody to taker under the derived authority `pda`, the custody
/// account closes to the initializer's wallet, and the record's own storage
/// cost follows it.  On any failure nothing changes and the record stays.
pub open spec fn spec_exchange(
    m: LedgerModel,
    slot: Option<TokenizerAccount>,
    accounts: Exchange,
    amount_expected_by_taker: u64,
    pda: AccountId,
) -> Result<LedgerModel, EscrowError> {
    match slot {
        None => Err(EscrowError::RecordMissing),
        Some(acct) => {
            let record = acct.record;
            if record.temp_token_account_pubkey != accounts.pdas_temp_token_account {
                Err(EscrowError::InvalidAccountData)
            } else if record.initializer_pubkey != accounts.initializers_main_account {
                Err(EscrowError::InvalidAccountData)
            } else if record.initializer_token_to_receive_account_pubkey
                != accounts.initializers_token_to_receive_account {
                Err(EscrowError::InvalidAccountData)
            } else if !m.tokens.contains_key(accounts.pdas_temp_token_account) {
                Err(EscrowError::Ledger(LedgerError::MissingAccount))
            } else if amount_expected_by_taker != m.tokens[accounts.pdas_temp_token_account].balance {
                Err(EscrowError::ExpectedAmountMismatch)
            } else {
                match spec_transfer(
                    m,
                    spec_transfer_to_initializer_context(accounts),
                    record.expected_amount,
                ) {
                    Err(e) => Err(EscrowError::Ledger(e)),
                    Ok(m1) => if accounts.pda_account != pda {
                        Err(EscrowError::Ledger(LedgerError::AuthorityMismatch))
                    } else {
                        match spec_transfer(
                            m1,
                            spec_transfer_to_taker_context(accounts),
                            amount_expected_by_taker,
                        ) {
                            Err(e) => Err(EscrowError::Ledger(e)),
                            Ok(m2) => match spec_close_account(
                                m2,
                                spec_close_temp_token_context(accounts),
                            ) {
                                Err(e) => Err(EscrowError::Ledger(e)),
                                Ok(m3) => match spec_credit_lamports(
                                    m3,
                                    accounts.initializers_main_account,
                                    acct.lamports,
                                ) {
                                    Err(e) => Err(EscrowError::Ledger(e)),
                                    Ok(m4) => Ok(m4),
                                },
                            },
                        }
                    },
                }
            }
        },
    }
}

/// Exchange against a caller-supplied custody authority; behaves exactly
/// as `spec_exchange` says, destroys the record exactly on success, and
/// changes nothing on failure.
pub fn exchange_with_authority(
    ledger: &mut Ledger,
    tokenizer_account: &mut Option<TokenizerAccount>,
    accounts: &Exchange,
    amount_expected_by_taker: u64,
    pda: &AccountId,
) -> (r: Result<(), EscrowError>)
    requires
        old(ledger).wf(),
    ensures
        final(ledger).wf(),
        match r {
            Ok(()) => spec_exchange(
                old(ledger)@,
                *old(tokenizer_account),
                *accounts,
                amount_expected_by_taker,
                *pda,
            ) == Ok::<LedgerModel, EscrowError>(final(ledger)@) && *final(tokenizer_account)
                is None,
            Err(e) => *final(ledger) == *old(ledger)
                && *final(tokenizer_account) == *old(tokenizer_account) && spec_exchange(
                old(ledger)@,
                *old(tokenizer_account),
                *accounts,
                amount_expected_by_taker,
                *pda,
            ) == Err::<LedgerModel, EscrowError>(e),
        },
{
    let acct = match *tokenizer_account {
        Some(a) => a,
        None => {
            return Err(EscrowError::RecordMissing);
        },
    };
    let record = acct.record;
    if record.temp_token_account_pubkey != accounts.pdas_temp_token_account {
        return Err(EscrowError::InvalidAccountData);
    }
    if record.initializer_pubkey != accounts.initializers_main_account {
        return Err(EscrowError::InvalidAccountData);
    }
    if record.initializer_token_to_receive_account_pubkey
        != accounts.initializers_token_to_receive_account {
        return Err(EscrowError::InvalidAccountData);
    }
    let custody_balance = match ledger.token_balance(&accounts.pdas_temp_token_account) {
        Some(b) => b,
        None => {
            return Err(EscrowError::Ledger(LedgerError::MissingAccount));
        },
    };
    match check_expected_amount(amount_expected_by_taker, custody_balance) {
        Err(ExchangeError::ExpectedAmountMismatch) => {
            return Err(EscrowError::ExpectedAmountMismatch);
        },
        Ok(()) => {},
    }
    let mut scratch = ledger.duplicate();
    match scratch.transfer(&accounts.into_transfer_to_initializer_context(), record.expected_amount)
    {
        Err(e) => {
            return Err(EscrowError::Ledger(e));
        },
        Ok(()) => {},
    }
    if accounts.pda_account != *pda {
        return Err(EscrowError::Ledger(LedgerError::AuthorityMismatch));
    }
    match scratch.transfer(&accounts.into_transfer_to_taker_context(), amount_expected_by_taker) {
        Err(e) => {
            return Err(EscrowError::Ledger(e));
        },
        Ok(()) => {},
    }
    match scratch.close_account(&accounts.into_close_temp_token_context()) {
        Err(e) => {
            return Err(EscrowError::Ledger(e));
        },
        Ok(()) => {},
    }
    match scratch.credit_lamports(&accounts.initializers_main_account, acct.lamports) {
        Err(e) => {
            return Err(EscrowError::Ledger(e));
        },
        Ok(()) => {},
    }
    *ledger = scratch;
    *tokenizer_account = None;
    Ok(())
}

/// Completes a trade: re-derives the custody authority from the fixed
/// domain tag and `program_id` — the same computation the setup used — then
/// proceeds as `spec_exchange` says for that authority.  On any failure
/// nothing changes.
pub fn exchange(
    ledger: &mut Ledger,
    tokenizer_account: &mut Option<TokenizerAccount>,
    accounts: &Exchange,
    amount_expected_by_taker: u64,
    program_id: &AccountId,
) -> (r: Result<(), EscrowError>)
    requires
        old(ledger).wf(),
    ensures
        final(ledger).wf(),
        derived_authority_of(spec_tokenizer_pda_seed(), program_id@) is None ==> r == Err::<
            (),
            EscrowError,
        >(EscrowError::DerivedAuthorityUnavailable) && *final(ledger) == *old(ledger)
            && *final(tokenizer_account) == *old(tokenizer_account),
        forall|pda: AccountId| #![trigger pda@]
            derived_authority_of(spec_tokenizer_pda_seed(), program_id@) matches Some(p) && pda@
                == p.0 ==> match r {
                Ok(()) => spec_exchange(
                    old(ledger)@,
                    *old(tokenizer_account),
                    *accounts,
                    amount_expected_by_taker,
                    pda,
                ) == Ok::<LedgerModel, EscrowError>(final(ledger)@) && *final(tokenizer_account)
                    is None,
                Err(e) => *final(ledger) == *old(ledger)
                    && *final(tokenizer_account) == *old(tokenizer_account) && spec_exchange(
                    old(ledger)@,
                    *old(tokenizer_account),
                    *accounts,
                    amount_expected_by_taker,
                    pda,
                ) == Err::<LedgerModel, EscrowError>(e),
            },
{
    let seed = tokenizer_pda_seed();
    let pda = match find_derived_authority(seed.as_slice(), program_id) {
        None => {
            return Err(EscrowError::DerivedAuthorityUnavailable);
        },
        Some((pda, _bump)) => pda,
    };
    let r = exchange_with_authority(
        ledger,
        tokenizer_account,
        accounts,
        amount_expected_by_taker,
        &pda,
    );
    proof {
        assert forall|pda2: AccountId| #![trigger pda2@]
            derived_authority_of(spec_tokenizer_pda_seed(), program_id@) matches Some(p) && pda2@
                == p.0 implies pda2 == pda by {
            lemma_id_view_injective(pda2, pda);
        }
    }
    r
}

} // verus!
