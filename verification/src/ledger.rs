//! The abstract ledger the escrow operates on: token accounts holding a
//! fungible balance under a single controlling authority, and wallets
//! holding the storage cost (lamports) of closed accounts.
//!
//! Every mutating primitive validates before it mutates and reports exactly
//! one failure; its contract ties the executable code to a functional
//! specification (`spec_transfer` and friends) over the map view.

use vstd::prelude::*;
use crate::account_id::AccountId;
use crate::key_map::{key_map, unique_keys, lemma_key_map_contains, lemma_key_map_index,
    lemma_key_map_push, lemma_key_map_remove, lemma_unique_keys_push, lemma_unique_keys_remove};

verus! {

/// A fungible-asset account: a balance controlled by one authority.
#[derive(Clone, Copy, Debug)]
pub struct TokenAccount {
    pub id: AccountId,
    pub authority: AccountId,
    pub balance: u64,
    pub lamports: u64,
}

/// A plain account that can receive reclaimed storage costs.
#[derive(Clone, Copy, Debug)]
pub struct Wallet {
    pub id: AccountId,
    pub lamports: u64,
}

/// The failures the ledger primitives can report.
#[derive(Clone, Copy, Debug, PartialEq, Eq, Structural)]
pub enum LedgerError {
    MissingAccount,
    AccountExists,
    AuthorityMismatch,
    InsufficientBalance,
    BalanceOverflow,
    NonZeroBalance,
}

/// The accounts a transfer touches, and who authorizes it.
#[derive(Clone, Copy, Debug)]
pub struct TransferAccounts {
    pub from: AccountId,
    pub to: AccountId,
    pub authority: AccountId,
}

/// The accounts a close touches, and who authorizes it.
#[derive(Clone, Copy, Debug)]
pub struct CloseAccounts {
    pub account: AccountId,
    pub destination: AccountId,
    pub authority: AccountId,
}

/// The account whose authority is reassigned, and who authorizes it.
#[derive(Clone, Copy, Debug)]
pub struct SetAuthorityAccounts {
    pub account_or_mint: AccountId,
    pub current_authority: AccountId,
}

/// The mathematical model of a ledger: two finite maps from identifier to
/// account.
#[verifier::ext_equal]
pub struct LedgerModel {
    pub tokens: Map<AccountId, TokenAccount>,
    pub wallets: Map<AccountId, Wallet>,
}

pub open spec fn token_key() -> spec_fn(TokenAccount) -> AccountId {
    |a: TokenAccount| a.id
}

pub open spec fn wallet_key() -> spec_fn(Wallet) -> AccountId {
    |w: Wallet| w.id
}

/// What a transfer does: moves `amount` from `a.from` to `a.to` when the
/// authorizer controls the source and the balances allow it.  A transfer of
/// an account to itself moves nothing.
pub open spec fn spec_transfer(m: LedgerModel, a: TransferAccounts, amount: u64) -> Result<
    LedgerModel,
    LedgerError,
> {
    if !m.tokens.contains_key(a.from) {
        Err(LedgerError::MissingAccount)
    } else if !m.tokens.contains_key(a.to) {
        Err(LedgerError::MissingAccount)
    } else if m.tokens[a.from].authority != a.authority {
        Err(LedgerError::AuthorityMismatch)
    } else if m.tokens[a.from].balance < amount {
        Err(LedgerError::InsufficientBalance)
    } else if a.from == a.to {
        Ok(m)
    } else if m.tokens[a.to].balance + amount > u64::MAX {
        Err(LedgerError::BalanceOverflow)
    } else {
        Ok(
            LedgerModel {
                tokens: m.tokens.insert(
                    a.from,
                    TokenAccount {
                        balance: (m.tokens[a.from].balance - amount) as u64,
                        ..m.tokens[a.from]
                    },
                ).insert(
                    a.to,
                    TokenAccount {
                        balance: (m.tokens[a.to].balance + amount) as u64,
                        ..m.tokens[a.to]
                    },
                ),
                wallets: m.wallets,
            },
        )
    }
}

/// What an authority reassignment does.
pub open spec fn spec_set_authority(
    m: LedgerModel,
    a: SetAuthorityAccounts,
    new_authority: AccountId,
) -> Result<LedgerModel, LedgerError> {
    if !m.tokens.contains_key(a.account_or_mint) {
        Err(LedgerError::MissingAccount)
    } else if m.tokens[a.account_or_mint].authority != a.current_authority {
        Err(LedgerError::AuthorityMismatch)
    } else {
        Ok(
            LedgerModel {
                tokens: m.tokens.insert(
                    a.account_or_mint,
                    TokenAccount { authority: new_authority, ..m.tokens[a.account_or_mint] },
                ),
                wallets: m.wallets,
            },
        )
    }
}

/// What a close does: an emptied token account is removed and its storage
/// cost is reclaimed by the destination wallet.
pub open spec fn spec_close_account(m: LedgerModel, a: CloseAccounts) -> Result<
    LedgerModel,
    LedgerError,
> {
    if !m.tokens.contains_key(a.account) {
        Err(LedgerError::MissingAccount)
    } else if m.tokens[a.account].authority != a.authority {
        Err(LedgerError::AuthorityMismatch)
    } else if m.tokens[a.account].balance != 0 {
        Err(LedgerError::NonZeroBalance)
    } else if !m.wallets.contains_key(a.destination) {
        Err(LedgerError::MissingAccount)
    } else if m.wallets[a.destination].lamports + m.tokens[a.account].lamports > u64::MAX {
        Err(LedgerError::BalanceOverflow)
    } else {
        Ok(
            LedgerModel {
                tokens: m.tokens.remove(a.account),
                wallets: m.wallets.insert(
                    a.destination,
                    Wallet {
                        lamports: (m.wallets[a.destination].lamports
                            + m.tokens[a.account].lamports) as u64,
                        ..m.wallets[a.destination]
                    },
                ),
            },
        )
    }
}

/// What crediting a wallet with a reclaimed storage cost does.
pub open spec fn spec_credit_lamports(m: LedgerModel, id: AccountId, amount: u64) -> Result<
    LedgerModel,
    LedgerError,
> {
    if !m.wallets.contains_key(id) {
        Err(LedgerError::MissingAccount)
    } else if m.wallets[id].lamports + amount > u64::MAX {
        Err(LedgerError::BalanceOverflow)
    } else {
        Ok(
            LedgerModel {
                tokens: m.tokens,
                wallets: m.wallets.insert(
                    id,
                    Wallet { lamports: (m.wallets[id].lamports + amount) as u64, ..m.wallets[id] },
                ),
            },
        )
    }
}

/// What paying a storage cost out of a wallet does.
pub open spec fn spec_debit_lamports(m: LedgerModel, id: AccountId, amount: u64) -> Result<
    LedgerModel,
    LedgerError,
> {
    if !m.wallets.contains_key(id) {
        Err(LedgerError::MissingAccount)
    } else if m.wallets[id].lamports < amount {
        Err(LedgerError::InsufficientBalance)
    } else {
        Ok(
            LedgerModel {
                tokens: m.tokens,
                wallets: m.wallets.insert(
                    id,
                    Wallet { lamports: (m.wallets[id].lamports - amount) as u64, ..m.wallets[id] },
                ),
            },
        )
    }
}

/// An in-memory ledger.  Its contracts speak of the map view given by
/// `View`; `wf` (kept by every method) says no identifier is listed twice.
pub struct Ledger {
    token_accounts: Vec<TokenAccount>,
    wallets: Vec<Wallet>,
}

impl View for Ledger {
    type V = LedgerModel;

    closed spec fn view(&self) -> LedgerModel {
        LedgerModel {
            tokens: key_map(self.token_accounts@, token_key()),
            wallets: key_map(self.wallets@, wallet_key()),
        }
    }
}

impl Ledger {
    /// Well-formed: each identifier names at most one account.
    pub closed spec fn wf(&self) -> bool {
        unique_keys(self.token_accounts@, token_key()) && unique_keys(self.wallets@, wallet_key())
    }

    /// An empty ledger.
    pub fn new() -> (r: Ledger)
        ensures
            r.wf(),
            r@.tokens == Map::<AccountId, TokenAccount>::empty(),
            r@.wallets == Map::<AccountId, Wallet>::empty(),
    {
        Ledger { token_accounts: Vec::new(), wallets: Vec::new() }
    }

    fn find_token_index(&self, id: &AccountId) -> (r: Option<usize>)
        requires
            self.wf(),
        ensures
            match r {
                Some(i) => i < self.token_accounts@.len() && self.token_accounts@[i as int].id
                    == *id && self@.tokens.contains_key(*id) && self@.tokens[*id]
                    == self.token_accounts@[i as int],
                None => !self@.tokens.contains_key(*id),
            },
    {
        let mut i: usize = 0;
        while i < self.token_accounts.len()
            invariant
                self.wf(),
                i <= self.token_accounts@.len(),
                forall|j: int| 0 <= j < i ==> self.token_accounts@[j].id != *id,
            decreases self.token_accounts@.len() - i,
        {
            if self.token_accounts[i].id == *id {
                proof {
                    lemma_key_map_index(self.token_accounts@, token_key(), i as int);
                }
                return Some(i);
            }
            i += 1;
        }
        proof {
            lemma_key_map_contains(self.token_accounts@, token_key(), *id);
        }
        None
    }

    fn find_wallet_index(&self, id: &AccountId) -> (r: Option<usize>)
        requires
            self.wf(),
        ensures
            match r {
                Some(i) => i < self.wallets@.len() && self.wallets@[i as int].id == *id
                    && self@.wallets.contains_key(*id) && self@.wallets[*id]
                    == self.wallets@[i as int],
                None => !self@.wallets.contains_key(*id),
            },
    {
        let mut i: usize = 0;
        while i < self.wallets.len()
            invariant
                self.wf(),
                i <= self.wallets@.len(),
                forall|j: int| 0 <= j < i ==> self.wallets@[j].id != *id,
            decreases self.wallets@.len() - i,
        {
            if self.wallets[i].id == *id {
                proof {
                    lemma_key_map_index(self.wallets@, wallet_key(), i as int);
                }
                return Some(i);
            }
            i += 1;
        }
        proof {
            lemma_key_map_contains(self.wallets@, wallet_key(), *id);
        }
        None
    }

    /// Whether a token account with this identifier exists.
    pub fn has_token_account(&self, id: &AccountId) -> (r: bool)
        requires
            self.wf(),
        ensures
            r == self@.tokens.contains_key(*id),
    {
        self.find_token_index(id).is_some()
    }

    /// The balance of the token account, if it exists.
    pub fn token_balance(&self, id: &AccountId) -> (r: Option<u64>)
        requires
            self.wf(),
        ensures
            match r {
                Some(b) => self@.tokens.contains_key(*id) && b == self@.tokens[*id].balance,
                None => !self@.tokens.contains_key(*id),
            },
    {
        match self.find_token_index(id) {
            Some(i) => Some(self.token_accounts[i].balance),
            None => None,
        }
    }

    /// The controlling authority of the token account, if it exists.
    pub fn token_authority(&self, id: &AccountId) -> (r: Option<AccountId>)
        requires
            self.wf(),
        ensures
            match r {
                Some(a) => self@.tokens.contains_key(*id) && a == self@.tokens[*id].authority,
                None => !self@.tokens.contains_key(*id),
            },
    {
        match self.find_token_index(id) {
            Some(i) => Some(self.token_accounts[i].authority),
            None => None,
        }
    }

    /// The lamports held by the wallet, if it exists.
    pub fn wallet_lamports(&self, id: &AccountId) -> (r: Option<u64>)
        requires
            self.wf(),
        ensures
            match r {
                Some(l) => self@.wallets.contains_key(*id) && l == self@.wallets[*id].lamports,
                None => !self@.wallets.contains_key(*id),
            },
    {
        match self.find_wallet_index(id) {
            Some(i) => Some(self.wallets[i].lamports),
            None => None,
        }
    }

    /// An element-for-element copy, the scratch state that an atomic
    /// operation mutates before committing.
    pub fn duplicate(&self) -> (r: Ledger)
        requires
            self.wf(),
        ensures
            r.wf(),
            r@ == self@,
    {
        let mut token_accounts: Vec<TokenAccount> = Vec::new();
        let mut i: usize = 0;
        while i < self.token_accounts.len()
            invariant
                i <= self.token_accounts@.len(),
                token_accounts@ == self.token_accounts@.subrange(0, i as int),
            decreases self.token_accounts@.len() - i,
        {
            token_accounts.push(self.token_accounts[i]);
            proof {
                assert(token_accounts@ =~= self.token_accounts@.subrange(0, i + 1));
            }
            i += 1;
        }
        let mut wallets: Vec<Wallet> = Vec::new();
        let mut j: usize = 0;
        while j < self.wallets.len()
            invariant
                j <= self.wallets@.len(),
                wallets@ == self.wallets@.subrange(0, j as int),
            decreases self.wallets@.len() - j,
        {
            wallets.push(self.wallets[j]);
            proof {
                assert(wallets@ =~= self.wallets@.subrange(0, j + 1));
            }
            j += 1;
        }
        proof {
            assert(token_accounts@ =~= self.token_accounts@);
            assert(wallets@ =~= self.wallets@);
        }
        Ledger { token_accounts, wallets }
    }

    fn replace_token_at(&mut self, i: usize, account: TokenAccount)
        requires
            old(self).wf(),
            i < old(self).token_accounts@.len(),
            account.id == old(self).token_accounts@[i as int].id,
        ensures
            final(self).wf(),
            final(self)@.tokens == old(self)@.tokens.insert(account.id, account),
            final(self).wallets@ == old(self).wallets@,
            final(self)@.wallets == old(self)@.wallets,
    {
        proof {
            lemma_key_map_remove(self.token_accounts@, token_key(), i as int);
            lemma_unique_keys_remove(self.token_accounts@, token_key(), i as int);
        }
        let _ = self.token_accounts.remove(i);
        proof {
            lemma_unique_keys_push(self.token_accounts@, token_key(), account);
            lemma_key_map_push(self.token_accounts@, token_key(), account);
        }
        self.token_accounts.push(account);
        proof {
            assert(self@.tokens =~= old(self)@.tokens.insert(account.id, account));
        }
    }

    fn remove_token_at(&mut self, i: usize)
        requires
            old(self).wf(),
            i < old(self).token_accounts@.len(),
        ensures
            final(self).wf(),
            final(self)@.tokens == old(self)@.tokens.remove(
                old(self).token_accounts@[i as int].id,
            ),
            final(self).wallets@ == old(self).wallets@,
            final(self)@.wallets == old(self)@.wallets,
    {
        proof {
            lemma_key_map_remove(self.token_accounts@, token_key(), i as int);
            lemma_unique_keys_remove(self.token_accounts@, token_key(), i as int);
        }
        let _ = self.token_accounts.remove(i);
    }

    fn replace_wallet_at(&mut self, i: usize, wallet: Wallet)
        requires
            old(self).wf(),
            i < old(self).wallets@.len(),
            wallet.id == old(self).wallets@[i as int].id,
        ensures
            final(self).wf(),
            final(self)@.wallets == old(self)@.wallets.insert(wallet.id, wallet),
            final(self).token_accounts@ == old(self).token_accounts@,
            final(self)@.tokens == old(self)@.tokens,
    {
        proof {
            lemma_key_map_remove(self.wallets@, wallet_key(), i as int);
            lemma_unique_keys_remove(self.wallets@, wallet_key(), i as int);
        }
        let _ = self.wallets.remove(i);
        proof {
            lemma_unique_keys_push(self.wallets@, wallet_key(), wallet);
            lemma_key_map_push(self.wallets@, wallet_key(), wallet);
        }
        self.wallets.push(wallet);
        proof {
            assert(self@.wallets =~= old(self)@.wallets.insert(wallet.id, wallet));
        }
    }

    /// Moves `amount` from `accounts.from` to `accounts.to`, authorized by
    /// `accounts.authority`; all-or-nothing, exactly as `spec_transfer` says.
    pub fn transfer(&mut self, accounts: &TransferAccounts, amount: u64) -> (r: Result<
        (),
        LedgerError,
    >)
        requires
            old(self).wf(),
        ensures
            final(self).wf(),
            match r {
                Ok(()) => spec_transfer(old(self)@, *accounts, amount) == Ok::<
                    LedgerModel,
                    LedgerError,
                >(final(self)@),
                Err(e) => *final(self) == *old(self) && spec_transfer(old(self)@, *accounts, amount)
                    == Err::<LedgerModel, LedgerError>(e),
            },
    {
        let from_i = match self.find_token_index(&accounts.from) {
            Some(i) => i,
            None => {
                return Err(LedgerError::MissingAccount);
            },
        };
        let to_i = match self.find_token_index(&accounts.to) {
            Some(i) => i,
            None => {
                return Err(LedgerError::MissingAccount);
            },
        };
        let from_account = self.token_accounts[from_i];
        if from_account.authority != accounts.authority {
            return Err(LedgerError::AuthorityMismatch);
        }
        if from_account.balance < amount {
            return Err(LedgerError::InsufficientBalance);
        }
        if accounts.from == accounts.to {
            return Ok(());
        }
        let to_account = self.token_accounts[to_i];
        if to_account.balance > u64::MAX - amount {
            return Err(LedgerError::BalanceOverflow);
        }
        let debited = TokenAccount {
            id: from_account.id,
            authority: from_account.authority,
            balance: from_account.balance - amount,
            lamports: from_account.lamports,
        };
        let credited = TokenAccount {
            id: to_account.id,
            authority: to_account.authority,
            balance: to_account.balance + amount,
            lamports: to_account.lamports,
        };
        self.replace_token_at(from_i, debited);
        // the debit touched a different identifier, so the destination is
        // still present and this lookup cannot fail
        let to_i2 = match self.find_token_index(&accounts.to) {
            Some(i) => i,
            None => {
                proof {
                    assert(false);
                }
                return Err(LedgerError::MissingAccount);
            },
        };
        self.replace_token_at(to_i2, credited);
        proof {
            let ghost expected = LedgerModel {
                tokens: old(self)@.tokens.insert(accounts.from, debited).insert(
                    accounts.to,
                    credited,
                ),
                wallets: old(self)@.wallets,
            };
            assert(self@ =~= expected);
        }
        Ok(())
    }

    /// Reassigns the controlling authority of a token account, authorized by
    /// its current authority; exactly as `spec_set_authority` says.
    pub fn set_authority(
        &mut self,
        accounts: &SetAuthorityAccounts,
        new_authority: &AccountId,
    ) -> (r: Result<(), LedgerError>)
        requires
            old(self).wf(),
        ensures
            final(self).wf(),
            match r {
                Ok(()) => spec_set_authority(old(self)@, *accounts, *new_authority) == Ok::<
                    LedgerModel,
                    LedgerError,
                >(final(self)@),
                Err(e) => *final(self) == *old(self) && spec_set_authority(
                    old(self)@,
                    *accounts,
                    *new_authority,
                ) == Err::<LedgerModel, LedgerError>(e),
            },
    {
        let i = match self.find_token_index(&accounts.account_or_mint) {
            Some(i) => i,
            None => {
                return Err(LedgerError::MissingAccount);
            },
        };
        let account = self.token_accounts[i];
        if account.authority != accounts.current_authority {
            return Err(LedgerError::AuthorityMismatch);
        }
        let updated = TokenAccount {
            id: account.id,
            authority: *new_authority,
            balance: account.balance,
            lamports: account.lamports,
        };
        self.replace_token_at(i, updated);
        proof {
            let ghost expected = LedgerModel {
                tokens: old(self)@.tokens.insert(accounts.account_or_mint, updated),
                wallets: old(self)@.wallets,
            };
            assert(self@ =~= expected);
        }
        Ok(())
    }

    /// Removes an emptied token account, reclaiming its storage cost to the
    /// destination wallet; exactly as `spec_close_account` says.
    pub fn close_account(&mut self, accounts: &CloseAccounts) -> (r: Result<(), LedgerError>)
        requires
            old(self).wf(),
        ensures
            final(self).wf(),
            match r {
                Ok(()) => spec_close_account(old(self)@, *accounts) == Ok::<
                    LedgerModel,
                    LedgerError,
                >(final(self)@),
                Err(e) => *final(self) == *old(self) && spec_close_account(old(self)@, *accounts)
                    == Err::<LedgerModel, LedgerError>(e),
            },
    {
        let i = match self.find_token_index(&accounts.account) {
            Some(i) => i,
            None => {
                return Err(LedgerError::MissingAccount);
            },
        };
        let account = self.token_accounts[i];
        if account.authority != accounts.authority {
            return Err(LedgerError::AuthorityMismatch);
        }
        if account.balance != 0 {
            return Err(LedgerError::NonZeroBalance);
        }
        let wi = match self.find_wallet_index(&accounts.destination) {
            Some(w) => w,
            None => {
                return Err(LedgerError::MissingAccount);
            },
        };
        let wallet = self.wallets[wi];
        if wallet.lamports > u64::MAX - account.lamports {
            return Err(LedgerError::BalanceOverflow);
        }
        self.remove_token_at(i);
        let updated_wallet = Wallet { id: wallet.id, lamports: wallet.lamports + account.lamports };
        self.replace_wallet_at(wi, updated_wallet);
        proof {
            let ghost expected = LedgerModel {
                tokens: old(self)@.tokens.remove(accounts.account),
                wallets: old(self)@.wallets.insert(accounts.destination, updated_wallet),
            };
            assert(self@ =~= expected);
        }
        Ok(())
    }

    /// Credits a wallet with a reclaimed storage cost; exactly as
    /// `spec_credit_lamports` says.
    pub fn credit_lamports(&mut self, id: &AccountId, amount: u64) -> (r: Result<
        (),
        LedgerError,
    >)
        requires
            old(self).wf(),
        ensures
            final(self).wf(),
            match r {
                Ok(()) => spec_credit_lamports(old(self)@, *id, amount) == Ok::<
                    LedgerModel,
                    LedgerError,
                >(final(self)@),
                Err(e) => *final(self) == *old(self) && spec_credit_lamports(
                    old(self)@,
                    *id,
                    amount,
                ) == Err::<LedgerModel, LedgerError>(e),
            },
    {
        let wi = match self.find_wallet_index(id) {
            Some(w) => w,
            None => {
                return Err(LedgerError::MissingAccount);
            },
        };
        let wallet = self.wallets[wi];
        if wallet.lamports > u64::MAX - amount {
            return Err(LedgerError::BalanceOverflow);
        }
        let updated = Wallet { id: wallet.id, lamports: wallet.lamports + amount };
        self.replace_wallet_at(wi, updated);
        proof {
            let ghost expected = LedgerModel {
                tokens: old(self)@.tokens,
                wallets: old(self)@.wallets.insert(*id, updated),
            };
            assert(self@ =~= expected);
        }
        Ok(())
    }

    /// Pays a storage cost out of a wallet; exactly as
    /// `spec_debit_lamports` says.
    pub fn debit_lamports(&mut self, id: &AccountId, amount: u64) -> (r: Result<(), LedgerError>)
        requires
            old(self).wf(),
        ensures
            final(self).wf(),
            match r {
                Ok(()) => spec_debit_lamports(old(self)@, *id, amount) == Ok::<
                    LedgerModel,
                    LedgerError,
                >(final(self)@),
                Err(e) => *final(self) == *old(self) && spec_debit_lamports(
                    old(self)@,
                    *id,
                    amount,
                ) == Err::<LedgerModel, LedgerError>(e),
            },
    {
        let wi = match self.find_wallet_index(id) {
            Some(w) => w,
            None => {
                return Err(LedgerError::MissingAccount);
            },
        };
        let wallet = self.wallets[wi];
        if wallet.lamports < amount {
            return Err(LedgerError::InsufficientBalance);
        }
        let updated = Wallet { id: wallet.id, lamports: wallet.lamports - amount };
        self.replace_wallet_at(wi, updated);
        proof {
            let ghost expected = LedgerModel {
                tokens: old(self)@.tokens,
                wallets: old(self)@.wallets.insert(*id, updated),
            };
            assert(self@ =~= expected);
        }
        Ok(())
    }

    /// Adds a token account under a fresh identifier.
    pub fn create_token_account(
        &mut self,
        id: &AccountId,
        authority: &AccountId,
        balance: u64,
        lamports: u64,
    ) -> (r: Result<(), LedgerError>)
        requires
            old(self).wf(),
        ensures
            final(self).wf(),
            match r {
                Ok(()) => !old(self)@.tokens.contains_key(*id) && final(self)@ == (LedgerModel {
                    tokens: old(self)@.tokens.insert(
                        *id,
                        TokenAccount { id: *id, authority: *authority, balance, lamports },
                    ),
                    wallets: old(self)@.wallets,
                }),
                Err(e) => *final(self) == *old(self) && e == LedgerError::AccountExists && old(
                    self,
                )@.tokens.contains_key(*id),
            },
    {
        match self.find_token_index(id) {
            Some(_) => Err(LedgerError::AccountExists),
            None => {
                let account = TokenAccount {
                    id: *id,
                    authority: *authority,
                    balance,
                    lamports,
                };
                proof {
                    lemma_unique_keys_push(self.token_accounts@, token_key(), account);
                    lemma_key_map_push(self.token_accounts@, token_key(), account);
                }
                self.token_accounts.push(account);
                proof {
                    assert(self@ =~= (LedgerModel {
                        tokens: old(self)@.tokens.insert(*id, account),
                        wallets: old(self)@.wallets,
                    }));
                }
                Ok(())
            },
        }
    }

    /// Adds a wallet under a fresh identifier.
    pub fn create_wallet(&mut self, id: &AccountId, lamports: u64) -> (r: Result<
        (),
        LedgerError,
    >)
        requires
            old(self).wf(),
        ensures
            final(self).wf(),
            match r {
                Ok(()) => !old(self)@.wallets.contains_key(*id) && final(self)@ == (LedgerModel {
                    tokens: old(self)@.tokens,
                    wallets: old(self)@.wallets.insert(*id, Wallet { id: *id, lamports }),
                }),
                Err(e) => *final(self) == *old(self) && e == LedgerError::AccountExists && old(
                    self,
                )@.wallets.contains_key(*id),
            },
    {
        match self.find_wallet_index(id) {
            Some(_) => Err(LedgerError::AccountExists),
            None => {
                let wallet = Wallet { id: *id, lamports };
                proof {
                    lemma_unique_keys_push(self.wallets@, wallet_key(), wallet);
                    lemma_key_map_push(self.wallets@, wallet_key(), wallet);
                }
                self.wallets.push(wallet);
                proof {
                    assert(self@ =~= (LedgerModel {
                        tokens: old(self)@.tokens,
                        wallets: old(self)@.wallets.insert(*id, wallet),
                    }));
                }
                Ok(())
            },
        }
    }
}

} // verus!
