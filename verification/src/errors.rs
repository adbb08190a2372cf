//! The failures the escrow operations can report.

use vstd::prelude::*;
use crate::ledger::LedgerError;

verus! {

/// Why an initialize or exchange call was rejected.  Every failure is
/// detected before any mutation, so a rejected call changes nothing.
#[derive(Clone, Copy, Debug, PartialEq, Eq, Structural)]
pub enum EscrowError {
    /// The target record slot already holds an initialized record.
    AlreadyInitialized,
    /// The account named to receive the counter-asset is not a token
    /// account of the ledger.
    IncorrectCounterpartyAssetAccount,
    /// A presented account identifier does not match the record.
    InvalidAccountData,
    /// The taker's claimed amount does not equal the custody balance.
    ExpectedAmountMismatch,
    /// The record slot is empty: the trade was never set up, or has
    /// already completed.
    RecordMissing,
    /// No derived authority exists for this program identity.
    DerivedAuthorityUnavailable,
    /// A ledger primitive rejected the operation.
    Ledger(LedgerError),
}

} // verus!
