use tofu_tokenizer::account_id::AccountId;
use tofu_tokenizer::errors::EscrowError;
use tofu_tokenizer::exchange::{check_expected_amount, exchange, Exchange, ExchangeError};
use tofu_tokenizer::initialize::{initialize, Initialize};
use tofu_tokenizer::ledger::{Ledger, LedgerError};
use tofu_tokenizer::tokenizer::TokenizerAccount;

fn id(b: u8) -> AccountId {
    AccountId { bytes: [b; 32] }
}

const PROGRAM_ID: u8 = 9;
const INITIALIZER: u8 = 1;
const CUSTODY: u8 = 2;
const INIT_RECV: u8 = 3;
const TAKER: u8 = 4;
const TAKER_SENDING: u8 = 5;
const TAKER_RECV: u8 = 6;

/// Initializer wallet 1000 lamports; custody holds 100 units of asset A;
/// taker's source holds 80 units of asset B; record demands 50 of B.
fn setup() -> (Ledger, Option<TokenizerAccount>) {
    let mut ledger = Ledger::new();
    ledger.create_wallet(&id(INITIALIZER), 1000).unwrap();
    ledger
        .create_token_account(&id(CUSTODY), &id(INITIALIZER), 100, 25)
        .unwrap();
    ledger
        .create_token_account(&id(INIT_RECV), &id(INITIALIZER), 0, 20)
        .unwrap();
    ledger
        .create_token_account(&id(TAKER_SENDING), &id(TAKER), 80, 20)
        .unwrap();
    ledger
        .create_token_account(&id(TAKER_RECV), &id(TAKER), 0, 20)
        .unwrap();
    (ledger, None)
}

fn init_accounts() -> Initialize {
    Initialize {
        initializer: id(INITIALIZER),
        temp_token_account: id(CUSTODY),
        token_to_receive_account: id(INIT_RECV),
    }
}

fn initialized() -> (Ledger, Option<TokenizerAccount>, AccountId) {
    let (mut ledger, mut slot) = setup();
    initialize(&mut ledger, &mut slot, &init_accounts(), 50, 30, &id(PROGRAM_ID)).unwrap();
    let pda = ledger.token_authority(&id(CUSTODY)).unwrap();
    (ledger, slot, pda)
}

fn exchange_accounts(pda: AccountId) -> Exchange {
    Exchange {
        taker: id(TAKER),
        takers_sending_token_account: id(TAKER_SENDING),
        takers_token_to_receive_account: id(TAKER_RECV),
        pdas_temp_token_account: id(CUSTODY),
        initializers_main_account: id(INITIALIZER),
        initializers_token_to_receive_account: id(INIT_RECV),
        pda_account: pda,
    }
}

#[test]
fn initialize_creates_initialized_record() {
    let (ledger, slot, pda) = initialized();
    let account = slot.expect("record must exist");
    assert!(account.record.is_initialized);
    assert_eq!(account.record.initializer_pubkey, id(INITIALIZER));
    assert_eq!(account.record.temp_token_account_pubkey, id(CUSTODY));
    assert_eq!(
        account.record.initializer_token_to_receive_account_pubkey,
        id(INIT_RECV)
    );
    assert_eq!(account.record.expected_amount, 50);
    assert_eq!(account.lamports, 30);
    // custody no longer answers to the initializer
    assert_ne!(pda, id(INITIALIZER));
    // the record's storage cost was paid by the initializer
    assert_eq!(ledger.wallet_lamports(&id(INITIALIZER)), Some(970));
}

#[test]
fn derived_authority_matches_the_program_derivation() {
    let (_, _, pda) = initialized();
    let program = solana_program::pubkey::Pubkey::new_from_array([PROGRAM_ID; 32]);
    let (expected, _bump) =
        solana_program::pubkey::Pubkey::find_program_address(&[b"tokenizer"], &program);
    assert_eq!(pda.bytes, expected.to_bytes());
    assert_ne!(pda, id(PROGRAM_ID));
}

#[test]
fn derived_authority_is_deterministic() {
    let (_, _, pda_one) = initialized();
    let (_, _, pda_two) = initialized();
    assert_eq!(pda_one, pda_two);
}

#[test]
fn reinitialize_fails_with_already_initialized() {
    let (mut ledger, mut slot, _) = initialized();
    let before = slot;
    let r = initialize(&mut ledger, &mut slot, &init_accounts(), 75, 30, &id(PROGRAM_ID));
    assert_eq!(r, Err(EscrowError::AlreadyInitialized));
    // the record is unchanged
    let (before, after) = (before.unwrap(), slot.unwrap());
    assert_eq!(before.record.expected_amount, after.record.expected_amount);
    assert_eq!(before.lamports, after.lamports);
    assert_eq!(ledger.wallet_lamports(&id(INITIALIZER)), Some(970));
}

#[test]
fn initialize_rejects_receiving_account_outside_the_ledger() {
    let (mut ledger, mut slot) = setup();
    let accounts = Initialize {
        initializer: id(INITIALIZER),
        temp_token_account: id(CUSTODY),
        token_to_receive_account: id(77),
    };
    let r = initialize(&mut ledger, &mut slot, &accounts, 50, 30, &id(PROGRAM_ID));
    assert_eq!(r, Err(EscrowError::IncorrectCounterpartyAssetAccount));
    assert!(slot.is_none());
    assert_eq!(ledger.token_authority(&id(CUSTODY)), Some(id(INITIALIZER)));
}

#[test]
fn initialize_rejects_custody_not_released_by_its_authority() {
    let (mut ledger, mut slot) = setup();
    let accounts = Initialize {
        initializer: id(TAKER),
        temp_token_account: id(CUSTODY),
        token_to_receive_account: id(INIT_RECV),
    };
    // the taker does not control the custody account
    let r = initialize(&mut ledger, &mut slot, &accounts, 50, 30, &id(PROGRAM_ID));
    assert_eq!(r, Err(EscrowError::Ledger(LedgerError::AuthorityMismatch)));
    assert!(slot.is_none());
}

#[test]
fn initialize_rejects_unfunded_rent_payer() {
    let (mut ledger, mut slot) = setup();
    let r = initialize(&mut ledger, &mut slot, &init_accounts(), 50, 5000, &id(PROGRAM_ID));
    assert_eq!(r, Err(EscrowError::Ledger(LedgerError::InsufficientBalance)));
    assert!(slot.is_none());
    assert_eq!(ledger.token_authority(&id(CUSTODY)), Some(id(INITIALIZER)));
    assert_eq!(ledger.wallet_lamports(&id(INITIALIZER)), Some(1000));
}

#[test]
fn full_trade_settles_both_sides() {
    let (mut ledger, mut slot, pda) = initialized();
    let r = exchange(&mut ledger, &mut slot, &exchange_accounts(pda), 100, &id(PROGRAM_ID));
    assert_eq!(r, Ok(()));
    // initializer received 50 units of asset B
    assert_eq!(ledger.token_balance(&id(INIT_RECV)), Some(50));
    // taker received the full 100 units of asset A
    assert_eq!(ledger.token_balance(&id(TAKER_RECV)), Some(100));
    // taker paid 50 units of asset B
    assert_eq!(ledger.token_balance(&id(TAKER_SENDING)), Some(30));
    // custody account is closed
    assert!(!ledger.has_token_account(&id(CUSTODY)));
    // the record is destroyed
    assert!(slot.is_none());
    // the initializer reclaimed both storage costs: 970 + 25 + 30
    assert_eq!(ledger.wallet_lamports(&id(INITIALIZER)), Some(1025));
}

#[test]
fn wrong_claimed_amount_fails_and_changes_nothing() {
    let (mut ledger, mut slot, pda) = initialized();
    let r = exchange(&mut ledger, &mut slot, &exchange_accounts(pda), 99, &id(PROGRAM_ID));
    assert_eq!(r, Err(EscrowError::ExpectedAmountMismatch));
    assert_eq!(ledger.token_balance(&id(CUSTODY)), Some(100));
    assert_eq!(ledger.token_balance(&id(TAKER_SENDING)), Some(80));
    assert_eq!(ledger.token_balance(&id(TAKER_RECV)), Some(0));
    assert_eq!(ledger.token_balance(&id(INIT_RECV)), Some(0));
    assert!(slot.is_some());
}

#[test]
fn mismatched_custody_account_fails() {
    let (mut ledger, mut slot, pda) = initialized();
    let mut accounts = exchange_accounts(pda);
    accounts.pdas_temp_token_account = id(TAKER_RECV);
    let r = exchange(&mut ledger, &mut slot, &accounts, 100, &id(PROGRAM_ID));
    assert_eq!(r, Err(EscrowError::InvalidAccountData));
    assert_eq!(ledger.token_balance(&id(CUSTODY)), Some(100));
    assert!(slot.is_some());
}

#[test]
fn mismatched_initializer_account_fails() {
    let (mut ledger, mut slot, pda) = initialized();
    let mut accounts = exchange_accounts(pda);
    accounts.initializers_main_account = id(TAKER);
    let r = exchange(&mut ledger, &mut slot, &accounts, 100, &id(PROGRAM_ID));
    assert_eq!(r, Err(EscrowError::InvalidAccountData));
    assert_eq!(ledger.token_balance(&id(CUSTODY)), Some(100));
    assert!(slot.is_some());
}

#[test]
fn mismatched_receiving_account_fails() {
    let (mut ledger, mut slot, pda) = initialized();
    let mut accounts = exchange_accounts(pda);
    accounts.initializers_token_to_receive_account = id(TAKER_SENDING);
    let r = exchange(&mut ledger, &mut slot, &accounts, 100, &id(PROGRAM_ID));
    assert_eq!(r, Err(EscrowError::InvalidAccountData));
    assert_eq!(ledger.token_balance(&id(CUSTODY)), Some(100));
    assert!(slot.is_some());
}

#[test]
fn replayed_exchange_fails() {
    let (mut ledger, mut slot, pda) = initialized();
    exchange(&mut ledger, &mut slot, &exchange_accounts(pda), 100, &id(PROGRAM_ID)).unwrap();
    let lamports_after = ledger.wallet_lamports(&id(INITIALIZER));
    let r = exchange(&mut ledger, &mut slot, &exchange_accounts(pda), 100, &id(PROGRAM_ID));
    assert_eq!(r, Err(EscrowError::RecordMissing));
    assert_eq!(ledger.wallet_lamports(&id(INITIALIZER)), lamports_after);
    assert_eq!(ledger.token_balance(&id(TAKER_RECV)), Some(100));
}

#[test]
fn forged_authority_fails() {
    let (mut ledger, mut slot, _) = initialized();
    let mut accounts = exchange_accounts(id(TAKER));
    accounts.pda_account = id(TAKER);
    let r = exchange(&mut ledger, &mut slot, &accounts, 100, &id(PROGRAM_ID));
    assert_eq!(r, Err(EscrowError::Ledger(LedgerError::AuthorityMismatch)));
    assert_eq!(ledger.token_balance(&id(CUSTODY)), Some(100));
    assert_eq!(ledger.token_balance(&id(TAKER_SENDING)), Some(80));
    assert!(slot.is_some());
}

#[test]
fn underfunded_taker_fails_atomically() {
    let (mut ledger, mut slot) = setup();
    initialize(&mut ledger, &mut slot, &init_accounts(), 200, 30, &id(PROGRAM_ID)).unwrap();
    let pda = ledger.token_authority(&id(CUSTODY)).unwrap();
    // the record demands 200 of asset B but the taker holds only 80
    let r = exchange(&mut ledger, &mut slot, &exchange_accounts(pda), 100, &id(PROGRAM_ID));
    assert_eq!(r, Err(EscrowError::Ledger(LedgerError::InsufficientBalance)));
    assert_eq!(ledger.token_balance(&id(TAKER_SENDING)), Some(80));
    assert_eq!(ledger.token_balance(&id(CUSTODY)), Some(100));
    assert!(slot.is_some());
}

#[test]
fn custody_aliased_as_takers_destination_fails_atomically() {
    let (mut ledger, mut slot, pda) = initialized();
    let mut accounts = exchange_accounts(pda);
    // asset A would go custody-to-custody, leaving it non-empty at teardown
    accounts.takers_token_to_receive_account = id(CUSTODY);
    let r = exchange(&mut ledger, &mut slot, &accounts, 100, &id(PROGRAM_ID));
    assert_eq!(r, Err(EscrowError::Ledger(LedgerError::NonZeroBalance)));
    // the taker's payment of step one was rolled back with everything else
    assert_eq!(ledger.token_balance(&id(TAKER_SENDING)), Some(80));
    assert_eq!(ledger.token_balance(&id(INIT_RECV)), Some(0));
    assert_eq!(ledger.token_balance(&id(CUSTODY)), Some(100));
    assert!(slot.is_some());
}

#[test]
fn check_expected_amount_demands_exact_equality() {
    assert_eq!(check_expected_amount(100, 100), Ok(()));
    assert_eq!(
        check_expected_amount(99, 100),
        Err(ExchangeError::ExpectedAmountMismatch)
    );
    assert_eq!(
        check_expected_amount(101, 100),
        Err(ExchangeError::ExpectedAmountMismatch)
    );
}

#[test]
fn context_methods_name_the_right_accounts() {
    let accounts = exchange_accounts(id(8));
    let to_initializer = accounts.into_transfer_to_initializer_context();
    assert_eq!(to_initializer.from, id(TAKER_SENDING));
    assert_eq!(to_initializer.to, id(INIT_RECV));
    assert_eq!(to_initializer.authority, id(TAKER));
    let to_taker = accounts.into_transfer_to_taker_context();
    assert_eq!(to_taker.from, id(CUSTODY));
    assert_eq!(to_taker.to, id(TAKER_RECV));
    assert_eq!(to_taker.authority, id(8));
    let close = accounts.into_close_temp_token_context();
    assert_eq!(close.account, id(CUSTODY));
    assert_eq!(close.destination, id(INITIALIZER));
    assert_eq!(close.authority, id(8));
    let set_authority = init_accounts().into_set_authority_context();
    assert_eq!(set_authority.account_or_mint, id(CUSTODY));
    assert_eq!(set_authority.current_authority, id(INITIALIZER));
}
