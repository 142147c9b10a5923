use multisig_treasury::batch::{process_batch_transfer, BatchState, BatchTransfer};
use multisig_treasury::codec::parse_init_batch_state;
use multisig_treasury::errors::TreasuryError;
use multisig_treasury::keys::Pubkey;

fn key(n: u8) -> Pubkey {
    [n; 32]
}

const CREATOR: Pubkey = [1u8; 32];
const MINT: Pubkey = [2u8; 32];
const RECIPIENT_1: Pubkey = [3u8; 32];
const RECIPIENT_2: Pubkey = [4u8; 32];
const BATCH_ID: u64 = 1;

fn two_recipient_batch(amount_per_recipient: u64) -> (BatchState, BatchTransfer) {
    let state = BatchState::initialize_batch_state(BATCH_ID, CREATOR, MINT, 2, 255);
    let mut transfer = BatchTransfer::new(BATCH_ID, amount_per_recipient);
    transfer.add_recipient(RECIPIENT_1).unwrap();
    transfer.add_recipient(RECIPIENT_2).unwrap();
    (state, transfer)
}

#[test]
fn test_process_batch_transfer() {
    // Two recipients at 1000 each, both accounts supplied: the call
    // succeeds and the batch completes.
    let (mut state, transfer) = two_recipient_batch(1000);
    let provided = vec![RECIPIENT_1, RECIPIENT_2];
    process_batch_transfer(&mut state, &transfer, &provided, &CREATOR, &MINT).unwrap();
    assert_eq!(state.processed_count, 2);
    assert_eq!(state.is_completed, 1);
    assert_eq!(transfer.total_amount_needed(), 2000);
}

#[test]
fn test_process_batch_transfer_with_existing_recipient_accounts() {
    // Same batch at 500 each; recipient accounts that already exist are
    // supplied just the same and the call succeeds.
    let (mut state, transfer) = two_recipient_batch(500);
    let provided = vec![RECIPIENT_1, RECIPIENT_2];
    process_batch_transfer(&mut state, &transfer, &provided, &CREATOR, &MINT).unwrap();
    assert_eq!(state.processed_count, 2);
    assert_eq!(state.is_completed, 1);
    assert_eq!(transfer.total_amount_needed(), 1000);
}

#[test]
fn test_process_batch_transfer_insufficient_accounts() {
    // The caller supplies no recipient accounts: the call is rejected and
    // the batch does not advance.
    let (mut state, transfer) = two_recipient_batch(1000);
    let provided: Vec<Pubkey> = Vec::new();
    let r = process_batch_transfer(&mut state, &transfer, &provided, &CREATOR, &MINT);
    assert_eq!(r.unwrap_err(), TreasuryError::InvalidAccountData);
    assert_eq!(state.processed_count, 0);
    assert_eq!(state.is_completed, 0);
}

#[test]
fn test_process_batch_transfer_invalid_instruction_data() {
    // A zeroed batch record, as an uninitialized account would read, does
    // not match the caller and the call is rejected.
    let mut state = BatchState::initialize_batch_state(0, key(0), key(0), 0, 0);
    let transfer = BatchTransfer::new(BATCH_ID, 1000);
    let provided: Vec<Pubkey> = Vec::new();
    let r = process_batch_transfer(&mut state, &transfer, &provided, &CREATOR, &MINT);
    assert_eq!(r.unwrap_err(), TreasuryError::InvalidAccountData);
}

#[test]
fn test_process_initialize_batch_transfer() {
    // The 9-byte initialization payload carries the batch id and the
    // recipient count; a fresh record starts with nothing processed.
    let mut data = vec![0u8; 16];
    data[0..8].copy_from_slice(&BATCH_ID.to_le_bytes());
    data[8] = 2;
    let args = parse_init_batch_state(&data).unwrap();
    assert_eq!(args.batch_id, BATCH_ID);
    assert_eq!(args.total_recipients, 2);
    let state =
        BatchState::initialize_batch_state(args.batch_id, CREATOR, MINT, args.total_recipients, 7);
    assert_eq!(state.batch_id, BATCH_ID);
    assert_eq!(state.authority, CREATOR);
    assert_eq!(state.mint, MINT);
    assert_eq!(state.total_recipients, 2);
    assert_eq!(state.processed_count, 0);
    assert_eq!(state.is_completed, 0);
    assert_eq!(state.bump, 7);
}

#[test]
fn test_completed_batch_rejects_further_calls() {
    // After the first call processes both recipients the batch is complete;
    // a repeated call is rejected and nothing changes.
    let (mut state, transfer) = two_recipient_batch(1000);
    let provided = vec![RECIPIENT_1, RECIPIENT_2];
    process_batch_transfer(&mut state, &transfer, &provided, &CREATOR, &MINT).unwrap();
    assert_eq!(state.processed_count, state.total_recipients);
    assert_eq!(state.is_completed, 1);
    let r = process_batch_transfer(&mut state, &transfer, &provided, &CREATOR, &MINT);
    assert_eq!(r.unwrap_err(), TreasuryError::BatchAlreadyCompleted);
    assert_eq!(state.processed_count, 2);
}

#[test]
fn test_batch_transfer_wrong_authority_or_mint() {
    let (mut state, transfer) = two_recipient_batch(1000);
    let provided = vec![RECIPIENT_1, RECIPIENT_2];
    let r = process_batch_transfer(&mut state, &transfer, &provided, &key(9), &MINT);
    assert_eq!(r.unwrap_err(), TreasuryError::InvalidAccountData);
    let r = process_batch_transfer(&mut state, &transfer, &provided, &CREATOR, &key(9));
    assert_eq!(r.unwrap_err(), TreasuryError::InvalidAccountData);
}

#[test]
fn test_batch_transfer_overshoot_is_rejected() {
    // A transfer record naming more recipients than the batch has left is
    // rejected up front.
    let state0 = BatchState::initialize_batch_state(BATCH_ID, CREATOR, MINT, 1, 255);
    let mut state = state0;
    let mut transfer = BatchTransfer::new(BATCH_ID, 1000);
    transfer.add_recipient(RECIPIENT_1).unwrap();
    transfer.add_recipient(RECIPIENT_2).unwrap();
    let provided = vec![RECIPIENT_1, RECIPIENT_2];
    let r = process_batch_transfer(&mut state, &transfer, &provided, &CREATOR, &MINT);
    assert_eq!(r.unwrap_err(), TreasuryError::InvalidAccountData);
    assert_eq!(state.processed_count, 0);
}

#[test]
fn test_add_recipient_caps_at_ten() {
    let mut transfer = BatchTransfer::new(BATCH_ID, 10);
    for i in 0..10u8 {
        transfer.add_recipient(key(50 + i)).unwrap();
    }
    let r = transfer.add_recipient(key(99));
    assert_eq!(r.unwrap_err(), TreasuryError::InvalidInstructionData);
    assert_eq!(transfer.num_recipients, 10);
    assert_eq!(transfer.get_active_recipients().len(), 10);
}

#[test]
fn test_total_amount_needed_saturates() {
    let mut transfer = BatchTransfer::new(BATCH_ID, u64::MAX);
    transfer.add_recipient(RECIPIENT_1).unwrap();
    transfer.add_recipient(RECIPIENT_2).unwrap();
    assert_eq!(transfer.total_amount_needed(), u64::MAX);
}

#[test]
fn test_increment_processed_marks_completion() {
    let mut state = BatchState::initialize_batch_state(BATCH_ID, CREATOR, MINT, 2, 255);
    assert!(!state.is_completed());
    state.increment_processed();
    assert_eq!(state.processed_count, 1);
    assert!(!state.is_completed());
    state.increment_processed();
    assert_eq!(state.processed_count, 2);
    assert!(state.is_completed());
}

#[test]
fn test_validate_authority_and_mint() {
    let state = BatchState::initialize_batch_state(BATCH_ID, CREATOR, MINT, 2, 255);
    assert!(state.validate_authority(&CREATOR).is_ok());
    assert_eq!(
        state.validate_authority(&key(9)).unwrap_err(),
        TreasuryError::InvalidAccountData
    );
    assert!(state.validate_mint(&MINT).is_ok());
    assert_eq!(
        state.validate_mint(&key(9)).unwrap_err(),
        TreasuryError::InvalidAccountData
    );
}
