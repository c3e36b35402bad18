use custody_ledger::LedgerError;
use custody_ledger::TransferInstruction;
use custody_ledger::account::CustodyAccount;
use custody_ledger::codec::{read_counter, write_counter};
use custody_ledger::instruction::decode_instruction;
use custody_ledger::processor::{deposit, process_instruction, withdraw};

const PROGRAM_ID: u64 = 9;
const RENT_MINIMUM: u64 = 50;

fn fresh_account() -> CustodyAccount {
    CustodyAccount { owner_program: 0, held_balance: 0, data: Vec::new() }
}

fn payer_with(balance: u64) -> CustodyAccount {
    CustodyAccount { owner_program: 0, held_balance: balance, data: Vec::new() }
}

fn custody_with(counter: u64, held_balance: u64) -> CustodyAccount {
    CustodyAccount {
        owner_program: PROGRAM_ID,
        held_balance,
        data: counter.to_le_bytes().to_vec(),
    }
}

#[test]
fn fresh_deposit_records_amount() {
    let mut payer = payer_with(1000);
    let mut account = fresh_account();
    let r = deposit(PROGRAM_ID, &mut payer, &mut account, RENT_MINIMUM, 100);
    assert_eq!(r, Ok(()));
    assert_eq!(read_counter(&account.data), 100);
    assert_eq!(account.held_balance, RENT_MINIMUM + 100);
    assert_eq!(account.owner_program, PROGRAM_ID);
    assert_eq!(payer.held_balance, 1000 - RENT_MINIMUM - 100);
}

#[test]
fn sequential_deposits_accumulate() {
    let mut payer = payer_with(1000);
    let mut account = fresh_account();
    assert_eq!(deposit(PROGRAM_ID, &mut payer, &mut account, RENT_MINIMUM, 100), Ok(()));
    assert_eq!(deposit(PROGRAM_ID, &mut payer, &mut account, RENT_MINIMUM, 25), Ok(()));
    assert_eq!(read_counter(&account.data), 125);
    assert_eq!(account.held_balance, RENT_MINIMUM + 125);
}

#[test]
fn deposit_zero_amount_still_allocates() {
    let mut payer = payer_with(1000);
    let mut account = fresh_account();
    assert_eq!(deposit(PROGRAM_ID, &mut payer, &mut account, RENT_MINIMUM, 0), Ok(()));
    assert_eq!(read_counter(&account.data), 0);
    assert_eq!(account.data.len(), 8);
    assert_eq!(account.held_balance, RENT_MINIMUM);
    assert_eq!(account.owner_program, PROGRAM_ID);
}

#[test]
fn allocation_fails_without_rent_funding() {
    let mut payer = payer_with(RENT_MINIMUM - 1);
    let mut account = fresh_account();
    let r = deposit(PROGRAM_ID, &mut payer, &mut account, RENT_MINIMUM, 0);
    assert_eq!(r, Err(LedgerError::AllocationError));
    assert_eq!(payer.held_balance, RENT_MINIMUM - 1);
    assert_eq!(account.held_balance, 0);
    assert!(account.data.is_empty());
}

#[test]
fn allocation_fails_on_claimed_address() {
    let mut payer = payer_with(1000);
    let mut account = CustodyAccount { owner_program: 4, held_balance: 0, data: Vec::new() };
    let r = deposit(PROGRAM_ID, &mut payer, &mut account, RENT_MINIMUM, 10);
    assert_eq!(r, Err(LedgerError::AllocationError));
    assert_eq!(payer.held_balance, 1000);
    assert_eq!(account.owner_program, 4);
    assert!(account.data.is_empty());
}

#[test]
fn transfer_error_leaves_counter_untouched() {
    let mut payer = payer_with(5);
    let mut account = custody_with(70, 120);
    let r = deposit(PROGRAM_ID, &mut payer, &mut account, RENT_MINIMUM, 6);
    assert_eq!(r, Err(LedgerError::TransferError));
    assert_eq!(read_counter(&account.data), 70);
    assert_eq!(account.held_balance, 120);
    assert_eq!(payer.held_balance, 5);
}

#[test]
fn transfer_error_after_allocation_keeps_allocation() {
    // The payer can fund the rent but not the amount: the allocation step
    // still runs, and the environment is the one to discard it.
    let mut payer = payer_with(RENT_MINIMUM + 3);
    let mut account = fresh_account();
    let r = deposit(PROGRAM_ID, &mut payer, &mut account, RENT_MINIMUM, 4);
    assert_eq!(r, Err(LedgerError::TransferError));
    assert_eq!(account.owner_program, PROGRAM_ID);
    assert_eq!(account.held_balance, RENT_MINIMUM);
    assert_eq!(read_counter(&account.data), 0);
    assert_eq!(payer.held_balance, 3);
}

#[test]
fn withdraw_pays_tenth_of_counter() {
    let mut account = custody_with(100, 150);
    let mut recipient = payer_with(7);
    let r = withdraw(PROGRAM_ID, &mut account, &mut recipient);
    assert_eq!(r, Ok(()));
    assert_eq!(read_counter(&account.data), 90);
    assert_eq!(account.held_balance, 140);
    assert_eq!(recipient.held_balance, 17);
}

#[test]
fn withdraw_small_counter_fails() {
    for counter in 1..=9u64 {
        let mut account = custody_with(counter, 150);
        let mut recipient = payer_with(7);
        let r = withdraw(PROGRAM_ID, &mut account, &mut recipient);
        assert_eq!(r, Err(LedgerError::InsufficientFunds));
        assert_eq!(read_counter(&account.data), counter);
        assert_eq!(account.held_balance, 150);
        assert_eq!(recipient.held_balance, 7);
    }
}

#[test]
fn withdraw_foreign_owner_fails() {
    let mut account = custody_with(100, 150);
    account.owner_program = PROGRAM_ID + 1;
    let mut recipient = payer_with(7);
    let r = withdraw(PROGRAM_ID, &mut account, &mut recipient);
    assert_eq!(r, Err(LedgerError::OwnershipError));
    assert_eq!(read_counter(&account.data), 100);
    assert_eq!(account.held_balance, 150);
    assert_eq!(recipient.held_balance, 7);
}

#[test]
fn withdraw_clamps_to_held_balance() {
    // Counter 100 computes a share of 10, but only 4 are actually held:
    // exactly 4 move, and the counter drops by 4, not by 10.
    let mut account = custody_with(100, 4);
    let mut recipient = payer_with(7);
    let r = withdraw(PROGRAM_ID, &mut account, &mut recipient);
    assert_eq!(r, Ok(()));
    assert_eq!(account.held_balance, 0);
    assert_eq!(recipient.held_balance, 11);
    assert_eq!(read_counter(&account.data), 96);
}

#[test]
fn counter_codec_round_trip() {
    let mut data = vec![0u8; 8];
    write_counter(&mut data, 0xdead_beef_0102_0304);
    assert_eq!(read_counter(&data), 0xdead_beef_0102_0304);
    assert_eq!(data, 0xdead_beef_0102_0304u64.to_le_bytes().to_vec());
}

#[test]
fn decode_deposit_bytes() {
    let mut input = vec![0u8];
    input.extend_from_slice(&1234u64.to_le_bytes());
    assert_eq!(
        decode_instruction(&input),
        Ok(TransferInstruction::DepositInstruction(1234))
    );
}

#[test]
fn decode_withdraw_bytes() {
    assert_eq!(
        decode_instruction(&[1u8]),
        Ok(TransferInstruction::WithdrawalInstruction)
    );
}

#[test]
fn decode_rejects_malformed() {
    assert_eq!(decode_instruction(&[]), Err(LedgerError::DecodeError));
    assert_eq!(decode_instruction(&[2u8]), Err(LedgerError::DecodeError));
    assert_eq!(decode_instruction(&[0u8]), Err(LedgerError::DecodeError));
    assert_eq!(decode_instruction(&[0u8; 8]), Err(LedgerError::DecodeError));
    assert_eq!(decode_instruction(&[0u8; 10]), Err(LedgerError::DecodeError));
    // A withdrawal tag with trailing bytes is malformed too.
    assert_eq!(decode_instruction(&[1u8, 0u8]), Err(LedgerError::DecodeError));
}

#[test]
fn process_instruction_dispatches_deposit() {
    let mut payer = payer_with(1000);
    let mut account = fresh_account();
    let mut input = vec![0u8];
    input.extend_from_slice(&100u64.to_le_bytes());
    let r = process_instruction(PROGRAM_ID, &mut payer, &mut account, RENT_MINIMUM, &input);
    assert_eq!(r, Ok(()));
    assert_eq!(read_counter(&account.data), 100);
    assert_eq!(account.held_balance, RENT_MINIMUM + 100);
}

#[test]
fn process_instruction_dispatches_withdraw() {
    let mut account = custody_with(100, 150);
    let mut recipient = payer_with(0);
    let r = process_instruction(PROGRAM_ID, &mut account, &mut recipient, RENT_MINIMUM, &[1u8]);
    assert_eq!(r, Ok(()));
    assert_eq!(read_counter(&account.data), 90);
    assert_eq!(recipient.held_balance, 10);
}

#[test]
fn process_instruction_rejects_garbage() {
    let mut first = custody_with(100, 150);
    let mut second = payer_with(0);
    let r = process_instruction(PROGRAM_ID, &mut first, &mut second, RENT_MINIMUM, &[7u8, 7u8]);
    assert_eq!(r, Err(LedgerError::DecodeError));
    assert_eq!(read_counter(&first.data), 100);
    assert_eq!(first.held_balance, 150);
    assert_eq!(second.held_balance, 0);
}
