//! The instruction wire format is the standard borsh encoding of a tagged
//! union: a one-byte variant tag, then the variant's fields little-endian.
//! These tests hold the decoder to bytes that borsh itself produces.

use custody_ledger::LedgerError;
use custody_ledger::TransferInstruction;
use custody_ledger::instruction::decode_instruction;

#[test]
fn decode_accepts_borsh_encoded_deposit() {
    // Variant 0 with one u64 field serializes as the tag byte followed by
    // the amount, which is what a tuple of the two serializes to as well.
    let input = borsh::to_vec(&(0u8, 987_654_321u64)).unwrap();
    assert_eq!(
        decode_instruction(&input),
        Ok(TransferInstruction::DepositInstruction(987_654_321))
    );
}

#[test]
fn decode_accepts_borsh_encoded_withdrawal() {
    let input = borsh::to_vec(&1u8).unwrap();
    assert_eq!(
        decode_instruction(&input),
        Ok(TransferInstruction::WithdrawalInstruction)
    );
}

#[test]
fn decode_rejects_unknown_borsh_tag() {
    let input = borsh::to_vec(&(2u8, 5u64)).unwrap();
    assert_eq!(decode_instruction(&input), Err(LedgerError::DecodeError));
}
