//! The instruction wire format: an externally serialized tagged union.
//! Tag byte 0 followed by a little-endian u64 amount means deposit; tag
//! byte 1 with no payload means withdraw. Anything else is malformed, and
//! trailing bytes are not tolerated.

use vstd::prelude::*;
use vstd::bytes::{spec_u64_from_le_bytes, u64_from_le_bytes};
use vstd::slice::{slice_index_get, slice_subrange};
use crate::errors::LedgerError;

verus! {

/// A decoded instruction, ready for dispatch.
#[derive(Clone, Copy, Debug, PartialEq, Eq, Structural)]
pub enum TransferInstruction {
    /// Credit the custody account with the carried amount, allocating the
    /// account first if it does not exist yet.
    DepositInstruction(u64),
    /// Pay the withdrawal share of the counter out to the recipient.
    WithdrawalInstruction,
}

/// What decoding yields on each possible byte string: a deposit needs
/// exactly 9 bytes starting with tag 0, a withdrawal exactly the single
/// tag byte 1, and every other input is a `DecodeError`.
pub open spec fn decoded_instruction(input: Seq<u8>) -> Result<TransferInstruction, LedgerError> {
    if input.len() == 9 && input[0] == 0u8 {
        Ok(TransferInstruction::DepositInstruction(spec_u64_from_le_bytes(input.subrange(1, 9))))
    } else if input.len() == 1 && input[0] == 1u8 {
        Ok(TransferInstruction::WithdrawalInstruction)
    } else {
        Err(LedgerError::DecodeError)
    }
}

/// Decode raw instruction bytes into a `TransferInstruction`, rejecting
/// malformed or unrecognized encodings.
pub fn decode_instruction(input: &[u8]) -> (r: Result<TransferInstruction, LedgerError>)
    ensures
        r == decoded_instruction(input@),
{
    if input.len() == 9 && *slice_index_get(input, 0) == 0u8 {
        let amount = u64_from_le_bytes(slice_subrange(input, 1, 9));
        Ok(TransferInstruction::DepositInstruction(amount))
    } else if input.len() == 1 && *slice_index_get(input, 0) == 1u8 {
        Ok(TransferInstruction::WithdrawalInstruction)
    } else {
        Err(LedgerError::DecodeError)
    }
}

} // verus!
