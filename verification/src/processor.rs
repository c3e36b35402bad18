//! The instruction processor: lazy allocation on first deposit, deposit
//! accounting, percentage-capped withdrawal with balance clamping, and the
//! dispatcher that routes decoded instructions to the handlers.
//!
//! The allocation and transfer collaborators are modeled here as functions
//! on ledger accounts; the caller guarantees exclusive mutable access to
//! every referenced account for the duration of one handler call, and on an
//! error discards whatever partial mutation the same invocation had already
//! applied, so the handlers return early and never undo their own work.

use vstd::prelude::*;
use vstd::bytes::{lemma_auto_spec_u64_to_from_le_bytes, spec_u64_to_le_bytes};
use crate::account::{
    AccountView, CustodyAccount, SYSTEM_OWNER_ID, WITHDRAWAL_DIVISOR, counter_of, is_initialized,
    is_uninitialized,
};
use crate::codec::{read_counter, write_counter, zeroed_counter_region};
use crate::errors::LedgerError;
use crate::instruction::{TransferInstruction, decode_instruction, decoded_instruction};

verus! {

/// The account with `amount` less held balance and everything else unchanged.
pub open spec fn account_debited(a: AccountView, amount: u64) -> AccountView
    recommends
        a.held_balance >= amount,
{
    AccountView {
        owner_program: a.owner_program,
        held_balance: (a.held_balance - amount) as u64,
        data: a.data,
    }
}

/// The account with `amount` more held balance and everything else unchanged.
pub open spec fn account_credited(a: AccountView, amount: u64) -> AccountView
    recommends
        a.held_balance + amount <= u64::MAX,
{
    AccountView {
        owner_program: a.owner_program,
        held_balance: (a.held_balance + amount) as u64,
        data: a.data,
    }
}

/// When the allocation service creates the custody account: the payer can
/// fund the rent-exempt minimum, and the address is not in use — still owned
/// by the allocation service, holding no balance and no data.
pub open spec fn allocation_accepted(payer: AccountView, target: AccountView, rent_minimum: u64) -> bool {
    &&& payer.held_balance >= rent_minimum
    &&& target.owner_program == SYSTEM_OWNER_ID
    &&& target.held_balance == 0
    &&& target.data.len() == 0
}

/// What allocation produces: a custody account owned by `new_owner`, holding
/// the rent-exempt minimum and 8 zero-filled data bytes.
pub open spec fn fresh_custody_account(new_owner: u64, rent_minimum: u64) -> AccountView {
    AccountView {
        owner_program: new_owner,
        held_balance: rent_minimum,
        data: spec_u64_to_le_bytes(0u64),
    }
}

/// Models the allocation service: create the custody account with exactly
/// 8 bytes of zero-filled storage, the rent-exempt minimum balance, and
/// ownership assigned to `new_owner`, all funded by the payer.
pub fn allocate_custody_account(
    payer: &mut CustodyAccount,
    target: &mut CustodyAccount,
    rent_minimum: u64,
    new_owner: u64,
) -> (r: Result<(), LedgerError>)
    ensures
        allocation_accepted(old(payer)@, old(target)@, rent_minimum) ==> ({
            &&& r is Ok
            &&& final(payer)@ == account_debited(old(payer)@, rent_minimum)
            &&& final(target)@ == fresh_custody_account(new_owner, rent_minimum)
        }),
        !allocation_accepted(old(payer)@, old(target)@, rent_minimum) ==> ({
            &&& r == Err::<(), LedgerError>(LedgerError::AllocationError)
            &&& final(payer)@ == old(payer)@
            &&& final(target)@ == old(target)@
        }),
{
    if payer.held_balance >= rent_minimum && target.owner_program == SYSTEM_OWNER_ID
        && target.held_balance == 0 && target.data.len() == 0 {
        payer.held_balance = payer.held_balance - rent_minimum;
        target.owner_program = new_owner;
        target.held_balance = rent_minimum;
        target.data = zeroed_counter_region();
        Ok(())
    } else {
        Err(LedgerError::AllocationError)
    }
}

/// When a transfer of `amount` goes through: the source covers it and the
/// destination balance can still hold it.
pub open spec fn transfer_accepted(from_held: u64, to_held: u64, amount: u64) -> bool {
    &&& from_held >= amount
    &&& to_held + amount <= u64::MAX
}

/// Models the transfer service: move `amount` of held balance from one
/// account to the other, leaving owners and data regions alone.
pub fn transfer_held_balance(
    from: &mut CustodyAccount,
    to: &mut CustodyAccount,
    amount: u64,
) -> (r: Result<(), LedgerError>)
    ensures
        transfer_accepted(old(from)@.held_balance, old(to)@.held_balance, amount) ==> ({
            &&& r is Ok
            &&& final(from)@ == account_debited(old(from)@, amount)
            &&& final(to)@ == account_credited(old(to)@, amount)
        }),
        !transfer_accepted(old(from)@.held_balance, old(to)@.held_balance, amount) ==> ({
            &&& r == Err::<(), LedgerError>(LedgerError::TransferError)
            &&& final(from)@ == old(from)@
            &&& final(to)@ == old(to)@
        }),
{
    if amount <= from.held_balance && to.held_balance <= u64::MAX - amount {
        from.held_balance = from.held_balance - amount;
        to.held_balance = to.held_balance + amount;
        Ok(())
    } else {
        Err(LedgerError::TransferError)
    }
}

/// The tail every deposit ends in once the custody account exists: transfer
/// the amount from the payer, then raise the stored counter by it. On a
/// failed transfer the counter is not touched.
pub open spec fn settled_deposit(
    payer: AccountView,
    custody: AccountView,
    amount: u64,
) -> (Result<(), LedgerError>, AccountView, AccountView)
    recommends
        is_initialized(custody),
        counter_of(custody) + amount <= u64::MAX,
{
    if transfer_accepted(payer.held_balance, custody.held_balance, amount) {
        let recorded = AccountView {
            owner_program: custody.owner_program,
            held_balance: (custody.held_balance + amount) as u64,
            data: spec_u64_to_le_bytes((counter_of(custody) + amount) as u64),
        };
        (Ok(()), account_debited(payer, amount), recorded)
    } else {
        (Err(LedgerError::TransferError), payer, custody)
    }
}

/// Everything a deposit does, as one step on the views of its two accounts:
/// the result and the final payer and custody account. On an allocation
/// failure nothing moves; on a transfer failure the allocation, if one
/// happened, stands (the environment discards it, see the module note).
pub open spec fn deposit_outcome(
    program_id: u64,
    payer: AccountView,
    custody: AccountView,
    rent_minimum: u64,
    amount: u64,
) -> (Result<(), LedgerError>, AccountView, AccountView) {
    if is_uninitialized(custody) {
        if allocation_accepted(payer, custody, rent_minimum) {
            settled_deposit(
                account_debited(payer, rent_minimum),
                fresh_custody_account(program_id, rent_minimum),
                amount,
            )
        } else {
            (Err(LedgerError::AllocationError), payer, custody)
        }
    } else {
        settled_deposit(payer, custody, amount)
    }
}

/// What machine limits force on a deposit's arguments: the custody data
/// region obeys the layout (empty, or exactly the 8 counter bytes), and on
/// the path where the transfer succeeds the raised counter still fits.
pub open spec fn deposit_args_ok(payer: AccountView, custody: AccountView, amount: u64) -> bool {
    &&& is_uninitialized(custody) || is_initialized(custody)
    &&& is_initialized(custody) && transfer_accepted(payer.held_balance, custody.held_balance, amount)
        ==> counter_of(custody) + amount <= u64::MAX
}

/// Credit `amount` to the custody account, allocating it first if its data
/// region is empty. No positivity check is made: amount 0 is accepted, and
/// still allocates a fresh account.
pub fn deposit(
    program_id: u64,
    payer: &mut CustodyAccount,
    deposit_account: &mut CustodyAccount,
    rent_minimum: u64,
    amount: u64,
) -> (r: Result<(), LedgerError>)
    requires
        deposit_args_ok(old(payer)@, old(deposit_account)@, amount),
    ensures
        (r, final(payer)@, final(deposit_account)@) == deposit_outcome(
            program_id,
            old(payer)@,
            old(deposit_account)@,
            rent_minimum,
            amount,
        ),
{
    proof {
        lemma_auto_spec_u64_to_from_le_bytes();
    }
    if deposit_account.data.len() == 0 {
        allocate_custody_account(payer, deposit_account, rent_minimum, program_id)?;
    }
    transfer_held_balance(payer, deposit_account, amount)?;
    let total_deposited = read_counter(&deposit_account.data);
    let updated = total_deposited + amount;
    write_counter(&mut deposit_account.data, updated);
    Ok(())
}

/// The share of the counter a withdrawal computes before clamping.
pub open spec fn withdrawal_share(custody: AccountView) -> u64 {
    counter_of(custody) / WITHDRAWAL_DIVISOR
}

/// The amount a withdrawal actually transfers: the computed share, clamped
/// to the balance the custody account actually holds.
pub open spec fn withdrawal_amount(custody: AccountView) -> u64 {
    if withdrawal_share(custody) <= custody.held_balance {
        withdrawal_share(custody)
    } else {
        custody.held_balance
    }
}

/// When a withdrawal goes through: the custody account is owned by this
/// system and the computed share is not zero.
pub open spec fn withdraw_accepted(program_id: u64, custody: AccountView) -> bool {
    &&& custody.owner_program == program_id
    &&& withdrawal_share(custody) != 0
}

/// Everything a withdrawal does, as one step on the views of its two
/// accounts: the result and the final custody account and recipient. Both
/// error cases leave every account untouched.
pub open spec fn withdraw_outcome(
    program_id: u64,
    custody: AccountView,
    recipient: AccountView,
) -> (Result<(), LedgerError>, AccountView, AccountView) {
    if custody.owner_program != program_id {
        (Err(LedgerError::OwnershipError), custody, recipient)
    } else if withdrawal_share(custody) == 0 {
        (Err(LedgerError::InsufficientFunds), custody, recipient)
    } else {
        let paid = withdrawal_amount(custody);
        let debited = AccountView {
            owner_program: custody.owner_program,
            held_balance: (custody.held_balance - paid) as u64,
            data: spec_u64_to_le_bytes((counter_of(custody) - paid) as u64),
        };
        (Ok(()), debited, account_credited(recipient, paid))
    }
}

/// What machine limits force on a withdrawal's arguments: an account owned
/// by this system stores exactly the 8 counter bytes, and on the path where
/// the withdrawal pays out, the recipient's balance can still hold it.
pub open spec fn withdraw_args_ok(program_id: u64, custody: AccountView, recipient: AccountView) -> bool {
    &&& custody.owner_program == program_id ==> is_initialized(custody)
    &&& withdraw_accepted(program_id, custody)
        ==> recipient.held_balance + withdrawal_amount(custody) <= u64::MAX
}

/// Pay the withdrawal share of the counter out to the recipient: a tenth of
/// the counter, clamped to the balance actually present, is moved from the
/// custody account to the recipient and subtracted from the counter. No
/// check is made on who invokes this or on who the recipient is; only the
/// custody account's owner is verified.
pub fn withdraw(
    program_id: u64,
    deposit_account: &mut CustodyAccount,
    recipient: &mut CustodyAccount,
) -> (r: Result<(), LedgerError>)
    requires
        withdraw_args_ok(program_id, old(deposit_account)@, old(recipient)@),
    ensures
        (r, final(deposit_account)@, final(recipient)@) == withdraw_outcome(
            program_id,
            old(deposit_account)@,
            old(recipient)@,
        ),
        r is Err ==> final(deposit_account)@ == old(deposit_account)@ && final(recipient)@ == old(recipient)@,
{
    proof {
        lemma_auto_spec_u64_to_from_le_bytes();
    }
    if deposit_account.owner_program != program_id {
        return Err(LedgerError::OwnershipError);
    }
    let total_deposited = read_counter(&deposit_account.data);
    let share = total_deposited / WITHDRAWAL_DIVISOR;
    if share == 0 {
        return Err(LedgerError::InsufficientFunds);
    }
    let withdrawal = if share <= deposit_account.held_balance {
        share
    } else {
        deposit_account.held_balance
    };
    deposit_account.held_balance = deposit_account.held_balance - withdrawal;
    recipient.held_balance = recipient.held_balance + withdrawal;
    let remaining = total_deposited - withdrawal;
    write_counter(&mut deposit_account.data, remaining);
    Ok(())
}

/// Arguments valid for whichever handler the instruction bytes select.
pub open spec fn instruction_args_ok(
    program_id: u64,
    first: AccountView,
    second: AccountView,
    input: Seq<u8>,
) -> bool {
    &&& decoded_instruction(input) matches Ok(TransferInstruction::DepositInstruction(amount))
        ==> deposit_args_ok(first, second, amount)
    &&& decoded_instruction(input) == Ok::<TransferInstruction, LedgerError>(
        TransferInstruction::WithdrawalInstruction,
    ) ==> withdraw_args_ok(program_id, first, second)
}

/// Everything one invocation does: decode, then the selected handler's
/// step; on malformed bytes the decode error, with no account touched.
pub open spec fn processed_outcome(
    program_id: u64,
    first: AccountView,
    second: AccountView,
    rent_minimum: u64,
    input: Seq<u8>,
) -> (Result<(), LedgerError>, AccountView, AccountView) {
    match decoded_instruction(input) {
        Ok(TransferInstruction::DepositInstruction(amount)) => deposit_outcome(
            program_id,
            first,
            second,
            rent_minimum,
            amount,
        ),
        Ok(TransferInstruction::WithdrawalInstruction) => withdraw_outcome(
            program_id,
            first,
            second,
        ),
        Err(e) => (Err(e), first, second),
    }
}

/// Decode the instruction bytes and route to the matching handler, passing
/// the same accounts along. The account list is positional: a deposit reads
/// it as [payer, custody account], a withdrawal as [custody account,
/// recipient]; the allocation service the original list carries third is
/// modeled inside the deposit handler and needs no account of its own.
/// `rent_minimum` is the rent-exempt minimum balance for an 8-byte data
/// region, supplied by the environment.
pub fn process_instruction(
    program_id: u64,
    first_account: &mut CustodyAccount,
    second_account: &mut CustodyAccount,
    rent_minimum: u64,
    input: &[u8],
) -> (r: Result<(), LedgerError>)
    requires
        instruction_args_ok(program_id, old(first_account)@, old(second_account)@, input@),
    ensures
        (r, final(first_account)@, final(second_account)@) == processed_outcome(
            program_id,
            old(first_account)@,
            old(second_account)@,
            rent_minimum,
            input@,
        ),
{
    let instruction = decode_instruction(input)?;
    match instruction {
        TransferInstruction::DepositInstruction(amount) => deposit(
            program_id,
            first_account,
            second_account,
            rent_minimum,
            amount,
        ),
        TransferInstruction::WithdrawalInstruction => withdraw(
            program_id,
            first_account,
            second_account,
        ),
    }
}

} // verus!
