//! Laws of the ledger: what the handlers' one-step outcomes add up to
//! across calls and across the cases the design promises. Each law is
//! proved here once and for all inputs it speaks of.

use vstd::prelude::*;
use vstd::bytes::lemma_auto_spec_u64_to_from_le_bytes;
use crate::account::{AccountView, WITHDRAWAL_DIVISOR, counter_of, is_initialized, is_uninitialized};
use crate::errors::LedgerError;
use crate::processor::{
    deposit_outcome, withdraw_accepted, withdraw_outcome, withdrawal_amount, withdrawal_share,
};

verus! {

/// Depositing `amount` into a fresh, uninitialized account records exactly
/// that amount as the counter, leaves the account holding the rent-exempt
/// minimum plus the amount, owned by this system, and costs the payer both.
pub proof fn lemma_fresh_deposit(
    program_id: u64,
    payer: AccountView,
    custody: AccountView,
    rent_minimum: u64,
    amount: u64,
)
    requires
        is_uninitialized(custody),
        deposit_outcome(program_id, payer, custody, rent_minimum, amount).0 is Ok,
    ensures
        ({
            let (r, payer2, custody2) = deposit_outcome(program_id, payer, custody, rent_minimum, amount);
            &&& counter_of(custody2) == amount
            &&& custody2.held_balance == rent_minimum + amount
            &&& custody2.owner_program == program_id
            &&& payer2.held_balance == payer.held_balance - rent_minimum - amount
        }),
{
    lemma_auto_spec_u64_to_from_le_bytes();
}

/// Sequential deposits accumulate: depositing `amount1` into a fresh
/// account and then `amount2` into the same account, from any payers,
/// leaves the counter at exactly `amount1 + amount2`.
pub proof fn lemma_sequential_deposits(
    program_id: u64,
    rent_minimum: u64,
    payer1: AccountView,
    payer2: AccountView,
    custody: AccountView,
    amount1: u64,
    amount2: u64,
)
    requires
        is_uninitialized(custody),
        amount1 + amount2 <= u64::MAX,
        deposit_outcome(program_id, payer1, custody, rent_minimum, amount1).0 is Ok,
        deposit_outcome(
            program_id,
            payer2,
            deposit_outcome(program_id, payer1, custody, rent_minimum, amount1).2,
            rent_minimum,
            amount2,
        ).0 is Ok,
    ensures
        counter_of(
            deposit_outcome(
                program_id,
                payer2,
                deposit_outcome(program_id, payer1, custody, rent_minimum, amount1).2,
                rent_minimum,
                amount2,
            ).2,
        ) == amount1 + amount2,
{
    lemma_auto_spec_u64_to_from_le_bytes();
    let once = deposit_outcome(program_id, payer1, custody, rent_minimum, amount1).2;
    assert(counter_of(once) == amount1);
    assert(is_initialized(once));
}

/// Withdrawing while the counter is below the divisor fails with
/// `InsufficientFunds` and leaves both accounts untouched: the computed
/// share of such a counter is zero.
pub proof fn lemma_withdraw_insufficient(program_id: u64, custody: AccountView, recipient: AccountView)
    requires
        custody.owner_program == program_id,
        1 <= counter_of(custody) < WITHDRAWAL_DIVISOR,
    ensures
        withdraw_outcome(program_id, custody, recipient) == (
            Err::<(), LedgerError>(LedgerError::InsufficientFunds),
            custody,
            recipient,
        ),
{
}

/// Withdrawing from an account this system does not own fails with
/// `OwnershipError` and leaves both accounts untouched, whatever else the
/// account holds.
pub proof fn lemma_withdraw_foreign_owner(program_id: u64, custody: AccountView, recipient: AccountView)
    requires
        custody.owner_program != program_id,
    ensures
        withdraw_outcome(program_id, custody, recipient) == (
            Err::<(), LedgerError>(LedgerError::OwnershipError),
            custody,
            recipient,
        ),
{
}

/// A successful withdrawal moves one single amount: the custody account's
/// balance decrease, the recipient's balance increase and the counter
/// decrease all equal the transferred amount, which never exceeds the
/// computed share.
pub proof fn lemma_withdraw_conservation(program_id: u64, custody: AccountView, recipient: AccountView)
    requires
        is_initialized(custody),
        recipient.held_balance + withdrawal_amount(custody) <= u64::MAX,
        withdraw_outcome(program_id, custody, recipient).0 is Ok,
    ensures
        ({
            let (r, custody2, recipient2) = withdraw_outcome(program_id, custody, recipient);
            let paid = withdrawal_amount(custody);
            &&& counter_of(custody) - counter_of(custody2) == paid
            &&& custody.held_balance - custody2.held_balance == paid
            &&& recipient2.held_balance - recipient.held_balance == paid
            &&& paid <= withdrawal_share(custody)
        }),
{
    lemma_auto_spec_u64_to_from_le_bytes();
}

/// When the held balance has been externally reduced below the computed
/// share, withdrawal clamps to the balance actually present: it empties the
/// custody account's balance, credits the recipient with exactly that
/// balance, and decrements the counter by the clamped amount — never by the
/// pre-clamp share.
pub proof fn lemma_withdraw_clamps_to_balance(
    program_id: u64,
    custody: AccountView,
    recipient: AccountView,
)
    requires
        is_initialized(custody),
        withdraw_accepted(program_id, custody),
        custody.held_balance < withdrawal_share(custody),
        recipient.held_balance + custody.held_balance <= u64::MAX,
    ensures
        ({
            let (r, custody2, recipient2) = withdraw_outcome(program_id, custody, recipient);
            &&& r is Ok
            &&& custody2.held_balance == 0
            &&& recipient2.held_balance == recipient.held_balance + custody.held_balance
            &&& counter_of(custody2) == counter_of(custody) - custody.held_balance
        }),
{
    lemma_auto_spec_u64_to_from_le_bytes();
}

} // verus!
