//! The ledger's account model. An account is identified to this system only
//! by three things the handlers read and write: the identity of the program
//! that owns it, the native balance it holds, and its raw data region. A
//! custody account keeps its cumulative deposit counter in that data region,
//! as exactly 8 little-endian bytes; an account whose data region is empty is
//! uninitialized.

use vstd::prelude::*;
use vstd::bytes::spec_u64_from_le_bytes;

verus! {

/// Number of data bytes a custody account stores: one little-endian u64.
pub const COUNTER_SIZE: usize = 8;

/// Divisor of the counter that fixes the withdrawal share: a withdrawal pays
/// out `counter / WITHDRAWAL_DIVISOR`, clamped to the balance present.
pub const WITHDRAWAL_DIVISOR: u64 = 10;

/// Identity of the allocation service, which owns every account that no
/// program has claimed yet. A fresh custody account must still be owned by
/// it for allocation to succeed.
pub const SYSTEM_OWNER_ID: u64 = 0;

/// One ledger account, under the exclusive mutable access that the caller
/// guarantees for the duration of a handler call.
#[derive(Clone, Debug)]
pub struct CustodyAccount {
    /// Identity of the program controlling this account.
    pub owner_program: u64,
    /// Native value the account actually holds.
    pub held_balance: u64,
    /// Raw data region: empty while uninitialized, 8 bytes thereafter.
    pub data: Vec<u8>,
}

/// The mathematical image of an account: the same three fields, with the
/// data region as a sequence.
#[verifier::ext_equal]
pub ghost struct AccountView {
    pub owner_program: u64,
    pub held_balance: u64,
    pub data: Seq<u8>,
}

impl View for CustodyAccount {
    type V = AccountView;

    open spec fn view(&self) -> AccountView {
        AccountView {
            owner_program: self.owner_program,
            held_balance: self.held_balance,
            data: self.data@,
        }
    }
}

/// An account is uninitialized while its data region is empty; the first
/// deposit allocates it.
pub open spec fn is_uninitialized(a: AccountView) -> bool {
    a.data.len() == 0
}

/// An initialized custody account stores exactly the 8 counter bytes.
pub open spec fn is_initialized(a: AccountView) -> bool {
    a.data.len() == COUNTER_SIZE
}

/// The cumulative deposit counter an initialized account records: its data
/// region read as a little-endian u64.
pub open spec fn counter_of(a: AccountView) -> u64
    recommends
        is_initialized(a),
{
    spec_u64_from_le_bytes(a.data)
}

} // verus!
