//! The account list of a delegation: which account stands where.

use vstd::prelude::*;
use crate::account::{Account, AccountView};

verus! {

/// Place in the account list of the signer that pays for the accounts.
pub const PAYER: usize = 0;

/// Place of the derived account that is delegated.
pub const PDA_ACC: usize = 1;

/// Place of the program that the delegated state belongs to.
pub const OWNER_PROGRAM: usize = 2;

/// Place of the buffer that keeps the data during the hand-over.
pub const BUFFER_ACC: usize = 3;

/// Place of the delegation authority's record of the delegation.
pub const DELEGATION_RECORD: usize = 4;

/// Place of the delegation authority's metadata.
pub const DELEGATION_METADATA: usize = 5;

/// Place of the system authority.
pub const SYSTEM_PROGRAM: usize = 6;

/// The number of accounts the operation has a role for. Accounts beyond
/// these are ignored.
pub const ROLES: usize = 7;

/// The accounts of a list, as mathematical values.
pub open spec fn ledger(accounts: Seq<Account>) -> Seq<AccountView> {
    Seq::new(accounts.len(), |i: int| accounts[i]@)
}

/// Whether the balances that a delegation moves fit one balance together.
/// On the host they do: the lamports in existence fit a `u64`.
pub open spec fn balances_fit(s: Seq<AccountView>) -> bool {
    s.len() >= ROLES ==> s[PAYER as int].lamports + s[PDA_ACC as int].lamports
        + s[BUFFER_ACC as int].lamports <= u64::MAX
}

/// Whether the balances that a delegation moves fit one balance together.
pub fn balances_in_range(accounts: &Vec<Account>) -> (r: bool)
    ensures
        r == balances_fit(ledger(accounts@)),
{
    if accounts.len() < ROLES {
        return true;
    }
    let payer = accounts[PAYER].lamports;
    let delegated = accounts[PDA_ACC].lamports;
    let buffer = accounts[BUFFER_ACC].lamports;
    match payer.checked_add(delegated) {
        Some(sum) => sum.checked_add(buffer).is_some(),
        None => false,
    }
}

/// A copy of an account list.
pub(crate) fn clone_accounts(accounts: &Vec<Account>) -> (r: Vec<Account>)
    ensures
        ledger(r@) == ledger(accounts@),
{
    let n = accounts.len();
    let mut out: Vec<Account> = Vec::new();
    let mut i: usize = 0;
    while i < n
        invariant
            i <= n,
            n == accounts@.len(),
            out@.len() == i,
            forall|j: int| 0 <= j < i ==> (#[trigger] out@[j])@ == accounts@[j]@,
        decreases n - i,
    {
        out.push(accounts[i].clone());
        i = i + 1;
    }
    out
}

} // verus!
