//! Accounts, and the two operations that begin and end an account's life.
//!
//! An account belongs to the host; this crate works on a plain record of
//! what the host shows of it during one call.

use vstd::prelude::*;
use pinocchio::pubkey::Pubkey;
use crate::address::same_address;
use crate::bytes::{copy_bytes, zero_bytes, zeroed};
use crate::error::DelegateError;
use crate::signer::{SignerCapability, SignerCapabilityView};

verus! {

/// An account as one call sees it.
#[derive(Debug, PartialEq, Eq)]
pub struct Account {
    /// The address the account is referenced by.
    pub key: Pubkey,
    /// The identity of the authority that owns the account.
    pub owner: Pubkey,
    /// The balance of the account.
    pub lamports: u64,
    /// The bytes the account stores.
    pub data: Vec<u8>,
    /// Whether the account signed the transaction.
    pub is_signer: bool,
    /// Whether the call may change the account.
    pub is_writable: bool,
}

/// An account as mathematical values.
pub struct AccountView {
    pub key: Seq<u8>,
    pub owner: Seq<u8>,
    pub lamports: u64,
    pub data: Seq<u8>,
    pub is_signer: bool,
    pub is_writable: bool,
}

impl View for Account {
    type V = AccountView;

    open spec fn view(&self) -> AccountView {
        AccountView {
            key: self.key@,
            owner: self.owner@,
            lamports: self.lamports,
            data: self.data@,
            is_signer: self.is_signer,
            is_writable: self.is_writable,
        }
    }
}

impl Clone for Account {
    fn clone(&self) -> (r: Self)
        ensures
            r@ == self@,
    {
        let data = copy_bytes(self.data.as_slice());
        Account {
            key: self.key,
            owner: self.owner,
            lamports: self.lamports,
            data,
            is_signer: self.is_signer,
            is_writable: self.is_writable,
        }
    }
}

/// What a call may hand over as a signer capability, as mathematical values.
pub open spec fn signer_view(signer: Option<&SignerCapability>) -> Option<SignerCapabilityView> {
    match signer {
        Some(capability) => Some(capability@),
        None => None,
    }
}

/// Whether an account may be created at `target`: it signed the transaction
/// itself, or the call carries the capability for its address.
pub open spec fn may_create(target: AccountView, signer: Option<SignerCapabilityView>) -> bool {
    target.is_signer || (signer matches Some(capability) && capability.covers(target.key))
}

/// Whether `target` may be closed by `program_id`: the program owns it, or
/// the call carries the capability for its address.
pub open spec fn may_close(
    target: AccountView,
    program_id: Seq<u8>,
    signer: Option<SignerCapabilityView>,
) -> bool {
    target.owner == program_id || (signer matches Some(capability) && capability.covers(
        target.key,
    ))
}

/// What is added to a balance of `held` so that it is `minimum_balance`:
/// nothing where it is that much already.
pub open spec fn funding(held: u64, minimum_balance: u64) -> u64 {
    if held >= minimum_balance {
        0
    } else {
        (minimum_balance - held) as u64
    }
}

/// What creating an account comes to: the payer and the new account after
/// it, or the reason it is refused. Authorization is looked at before funds.
pub open spec fn create_account_outcome(
    payer: AccountView,
    target: AccountView,
    owner: Seq<u8>,
    space: nat,
    minimum_balance: u64,
    signer: Option<SignerCapabilityView>,
) -> Result<(AccountView, AccountView), DelegateError> {
    let amount = funding(target.lamports, minimum_balance);
    if !may_create(target, signer) {
        Err(DelegateError::AuthorizationFailure)
    } else if payer.lamports < amount {
        Err(DelegateError::InsufficientFunds)
    } else {
        Ok(
            (
                AccountView { lamports: (payer.lamports - amount) as u64, ..payer },
                AccountView {
                    owner,
                    lamports: if target.lamports >= minimum_balance {
                        target.lamports
                    } else {
                        minimum_balance
                    },
                    data: zeroed(space),
                    ..target
                },
            ),
        )
    }
}

/// What closing an account comes to: the payer and the closed account after
/// it, or the reason it is refused.
pub open spec fn close_account_outcome(
    payer: AccountView,
    target: AccountView,
    system_authority: Seq<u8>,
    program_id: Seq<u8>,
    signer: Option<SignerCapabilityView>,
) -> Result<(AccountView, AccountView), DelegateError> {
    if !may_close(target, program_id, signer) {
        Err(DelegateError::AuthorizationFailure)
    } else {
        Ok(
            (
                AccountView { lamports: (payer.lamports + target.lamports) as u64, ..payer },
                AccountView {
                    owner: system_authority,
                    lamports: 0,
                    data: zeroed(target.data.len()),
                    ..target
                },
            ),
        )
    }
}

/// What is added to a balance of `held` so that it is `minimum_balance`.
pub fn funding_needed(held: u64, minimum_balance: u64) -> (r: u64)
    ensures
        r == funding(held, minimum_balance),
{
    if held >= minimum_balance {
        0
    } else {
        minimum_balance - held
    }
}

/// Whether the call carries the capability for the account at `key`.
fn carries_capability(signer: Option<&SignerCapability>, key: &Pubkey) -> (r: bool)
    ensures
        r == (signer_view(signer) matches Some(capability) && capability.covers(key@)),
{
    match signer {
        Some(capability) => capability.covers(key),
        None => false,
    }
}

/// Creates an account at `target`: funds it from `payer` up to
/// `minimum_balance`, the rent-exempt minimum for `space` bytes, hands it to
/// `owner`, and gives it `space` zero bytes of data.
///
/// `target` has to have signed the transaction, or the call has to carry the
/// signer capability for its address; else the call fails as unauthorized.
/// It fails for want of funds where the payer cannot cover what `target`
/// lacks. A call that fails changes neither account.
pub fn create_account(
    payer: &mut Account,
    target: &mut Account,
    owner: &Pubkey,
    space: usize,
    minimum_balance: u64,
    signer: Option<&SignerCapability>,
) -> (r: Result<(), DelegateError>)
    ensures
        match create_account_outcome(
            old(payer)@,
            old(target)@,
            owner@,
            space as nat,
            minimum_balance,
            signer_view(signer),
        ) {
            Ok((funded_from, created)) => {
                &&& r is Ok
                &&& final(payer)@ == funded_from
                &&& final(target)@ == created
            },
            Err(e) => {
                &&& r == Err::<(), DelegateError>(e)
                &&& final(payer)@ == old(payer)@
                &&& final(target)@ == old(target)@
            },
        },
{
    if !target.is_signer && !carries_capability(signer, &target.key) {
        return Err(DelegateError::AuthorizationFailure);
    }
    let amount = funding_needed(target.lamports, minimum_balance);
    if payer.lamports < amount {
        return Err(DelegateError::InsufficientFunds);
    }
    payer.lamports = payer.lamports - amount;
    target.lamports = target.lamports + amount;
    target.owner = *owner;
    target.data = zero_bytes(space);
    Ok(())
}

/// Closes the account at `target`: moves all its lamports to `payer`, zeroes
/// its data, and hands it to the system authority, so that the address can
/// be used again.
///
/// The program has to own `target`, or the call has to carry the signer
/// capability for its address; else the call fails as unauthorized and
/// changes neither account.
pub fn close_pda_acc(
    payer: &mut Account,
    target: &mut Account,
    system_authority: &Pubkey,
    program_id: &Pubkey,
    signer: Option<&SignerCapability>,
) -> (r: Result<(), DelegateError>)
    requires
        old(payer).lamports + old(target).lamports <= u64::MAX,
    ensures
        match close_account_outcome(
            old(payer)@,
            old(target)@,
            system_authority@,
            program_id@,
            signer_view(signer),
        ) {
            Ok((reclaimed_to, closed)) => {
                &&& r is Ok
                &&& final(payer)@ == reclaimed_to
                &&& final(target)@ == closed
            },
            Err(e) => {
                &&& r == Err::<(), DelegateError>(e)
                &&& final(payer)@ == old(payer)@
                &&& final(target)@ == old(target)@
            },
        },
{
    if !same_address(&target.owner, program_id) && !carries_capability(signer, &target.key) {
        return Err(DelegateError::AuthorizationFailure);
    }
    payer.lamports = payer.lamports + target.lamports;
    target.lamports = 0;
    target.owner = *system_authority;
    target.data = zero_bytes(target.data.len());
    Ok(())
}

} // verus!
