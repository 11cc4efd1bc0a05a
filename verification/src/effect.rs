//! The changes a delegation makes to its accounts, one by one.
//!
//! The accounts belong to a host. This crate works out each change on its
//! own record of the accounts, and names the change, so that whoever holds
//! the accounts themselves can make the same changes in the same order.

use vstd::prelude::*;
use pinocchio::pubkey::Pubkey;
use crate::account::{
    close_account_outcome,
    close_pda_acc,
    create_account,
    create_account_outcome,
    Account,
    AccountView,
};
use crate::bytes::copy_bytes;
use crate::error::DelegateError;
use crate::ledger::{balances_fit, ledger, BUFFER_ACC, PAYER, PDA_ACC, ROLES, SYSTEM_PROGRAM};
use crate::signer::{SignerCapability, SignerCapabilityView};

verus! {

/// The two accounts that a delegation creates and closes.
#[derive(Clone, Copy, Debug, PartialEq, Eq, Structural)]
pub enum Target {
    /// The account that is delegated.
    Delegated,
    /// The buffer that keeps its data.
    Buffer,
}

impl Target {
    /// The place of the account in the account list.
    pub open spec fn place(self) -> int {
        match self {
            Target::Delegated => PDA_ACC as int,
            Target::Buffer => BUFFER_ACC as int,
        }
    }

    /// The place of the account in the account list.
    pub fn index(&self) -> (r: usize)
        ensures
            r == self.place(),
    {
        match self {
            Target::Delegated => PDA_ACC,
            Target::Buffer => BUFFER_ACC,
        }
    }
}

/// One change to the accounts of a delegation. The payer and the system
/// authority are those of the account list.
#[derive(Debug, PartialEq, Eq)]
pub enum Effect {
    /// The account at `target` is created: funded by the payer up to
    /// `minimum_balance`, owned by `owner`, with `space` zero bytes of data.
    CreateAccount {
        target: Target,
        owner: Pubkey,
        space: usize,
        minimum_balance: u64,
        signer: SignerCapability,
    },
    /// The buffer takes the data of the delegated account, byte for byte.
    CopyData,
    /// The account at `target` is closed in favour of the payer.
    CloseAccount { target: Target, signer: SignerCapability },
}

/// A change as mathematical values.
pub enum EffectView {
    CreateAccount {
        target: Target,
        owner: Seq<u8>,
        space: nat,
        minimum_balance: u64,
        signer: SignerCapabilityView,
    },
    CopyData,
    CloseAccount { target: Target, signer: SignerCapabilityView },
}

impl View for Effect {
    type V = EffectView;

    open spec fn view(&self) -> EffectView {
        match self {
            Effect::CreateAccount { target, owner, space, minimum_balance, signer } => {
                EffectView::CreateAccount {
                    target: *target,
                    owner: owner@,
                    space: *space as nat,
                    minimum_balance: *minimum_balance,
                    signer: signer@,
                }
            },
            Effect::CopyData => EffectView::CopyData,
            Effect::CloseAccount { target, signer } => EffectView::CloseAccount {
                target: *target,
                signer: signer@,
            },
        }
    }
}

/// The changes of a list, as mathematical values.
pub open spec fn effect_list(effects: Seq<Effect>) -> Seq<EffectView> {
    Seq::new(effects.len(), |i: int| effects[i]@)
}

/// The accounts after one change by `program_id`, or the reason the change
/// is refused.
pub open spec fn effect_outcome(
    s: Seq<AccountView>,
    program_id: Seq<u8>,
    effect: EffectView,
) -> Result<Seq<AccountView>, DelegateError> {
    if s.len() < ROLES {
        Err(DelegateError::NotEnoughAccounts)
    } else {
        match effect {
            EffectView::CreateAccount { target, owner, space, minimum_balance, signer } => {
                match create_account_outcome(
                    s[PAYER as int],
                    s[target.place()],
                    owner,
                    space,
                    minimum_balance,
                    Some(signer),
                ) {
                    Ok((payer, created)) => Ok(
                        s.update(PAYER as int, payer).update(target.place(), created),
                    ),
                    Err(e) => Err(e),
                }
            },
            EffectView::CopyData => Ok(
                s.update(
                    BUFFER_ACC as int,
                    AccountView { data: s[PDA_ACC as int].data, ..s[BUFFER_ACC as int] },
                ),
            ),
            EffectView::CloseAccount { target, signer } => {
                match close_account_outcome(
                    s[PAYER as int],
                    s[target.place()],
                    s[SYSTEM_PROGRAM as int].key,
                    program_id,
                    Some(signer),
                ) {
                    Ok((payer, closed)) => Ok(
                        s.update(PAYER as int, payer).update(target.place(), closed),
                    ),
                    Err(e) => Err(e),
                }
            },
        }
    }
}

/// The accounts after the changes of a list, made in their order, or the
/// reason the first refused change is refused.
pub open spec fn effects_outcome(
    s: Seq<AccountView>,
    program_id: Seq<u8>,
    effects: Seq<EffectView>,
) -> Result<Seq<AccountView>, DelegateError>
    decreases effects.len(),
{
    if effects.len() == 0 {
        Ok(s)
    } else {
        match effect_outcome(s, program_id, effects[0]) {
            Ok(next) => effects_outcome(next, program_id, effects.skip(1)),
            Err(e) => Err(e),
        }
    }
}

/// Makes one change to the accounts, as `program_id`.
///
/// Where the change is refused, no account is changed.
pub fn apply_effect(accounts: &mut Vec<Account>, program_id: &Pubkey, effect: &Effect) -> (r:
    Result<(), DelegateError>)
    requires
        balances_fit(ledger(old(accounts)@)),
    ensures
        match effect_outcome(ledger(old(accounts)@), program_id@, effect@) {
            Ok(changed) => r is Ok && ledger(final(accounts)@) == changed,
            Err(e) => r == Err::<(), DelegateError>(e) && ledger(final(accounts)@) == ledger(
                old(accounts)@,
            ),
        },
{
    if accounts.len() < ROLES {
        return Err(DelegateError::NotEnoughAccounts);
    }
    match effect {
        Effect::CreateAccount { target, owner, space, minimum_balance, signer } => {
            let place = target.index();
            let mut payer = accounts[PAYER].clone();
            let mut created = accounts[place].clone();
            match create_account(
                &mut payer,
                &mut created,
                owner,
                *space,
                *minimum_balance,
                Some(signer),
            ) {
                Ok(_) => {
                    accounts.set(PAYER, payer);
                    accounts.set(place, created);
                    Ok(())
                },
                Err(e) => Err(e),
            }
        },
        Effect::CopyData => {
            let mut buffer = accounts[BUFFER_ACC].clone();
            buffer.data = copy_bytes(accounts[PDA_ACC].data.as_slice());
            accounts.set(BUFFER_ACC, buffer);
            Ok(())
        },
        Effect::CloseAccount { target, signer } => {
            let place = target.index();
            let mut payer = accounts[PAYER].clone();
            let mut closed = accounts[place].clone();
            let system_authority = accounts[SYSTEM_PROGRAM].key;
            match close_pda_acc(
                &mut payer,
                &mut closed,
                &system_authority,
                program_id,
                Some(signer),
            ) {
                Ok(_) => {
                    accounts.set(PAYER, payer);
                    accounts.set(place, closed);
                    Ok(())
                },
                Err(e) => Err(e),
            }
        },
    }
}

} // verus!
