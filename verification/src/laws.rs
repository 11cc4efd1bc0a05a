//! What holds of every delegation.

use vstd::prelude::*;
use crate::account::{funding, may_close, may_create, AccountView};
use crate::address::{buffer_seed_list, DerivedAddressView};
use crate::bytes::zeroed;
use crate::codec::{decode_payload, Payload};
use crate::delegate::{
    completion_outcome,
    delegation_outcome,
    recreated_under_delegation,
    staging_outcome,
    PendingDelegationView,
    Plan,
    Staged,
};
use crate::effect::{effects_outcome, EffectView};
use crate::error::DelegateError;
use crate::ledger::{balances_fit, BUFFER_ACC, PAYER, PDA_ACC, ROLES, SYSTEM_PROGRAM};

verus! {

/// Making the staged changes one by one, in their order, is the three
/// transitions from Start to Recreated-Under-Delegation.
pub proof fn lemma_staged_effects_are_the_transitions(s: Seq<AccountView>, plan: Plan)
    ensures
        effects_outcome(s, plan.program_id, plan.staged()) == recreated_under_delegation(s, plan),
{
    reveal_with_fuel(effects_outcome, 5);
}

/// When the three transitions succeed: the buffer and the delegated account
/// are each covered, by signature, by capability or, for closing, by
/// ownership, and the payer can fund the buffer and then, with what the
/// closed account gave back, the recreated account.
pub proof fn lemma_staging_succeeds_exactly_when(s: Seq<AccountView>, plan: Plan)
    requires
        s.len() >= ROLES,
        balances_fit(s),
    ensures
        recreated_under_delegation(s, plan) is Ok <==> {
            let buffer_funding = funding(s[BUFFER_ACC as int].lamports, plan.minimum_balance);
            &&& may_create(s[BUFFER_ACC as int], Some(plan.buffer_signer))
            &&& s[PAYER as int].lamports >= buffer_funding
            &&& may_close(s[PDA_ACC as int], plan.program_id, Some(plan.signer))
            &&& may_create(s[PDA_ACC as int], Some(plan.signer))
            &&& s[PAYER as int].lamports - buffer_funding + s[PDA_ACC as int].lamports
                >= plan.minimum_balance
        },
{
}

/// What the accounts are once the three transitions are made: the buffer
/// holds the data, under the delegating program; the delegated account
/// stands at its address with as many zero bytes as it had bytes, under the
/// delegation authority, at the minimum balance; the payer has paid for both
/// and has received what the delegated account held. No other account is
/// changed, and none is added or removed.
pub proof fn lemma_staged_accounts(s: Seq<AccountView>, plan: Plan, after: Seq<AccountView>)
    requires
        balances_fit(s),
        recreated_under_delegation(s, plan) == Ok::<Seq<AccountView>, DelegateError>(after),
    ensures
        after.len() == s.len(),
        forall|i: int|
            0 <= i < s.len() && i != PAYER && i != PDA_ACC && i != BUFFER_ACC ==> after[i] == s[i],
        after[BUFFER_ACC as int] == (AccountView {
            owner: plan.program_id,
            lamports: (s[BUFFER_ACC as int].lamports + funding(
                s[BUFFER_ACC as int].lamports,
                plan.minimum_balance,
            )) as u64,
            data: s[PDA_ACC as int].data,
            ..s[BUFFER_ACC as int]
        }),
        after[PDA_ACC as int] == (AccountView {
            owner: plan.delegation_program,
            lamports: plan.minimum_balance,
            data: zeroed(plan.space),
            ..s[PDA_ACC as int]
        }),
        after[PAYER as int] == (AccountView {
            lamports: (s[PAYER as int].lamports - funding(
                s[BUFFER_ACC as int].lamports,
                plan.minimum_balance,
            ) + s[PDA_ACC as int].lamports - plan.minimum_balance) as u64,
            ..s[PAYER as int]
        }),
{
}

/// No lamport is made or lost: what the payer, the delegated account and the
/// buffer hold together is the same after the three transitions as before.
pub proof fn lemma_staging_conserves_lamports(
    s: Seq<AccountView>,
    plan: Plan,
    after: Seq<AccountView>,
)
    requires
        balances_fit(s),
        recreated_under_delegation(s, plan) == Ok::<Seq<AccountView>, DelegateError>(after),
    ensures
        after[PAYER as int].lamports + after[PDA_ACC as int].lamports
            + after[BUFFER_ACC as int].lamports == s[PAYER as int].lamports
            + s[PDA_ACC as int].lamports + s[BUFFER_ACC as int].lamports,
        balances_fit(after),
{
    lemma_staged_accounts(s, plan, after);
}

/// What the accounts are once a delegation is completed: the buffer is
/// zeroed, emptied of lamports and handed to the system authority, the payer
/// holds what the buffer held, and no other account is changed.
pub proof fn lemma_completed_accounts(
    s: Seq<AccountView>,
    pending: PendingDelegationView,
    after: Seq<AccountView>,
)
    requires
        balances_fit(s),
        completion_outcome(s, pending, Ok(())) == (after, Ok::<(), DelegateError>(())),
    ensures
        after.len() == s.len(),
        forall|i: int| 0 <= i < s.len() && i != PAYER && i != BUFFER_ACC ==> after[i] == s[i],
        after[BUFFER_ACC as int] == (AccountView {
            owner: s[SYSTEM_PROGRAM as int].key,
            lamports: 0,
            data: zeroed(s[BUFFER_ACC as int].data.len()),
            ..s[BUFFER_ACC as int]
        }),
        after[PAYER as int] == (AccountView {
            lamports: (s[PAYER as int].lamports + s[BUFFER_ACC as int].lamports) as u64,
            ..s[PAYER as int]
        }),
{
}

/// Data preservation: where a delegation is staged, the buffer that the
/// delegation authority receives holds the data that the delegated account
/// held at the start, byte for byte, whatever its size.
pub proof fn lemma_buffer_holds_the_data(
    program_id: Seq<u8>,
    delegation_program: Seq<u8>,
    s: Seq<AccountView>,
    payload: Payload,
    delegated: DerivedAddressView,
    buffer: DerivedAddressView,
    minimum_balance: u64,
)
    requires
        staging_outcome(
            program_id,
            delegation_program,
            s,
            payload,
            delegated,
            buffer,
            minimum_balance,
        ) is Ok,
    ensures
        staging_outcome(
            program_id,
            delegation_program,
            s,
            payload,
            delegated,
            buffer,
            minimum_balance,
        )->Ok_0.accounts[BUFFER_ACC as int].data == s[PDA_ACC as int].data,
{
}

/// Atomicity: where the delegation authority fails, every account is again
/// as it was before the delegation began, whatever the authority did to the
/// accounts in between, and its error is reported as it came.
pub proof fn lemma_failed_invocation_leaves_no_change(
    program_id: Seq<u8>,
    delegation_program: Seq<u8>,
    s: Seq<AccountView>,
    instruction_data: Seq<u8>,
    minimum_balance: u64,
    invoked: Seq<AccountView>,
    code: u64,
)
    requires
        delegation_outcome(program_id, delegation_program, s, instruction_data, minimum_balance)
            is Ok,
    ensures
        completion_outcome(
            invoked,
            delegation_outcome(
                program_id,
                delegation_program,
                s,
                instruction_data,
                minimum_balance,
            )->Ok_0.pending,
            Err(code),
        ) == (s, Err::<(), DelegateError>(DelegateError::ExternalInvocationFailure(code))),
{
}

/// Authorization enforcement: a delegation whose payer did not sign is
/// refused for the missing signature, whatever else it holds.
pub proof fn lemma_unsigned_payer_is_refused(
    program_id: Seq<u8>,
    delegation_program: Seq<u8>,
    s: Seq<AccountView>,
    instruction_data: Seq<u8>,
    minimum_balance: u64,
)
    requires
        s.len() >= ROLES,
        !s[PAYER as int].is_signer,
    ensures
        delegation_outcome(program_id, delegation_program, s, instruction_data, minimum_balance)
            == Err::<Staged, DelegateError>(DelegateError::MissingSignature),
{
}

/// Where the host derives the addresses, the two capabilities of a staged
/// delegation are held by the delegating program: the seeds of the payload
/// derive the address the one signs for, the buffer seeds of the delegated
/// account the address the other signs for, each with its bump.
pub proof fn lemma_signers_are_derived(
    program_id: Seq<u8>,
    delegation_program: Seq<u8>,
    s: Seq<AccountView>,
    instruction_data: Seq<u8>,
    minimum_balance: u64,
)
    requires
        delegation_outcome(program_id, delegation_program, s, instruction_data, minimum_balance)
            is Ok,
    ensures
        ({
            let pending = delegation_outcome(
                program_id,
                delegation_program,
                s,
                instruction_data,
                minimum_balance,
            )->Ok_0.pending;
            &&& decode_payload(instruction_data) == Some(pending.args)
            &&& pending.signer.seeds == pending.args.seeds
            &&& pending.signer.held_by(program_id)
            &&& pending.buffer_signer.seeds == buffer_seed_list(s[PDA_ACC as int].key)
            &&& pending.buffer_signer.held_by(program_id)
        }),
{
}

} // verus!
