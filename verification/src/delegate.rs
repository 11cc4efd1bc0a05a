//! The delegation itself: the sequence that hands a derived account over to
//! the delegation authority without losing its data.
//!
//! ```text
//! Start -> Backed-Up -> Original-Closed -> Recreated-Under-Delegation
//!       -> Invoked -> Buffer-Closed
//! ```
//!
//! `process_delegation` checks the accounts, decodes the payload and has the
//! two addresses derived; `stage_delegation` then takes the accounts from
//! Start to Recreated-Under-Delegation. The caller invokes the delegation
//! authority with what `PendingDelegation` holds, and hands the outcome to
//! `complete_delegation`, which closes the buffer or undoes everything.
//! Either the whole sequence is applied or nothing is.

use vstd::prelude::*;
use pinocchio::pubkey::Pubkey;
use crate::account::{Account, AccountView};
use crate::address::{
    buffer_seed_list,
    buffer_seeds,
    derivation,
    find_program_address,
    DerivedAddress,
    DerivedAddressView,
};
use crate::codec::{
    decode_payload,
    deserialize_delegate_ix_data,
    payload_of,
    seed_list,
    DelegateConfig,
    Payload,
};
use crate::effect::{
    apply_effect,
    effect_list,
    effect_outcome,
    Effect,
    EffectView,
    Target,
};
use crate::error::DelegateError;
use crate::ledger::{
    balances_fit,
    clone_accounts,
    ledger,
    BUFFER_ACC,
    PAYER,
    PDA_ACC,
    ROLES,
};
use crate::signer::{capability_for, SignerCapability, SignerCapabilityView};

verus! {

/// What the delegation authority is told: the seeds of the delegated
/// account and the configuration the caller chose.
#[derive(Debug, PartialEq, Eq)]
pub struct DelegateAccountArgs {
    pub commit_frequency_ms: u32,
    pub seeds: Vec<Vec<u8>>,
    pub validator: Pubkey,
}

impl View for DelegateAccountArgs {
    type V = Payload;

    open spec fn view(&self) -> Payload {
        Payload {
            seeds: seed_list(self.seeds@),
            commit_frequency_ms: self.commit_frequency_ms,
            validator: self.validator@,
        }
    }
}

/// A delegation that waits for the delegation authority: the accounts are
/// recreated under delegation, and the call still has to be made.
#[derive(Debug, PartialEq, Eq)]
pub struct PendingDelegation {
    /// What to tell the delegation authority.
    pub args: DelegateAccountArgs,
    /// The capability for the delegated account, to invoke the authority with.
    pub signer: SignerCapability,
    /// The capability for the buffer.
    pub buffer_signer: SignerCapability,
    /// The program that delegates.
    pub program_id: Pubkey,
    /// The changes that were made to the accounts, in their order.
    pub staged: Vec<Effect>,
    /// The accounts as they were before anything was done.
    pub snapshot: Vec<Account>,
}

/// A pending delegation as mathematical values.
pub struct PendingDelegationView {
    pub args: Payload,
    pub signer: SignerCapabilityView,
    pub buffer_signer: SignerCapabilityView,
    pub program_id: Seq<u8>,
    pub staged: Seq<EffectView>,
    pub snapshot: Seq<AccountView>,
}

impl View for PendingDelegation {
    type V = PendingDelegationView;

    open spec fn view(&self) -> PendingDelegationView {
        PendingDelegationView {
            args: self.args@,
            signer: self.signer@,
            buffer_signer: self.buffer_signer@,
            program_id: self.program_id@,
            staged: effect_list(self.staged@),
            snapshot: ledger(self.snapshot@),
        }
    }
}

impl PendingDelegationView {
    /// The change that ends the delegation once the authority has answered:
    /// the buffer is closed.
    pub open spec fn closing(self) -> EffectView {
        EffectView::CloseAccount { target: Target::Buffer, signer: self.buffer_signer }
    }
}

/// What every transition of one delegation goes by.
pub struct Plan {
    /// The program that delegates.
    pub program_id: Seq<u8>,
    /// The delegation authority that takes the account over.
    pub delegation_program: Seq<u8>,
    /// The size of the delegated account at the start.
    pub space: nat,
    /// The rent-exempt minimum for an account of that size.
    pub minimum_balance: u64,
    /// The capability for the delegated account.
    pub signer: SignerCapabilityView,
    /// The capability for the buffer.
    pub buffer_signer: SignerCapabilityView,
}

impl Plan {
    /// The buffer is created with the size of the delegated account, owned
    /// by the delegating program.
    pub open spec fn create_buffer(self) -> EffectView {
        EffectView::CreateAccount {
            target: Target::Buffer,
            owner: self.program_id,
            space: self.space,
            minimum_balance: self.minimum_balance,
            signer: self.buffer_signer,
        }
    }

    /// The delegated account is closed.
    pub open spec fn close_original(self) -> EffectView {
        EffectView::CloseAccount { target: Target::Delegated, signer: self.signer }
    }

    /// An account of the same size is created at the same address, owned by
    /// the delegation authority.
    pub open spec fn recreate(self) -> EffectView {
        EffectView::CreateAccount {
            target: Target::Delegated,
            owner: self.delegation_program,
            space: self.space,
            minimum_balance: self.minimum_balance,
            signer: self.signer,
        }
    }

    /// The changes that take the accounts from Start to
    /// Recreated-Under-Delegation, in their order.
    pub open spec fn staged(self) -> Seq<EffectView> {
        seq![self.create_buffer(), EffectView::CopyData, self.close_original(), self.recreate()]
    }
}

/// Start to Backed-Up: the buffer is created, and takes the data of the
/// delegated account before anything is destroyed.
pub open spec fn backed_up(s: Seq<AccountView>, plan: Plan) -> Result<
    Seq<AccountView>,
    DelegateError,
> {
    match effect_outcome(s, plan.program_id, plan.create_buffer()) {
        Ok(created) => effect_outcome(created, plan.program_id, EffectView::CopyData),
        Err(e) => Err(e),
    }
}

/// Backed-Up to Original-Closed: the delegated account is closed, and what
/// it held goes to the payer.
pub open spec fn original_closed(s: Seq<AccountView>, plan: Plan) -> Result<
    Seq<AccountView>,
    DelegateError,
> {
    effect_outcome(s, plan.program_id, plan.close_original())
}

/// Original-Closed to Recreated-Under-Delegation: the account is created
/// anew at the same address, owned by the delegation authority.
pub open spec fn recreated(s: Seq<AccountView>, plan: Plan) -> Result<
    Seq<AccountView>,
    DelegateError,
> {
    effect_outcome(s, plan.program_id, plan.recreate())
}

/// The first three transitions, in their order.
pub open spec fn recreated_under_delegation(s: Seq<AccountView>, plan: Plan) -> Result<
    Seq<AccountView>,
    DelegateError,
> {
    match backed_up(s, plan) {
        Ok(saved) => match original_closed(saved, plan) {
            Ok(closed) => recreated(closed, plan),
            Err(e) => Err(e),
        },
        Err(e) => Err(e),
    }
}

/// The accounts after staging, and what is left to do.
pub struct Staged {
    pub accounts: Seq<AccountView>,
    pub pending: PendingDelegationView,
}

/// The plan of a delegation of the accounts `s`, given the two addresses the
/// host derived: `delegated` from the seeds of the payload, `buffer` from the
/// buffer seeds of the delegated account.
pub open spec fn staging_plan(
    program_id: Seq<u8>,
    delegation_program: Seq<u8>,
    s: Seq<AccountView>,
    payload: Payload,
    delegated: DerivedAddressView,
    buffer: DerivedAddressView,
    minimum_balance: u64,
) -> Plan {
    Plan {
        program_id,
        delegation_program,
        space: s[PDA_ACC as int].data.len(),
        minimum_balance,
        signer: capability_for(payload.seeds, delegated),
        buffer_signer: capability_for(buffer_seed_list(s[PDA_ACC as int].key), buffer),
    }
}

/// What staging a delegation comes to, given the two addresses the host
/// derived: fewer than seven accounts are not enough, the payer has to have
/// signed, and then the three transitions are made by the plan.
pub open spec fn staging_outcome(
    program_id: Seq<u8>,
    delegation_program: Seq<u8>,
    s: Seq<AccountView>,
    payload: Payload,
    delegated: DerivedAddressView,
    buffer: DerivedAddressView,
    minimum_balance: u64,
) -> Result<Staged, DelegateError> {
    if s.len() < ROLES {
        Err(DelegateError::NotEnoughAccounts)
    } else if !s[PAYER as int].is_signer {
        Err(DelegateError::MissingSignature)
    } else {
        let plan = staging_plan(
            program_id,
            delegation_program,
            s,
            payload,
            delegated,
            buffer,
            minimum_balance,
        );
        match recreated_under_delegation(s, plan) {
            Ok(accounts) => Ok(
                Staged {
                    accounts,
                    pending: PendingDelegationView {
                        args: payload,
                        signer: plan.signer,
                        buffer_signer: plan.buffer_signer,
                        program_id,
                        staged: plan.staged(),
                        snapshot: s,
                    },
                },
            ),
            Err(e) => Err(e),
        }
    }
}

/// What a delegation comes to up to the call of the delegation authority:
/// the checks in their order, the two derivations, and the staging.
pub open spec fn delegation_outcome(
    program_id: Seq<u8>,
    delegation_program: Seq<u8>,
    s: Seq<AccountView>,
    instruction_data: Seq<u8>,
    minimum_balance: u64,
) -> Result<Staged, DelegateError> {
    if s.len() < ROLES {
        Err(DelegateError::NotEnoughAccounts)
    } else if !s[PAYER as int].is_signer {
        Err(DelegateError::MissingSignature)
    } else {
        match decode_payload(instruction_data) {
            None => Err(DelegateError::InvalidPayload),
            Some(payload) => match derivation(payload.seeds, program_id) {
                Err(e) => Err(e),
                Ok(delegated) => match derivation(
                    buffer_seed_list(s[PDA_ACC as int].key),
                    program_id,
                ) {
                    Err(e) => Err(e),
                    Ok(buffer) => staging_outcome(
                        program_id,
                        delegation_program,
                        s,
                        payload,
                        delegated,
                        buffer,
                        minimum_balance,
                    ),
                },
            },
        }
    }
}

/// The accounts after the delegation authority has answered, and what the
/// caller is told. Where the authority succeeded the buffer is closed. A
/// failure of the authority, or of closing the buffer, puts every account
/// back as it was before the delegation began.
pub open spec fn completion_outcome(
    s: Seq<AccountView>,
    pending: PendingDelegationView,
    outcome: Result<(), u64>,
) -> (Seq<AccountView>, Result<(), DelegateError>) {
    match outcome {
        Err(code) => (pending.snapshot, Err(DelegateError::ExternalInvocationFailure(code))),
        Ok(_) => match effect_outcome(s, pending.program_id, pending.closing()) {
            Ok(closed) => (closed, Ok(())),
            Err(e) => (pending.snapshot, Err(e)),
        },
    }
}

/// Takes the accounts from Start to Recreated-Under-Delegation, given the
/// seeds and the configuration of the payload and the two addresses that
/// the host derived.
///
/// The payer has to be a signer. The buffer is created with the size of the
/// delegated account and receives its data byte for byte before anything is
/// destroyed; then the delegated account is closed and recreated at the same
/// address with the same size, owned by the delegation authority. Where any
/// step fails, no account is changed.
pub fn stage_delegation(
    program_id: &Pubkey,
    delegation_program: &Pubkey,
    accounts: &mut Vec<Account>,
    seeds: Vec<Vec<u8>>,
    config: DelegateConfig,
    delegated: &DerivedAddress,
    buffer: &DerivedAddress,
    minimum_balance: u64,
) -> (r: Result<PendingDelegation, DelegateError>)
    requires
        balances_fit(ledger(old(accounts)@)),
    ensures
        match staging_outcome(
            program_id@,
            delegation_program@,
            ledger(old(accounts)@),
            payload_of(seeds@, config),
            delegated@,
            buffer@,
            minimum_balance,
        ) {
            Ok(staged) => {
                &&& r matches Ok(pending)
                &&& pending@ == staged.pending
                &&& ledger(final(accounts)@) == staged.accounts
            },
            Err(e) => {
                &&& r matches Err(refusal)
                &&& refusal == e
                &&& ledger(final(accounts)@) == ledger(old(accounts)@)
            },
        },
        old(accounts)@.len() >= ROLES && !old(accounts)@[PAYER as int].is_signer ==> {
            &&& r matches Err(refusal)
            &&& refusal == DelegateError::MissingSignature
        },
        r matches Ok(pending) ==> {
            &&& ledger(final(accounts)@)[BUFFER_ACC as int].data == ledger(
                old(accounts)@,
            )[PDA_ACC as int].data
            &&& pending@.snapshot == ledger(old(accounts)@)
        },
{
    if accounts.len() < ROLES {
        return Err(DelegateError::NotEnoughAccounts);
    }
    if !accounts[PAYER].is_signer {
        return Err(DelegateError::MissingSignature);
    }
    let space = accounts[PDA_ACC].data.len();
    let signer = SignerCapability::new(&seeds, delegated);
    let buffer_signer = SignerCapability::new(&buffer_seeds(&accounts[PDA_ACC].key), buffer);
    let ghost plan = Plan {
        program_id: program_id@,
        delegation_program: delegation_program@,
        space: space as nat,
        minimum_balance,
        signer: signer@,
        buffer_signer: buffer_signer@,
    };
    let snapshot = clone_accounts(accounts);
    let mut staged: Vec<Effect> = Vec::new();

    // Start -> Backed-Up
    let create_buffer = Effect::CreateAccount {
        target: Target::Buffer,
        owner: *program_id,
        space,
        minimum_balance,
        signer: buffer_signer.clone(),
    };
    match apply_effect(accounts, program_id, &create_buffer) {
        Ok(_) => {},
        Err(e) => {
            return Err(e);
        },
    }
    match apply_effect(accounts, program_id, &Effect::CopyData) {
        Ok(_) => {},
        Err(e) => {
            *accounts = snapshot;
            return Err(e);
        },
    }

    // Backed-Up -> Original-Closed
    let close_original = Effect::CloseAccount { target: Target::Delegated, signer: signer.clone() };
    match apply_effect(accounts, program_id, &close_original) {
        Ok(_) => {},
        Err(e) => {
            *accounts = snapshot;
            return Err(e);
        },
    }

    // Original-Closed -> Recreated-Under-Delegation
    let recreate = Effect::CreateAccount {
        target: Target::Delegated,
        owner: *delegation_program,
        space,
        minimum_balance,
        signer: signer.clone(),
    };
    match apply_effect(accounts, program_id, &recreate) {
        Ok(_) => {},
        Err(e) => {
            *accounts = snapshot;
            return Err(e);
        },
    }

    staged.push(create_buffer);
    staged.push(Effect::CopyData);
    staged.push(close_original);
    staged.push(recreate);
    assert(effect_list(staged@) =~= plan.staged());
    Ok(
        PendingDelegation {
            args: DelegateAccountArgs {
                commit_frequency_ms: config.commit_frequency_ms,
                seeds,
                validator: config.validator,
            },
            signer,
            buffer_signer,
            program_id: *program_id,
            staged,
            snapshot,
        },
    )
}

/// Delegates the derived account of an account list: the transitions from
/// Start to Recreated-Under-Delegation, for the seeds and the configuration
/// that `instruction_data` encodes.
///
/// The accounts are, in this order, the payer, the delegated account, its
/// owning program, the buffer, the delegation record, the delegation
/// metadata and the system authority; more are ignored. `minimum_balance` is
/// the host's rent-exempt minimum for an account of the delegated account's
/// size. The call fails, in this order, where fewer than seven accounts are
/// given, where the payer did not sign, where the payload is malformed, where
/// an address cannot be derived, and where a step of the staging is refused.
/// Where it fails, no account is changed.
pub fn process_delegation(
    program_id: &Pubkey,
    delegation_program: &Pubkey,
    accounts: &mut Vec<Account>,
    instruction_data: &[u8],
    minimum_balance: u64,
) -> (r: Result<PendingDelegation, DelegateError>)
    requires
        balances_fit(ledger(old(accounts)@)),
    ensures
        match delegation_outcome(
            program_id@,
            delegation_program@,
            ledger(old(accounts)@),
            instruction_data@,
            minimum_balance,
        ) {
            Ok(staged) => {
                &&& r matches Ok(pending)
                &&& pending@ == staged.pending
                &&& ledger(final(accounts)@) == staged.accounts
            },
            Err(e) => {
                &&& r matches Err(refusal)
                &&& refusal == e
                &&& ledger(final(accounts)@) == ledger(old(accounts)@)
            },
        },
        old(accounts)@.len() >= ROLES && !old(accounts)@[PAYER as int].is_signer ==> {
            &&& r matches Err(refusal)
            &&& refusal == DelegateError::MissingSignature
        },
        r matches Ok(pending) ==> {
            &&& ledger(final(accounts)@)[BUFFER_ACC as int].data == ledger(
                old(accounts)@,
            )[PDA_ACC as int].data
            &&& pending@.snapshot == ledger(old(accounts)@)
        },
{
    if accounts.len() < ROLES {
        return Err(DelegateError::NotEnoughAccounts);
    }
    if !accounts[PAYER].is_signer {
        return Err(DelegateError::MissingSignature);
    }
    let (seeds, config) = match deserialize_delegate_ix_data(instruction_data) {
        Ok(decoded) => decoded,
        Err(e) => {
            return Err(e);
        },
    };
    let delegated = match find_program_address(&seeds, program_id) {
        Ok(derived) => derived,
        Err(e) => {
            return Err(e);
        },
    };
    let buffer = match find_program_address(&buffer_seeds(&accounts[PDA_ACC].key), program_id) {
        Ok(derived) => derived,
        Err(e) => {
            return Err(e);
        },
    };
    stage_delegation(
        program_id,
        delegation_program,
        accounts,
        seeds,
        config,
        &delegated,
        &buffer,
        minimum_balance,
    )
}

impl PendingDelegation {
    /// The change that ends the delegation once the authority has answered:
    /// the buffer is closed.
    pub fn closing(&self) -> (r: Effect)
        ensures
            r@ == self@.closing(),
    {
        Effect::CloseAccount { target: Target::Buffer, signer: self.buffer_signer.clone() }
    }
}

/// Ends a delegation once the delegation authority has answered: from
/// Invoked to Buffer-Closed.
///
/// Where the authority succeeded, the buffer is closed and what it held goes
/// to the payer; only then is success reported. Where the authority failed,
/// its error is reported as it came, and every account is put back as it
/// was before the delegation began; so it is where the buffer cannot be
/// closed.
pub fn complete_delegation(
    accounts: &mut Vec<Account>,
    pending: PendingDelegation,
    outcome: Result<(), u64>,
) -> (r: Result<(), DelegateError>)
    requires
        outcome is Ok ==> balances_fit(ledger(old(accounts)@)),
    ensures
        (ledger(final(accounts)@), r) == completion_outcome(
            ledger(old(accounts)@),
            pending@,
            outcome,
        ),
        outcome is Err ==> ledger(final(accounts)@) == pending@.snapshot,
{
    match outcome {
        Err(code) => {
            *accounts = pending.snapshot;
            Err(DelegateError::ExternalInvocationFailure(code))
        },
        Ok(_) => {
            let closing = pending.closing();
            match apply_effect(accounts, &pending.program_id, &closing) {
                Ok(_) => Ok(()),
                Err(e) => {
                    *accounts = pending.snapshot;
                    Err(e)
                },
            }
        },
    }
}

} // verus!
