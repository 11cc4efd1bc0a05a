//! Where an instruction enters: the first byte of the instruction data
//! selects the operation, the rest is that operation's payload.

use vstd::prelude::*;
use vstd::slice::slice_subrange;
use pinocchio::pubkey::Pubkey;
use crate::account::{Account, AccountView};
use crate::delegate::{delegation_outcome, process_delegation, PendingDelegation, Staged};
use crate::ledger::{balances_fit, ledger};
use crate::error::DelegateError;
use crate::instructions::{operation_of, DelegateProgram};

verus! {

/// What an instruction comes to: instruction data that is empty, or whose
/// first byte selects no operation, is an invalid payload; else the outcome
/// is that of the delegation on the bytes after the first.
pub open spec fn instruction_outcome(
    program_id: Seq<u8>,
    delegation_program: Seq<u8>,
    s: Seq<AccountView>,
    instruction_data: Seq<u8>,
    minimum_balance: u64,
) -> Result<Staged, DelegateError> {
    if instruction_data.len() == 0 {
        Err(DelegateError::InvalidPayload)
    } else {
        match operation_of(instruction_data[0]) {
            Err(e) => Err(e),
            Ok(DelegateProgram::Delegate) => delegation_outcome(
                program_id,
                delegation_program,
                s,
                instruction_data.skip(1),
                minimum_balance,
            ),
        }
    }
}

/// Processes one instruction: reads the operation off the first byte and
/// runs it on the rest.
///
/// Any first byte but `0` is refused as an invalid payload before an account
/// is touched, and so is empty instruction data. Where the call fails, no
/// account is changed.
pub fn process_instruction(
    program_id: &Pubkey,
    delegation_program: &Pubkey,
    accounts: &mut Vec<Account>,
    instruction_data: &[u8],
    minimum_balance: u64,
) -> (r: Result<PendingDelegation, DelegateError>)
    requires
        balances_fit(ledger(old(accounts)@)),
    ensures
        match instruction_outcome(
            program_id@,
            delegation_program@,
            ledger(old(accounts)@),
            instruction_data@,
            minimum_balance,
        ) {
            Ok(staged) => {
                &&& r matches Ok(pending)
                &&& pending@ == staged.pending
                &&& ledger(final(accounts)@) == staged.accounts
            },
            Err(e) => {
                &&& r matches Err(refusal)
                &&& refusal == e
                &&& ledger(final(accounts)@) == ledger(old(accounts)@)
            },
        },
        instruction_data@.len() == 0 || instruction_data@[0] != 0 ==> {
            &&& r matches Err(refusal)
            &&& refusal == DelegateError::InvalidPayload
            &&& ledger(final(accounts)@) == ledger(old(accounts)@)
        },
{
    let n = instruction_data.len();
    if n == 0 {
        return Err(DelegateError::InvalidPayload);
    }
    match DelegateProgram::try_from(&instruction_data[0]) {
        Err(e) => Err(e),
        Ok(DelegateProgram::Delegate) => {
            let payload = slice_subrange(instruction_data, 1, n);
            process_delegation(program_id, delegation_program, accounts, payload, minimum_balance)
        },
    }
}

/// Unknown operations are refused: instruction data whose first byte is not
/// `0` is an invalid payload, whatever the accounts are and whatever follows
/// the byte.
pub proof fn lemma_unknown_operation_is_refused(
    program_id: Seq<u8>,
    delegation_program: Seq<u8>,
    s: Seq<AccountView>,
    instruction_data: Seq<u8>,
    minimum_balance: u64,
)
    requires
        instruction_data.len() > 0,
        instruction_data[0] != 0,
    ensures
        instruction_outcome(program_id, delegation_program, s, instruction_data, minimum_balance)
            == Err::<Staged, DelegateError>(DelegateError::InvalidPayload),
{
}

} // verus!
