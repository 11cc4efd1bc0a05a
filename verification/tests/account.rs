use delegation::account::{close_pda_acc, create_account, funding_needed, Account};
use delegation::address::DerivedAddress;
use delegation::error::DelegateError;
use delegation::signer::SignerCapability;

const PROGRAM: [u8; 32] = [1u8; 32];
const SYSTEM: [u8; 32] = [0u8; 32];

fn wallet(lamports: u64) -> Account {
    Account {
        key: [0xa0u8; 32],
        owner: SYSTEM,
        lamports,
        data: vec![],
        is_signer: true,
        is_writable: true,
    }
}

fn derived_account(key: [u8; 32], owner: [u8; 32], lamports: u64, data: Vec<u8>) -> Account {
    Account { key, owner, lamports, data, is_signer: false, is_writable: true }
}

fn capability(address: [u8; 32]) -> SignerCapability {
    SignerCapability::new(&vec![b"seed".to_vec()], &DerivedAddress { address, bump: 255 })
}

#[test]
fn create_funds_assigns_and_allocates() {
    let mut payer = wallet(1_000);
    let mut target = derived_account([0xb0u8; 32], SYSTEM, 0, vec![]);
    let signer = capability([0xb0u8; 32]);
    assert_eq!(create_account(&mut payer, &mut target, &PROGRAM, 8, 300, Some(&signer)), Ok(()));
    assert_eq!(payer, wallet(700));
    assert_eq!(target, derived_account([0xb0u8; 32], PROGRAM, 300, vec![0u8; 8]));
}

#[test]
fn create_accepts_a_signing_target_without_capability() {
    let mut payer = wallet(1_000);
    let mut target = derived_account([0xb0u8; 32], SYSTEM, 0, vec![]);
    target.is_signer = true;
    assert_eq!(create_account(&mut payer, &mut target, &PROGRAM, 2, 10, None), Ok(()));
    assert_eq!(payer.lamports, 990);
    assert_eq!(target.lamports, 10);
    assert_eq!(target.owner, PROGRAM);
    assert_eq!(target.data, vec![0u8, 0]);
}

#[test]
fn create_without_signature_or_capability_is_unauthorized() {
    let mut payer = wallet(1_000);
    let mut target = derived_account([0xb0u8; 32], SYSTEM, 0, vec![1, 2]);
    assert_eq!(
        create_account(&mut payer, &mut target, &PROGRAM, 8, 300, None),
        Err(DelegateError::AuthorizationFailure)
    );
    assert_eq!(payer, wallet(1_000));
    assert_eq!(target, derived_account([0xb0u8; 32], SYSTEM, 0, vec![1, 2]));
}

#[test]
fn create_with_capability_for_another_address_is_unauthorized() {
    let mut payer = wallet(1_000);
    let mut target = derived_account([0xb0u8; 32], SYSTEM, 0, vec![]);
    let other = capability([0xb1u8; 32]);
    assert_eq!(
        create_account(&mut payer, &mut target, &PROGRAM, 8, 300, Some(&other)),
        Err(DelegateError::AuthorizationFailure)
    );
    assert_eq!(payer, wallet(1_000));
    assert_eq!(target, derived_account([0xb0u8; 32], SYSTEM, 0, vec![]));
}

#[test]
fn create_beyond_the_payers_balance_is_insufficient_funds() {
    let mut payer = wallet(299);
    let mut target = derived_account([0xb0u8; 32], SYSTEM, 0, vec![]);
    let signer = capability([0xb0u8; 32]);
    assert_eq!(
        create_account(&mut payer, &mut target, &PROGRAM, 8, 300, Some(&signer)),
        Err(DelegateError::InsufficientFunds)
    );
    assert_eq!(payer, wallet(299));
    assert_eq!(target, derived_account([0xb0u8; 32], SYSTEM, 0, vec![]));
}

#[test]
fn create_looks_at_authorization_before_funds() {
    let mut payer = wallet(0);
    let mut target = derived_account([0xb0u8; 32], SYSTEM, 0, vec![]);
    assert_eq!(
        create_account(&mut payer, &mut target, &PROGRAM, 8, 300, None),
        Err(DelegateError::AuthorizationFailure)
    );
}

#[test]
fn create_takes_the_payers_last_lamport() {
    let mut payer = wallet(300);
    let mut target = derived_account([0xb0u8; 32], SYSTEM, 0, vec![]);
    let signer = capability([0xb0u8; 32]);
    assert_eq!(create_account(&mut payer, &mut target, &PROGRAM, 8, 300, Some(&signer)), Ok(()));
    assert_eq!(payer.lamports, 0);
    assert_eq!(target.lamports, 300);
}

#[test]
fn create_adds_only_what_the_target_lacks() {
    let mut payer = wallet(1_000);
    let mut target = derived_account([0xb0u8; 32], SYSTEM, 120, vec![]);
    let signer = capability([0xb0u8; 32]);
    assert_eq!(create_account(&mut payer, &mut target, &PROGRAM, 8, 300, Some(&signer)), Ok(()));
    assert_eq!(payer.lamports, 820);
    assert_eq!(target.lamports, 300);
}

#[test]
fn create_leaves_a_richer_target_its_balance() {
    let mut payer = wallet(5);
    let mut target = derived_account([0xb0u8; 32], SYSTEM, u64::MAX, vec![]);
    let signer = capability([0xb0u8; 32]);
    assert_eq!(create_account(&mut payer, &mut target, &PROGRAM, 8, 300, Some(&signer)), Ok(()));
    assert_eq!(payer.lamports, 5);
    assert_eq!(target.lamports, u64::MAX);
    assert_eq!(target.owner, PROGRAM);
}

#[test]
fn create_with_zero_space_gives_empty_data() {
    let mut payer = wallet(1_000);
    let mut target = derived_account([0xb0u8; 32], SYSTEM, 0, vec![9, 9]);
    let signer = capability([0xb0u8; 32]);
    assert_eq!(create_account(&mut payer, &mut target, &PROGRAM, 0, 100, Some(&signer)), Ok(()));
    assert!(target.data.is_empty());
    assert_eq!(target.lamports, 100);
}

#[test]
fn create_keeps_key_and_flags() {
    let mut payer = wallet(1_000);
    let mut target = derived_account([0xb0u8; 32], SYSTEM, 0, vec![]);
    target.is_writable = false;
    let signer = capability([0xb0u8; 32]);
    assert_eq!(create_account(&mut payer, &mut target, &PROGRAM, 1, 1, Some(&signer)), Ok(()));
    assert_eq!(target.key, [0xb0u8; 32]);
    assert!(!target.is_signer);
    assert!(!target.is_writable);
    assert_eq!(payer.key, [0xa0u8; 32]);
    assert_eq!(payer.owner, SYSTEM);
    assert!(payer.is_signer);
}

#[test]
fn close_reclaims_zeroes_and_hands_back() {
    let mut payer = wallet(10);
    let mut target = derived_account([0xb0u8; 32], PROGRAM, 300, vec![1, 2, 3]);
    assert_eq!(close_pda_acc(&mut payer, &mut target, &SYSTEM, &PROGRAM, None), Ok(()));
    assert_eq!(payer, wallet(310));
    assert_eq!(target, derived_account([0xb0u8; 32], SYSTEM, 0, vec![0, 0, 0]));
}

#[test]
fn close_accepts_a_capability_in_place_of_ownership() {
    let other_owner = [0x77u8; 32];
    let mut payer = wallet(10);
    let mut target = derived_account([0xb0u8; 32], other_owner, 300, vec![1]);
    let signer = capability([0xb0u8; 32]);
    assert_eq!(close_pda_acc(&mut payer, &mut target, &SYSTEM, &PROGRAM, Some(&signer)), Ok(()));
    assert_eq!(payer.lamports, 310);
    assert_eq!(target.lamports, 0);
    assert_eq!(target.owner, SYSTEM);
    assert_eq!(target.data, vec![0u8]);
}

#[test]
fn close_without_ownership_or_capability_is_unauthorized() {
    let other_owner = [0x77u8; 32];
    let mut payer = wallet(10);
    let mut target = derived_account([0xb0u8; 32], other_owner, 300, vec![1, 2, 3]);
    assert_eq!(
        close_pda_acc(&mut payer, &mut target, &SYSTEM, &PROGRAM, None),
        Err(DelegateError::AuthorizationFailure)
    );
    assert_eq!(payer, wallet(10));
    assert_eq!(target, derived_account([0xb0u8; 32], other_owner, 300, vec![1, 2, 3]));
}

#[test]
fn close_with_capability_for_another_address_is_unauthorized() {
    let other_owner = [0x77u8; 32];
    let mut payer = wallet(10);
    let mut target = derived_account([0xb0u8; 32], other_owner, 300, vec![1, 2, 3]);
    let other = capability([0xb1u8; 32]);
    assert_eq!(
        close_pda_acc(&mut payer, &mut target, &SYSTEM, &PROGRAM, Some(&other)),
        Err(DelegateError::AuthorizationFailure)
    );
    assert_eq!(target.lamports, 300);
}

#[test]
fn close_of_an_empty_account() {
    let mut payer = wallet(10);
    let mut target = derived_account([0xb0u8; 32], PROGRAM, 0, vec![]);
    assert_eq!(close_pda_acc(&mut payer, &mut target, &SYSTEM, &PROGRAM, None), Ok(()));
    assert_eq!(payer.lamports, 10);
    assert_eq!(target, derived_account([0xb0u8; 32], SYSTEM, 0, vec![]));
}

#[test]
fn close_fills_the_payer_to_the_brim() {
    let mut payer = wallet(u64::MAX - 300);
    let mut target = derived_account([0xb0u8; 32], PROGRAM, 300, vec![]);
    assert_eq!(close_pda_acc(&mut payer, &mut target, &SYSTEM, &PROGRAM, None), Ok(()));
    assert_eq!(payer.lamports, u64::MAX);
}

#[test]
fn account_clone_is_equal() {
    let account = derived_account([0xb0u8; 32], PROGRAM, 300, vec![1, 2, 3]);
    assert_eq!(account.clone(), account);
}

#[test]
fn funding_is_what_is_missing_to_the_minimum() {
    assert_eq!(funding_needed(0, 300), 300);
    assert_eq!(funding_needed(120, 300), 180);
    assert_eq!(funding_needed(300, 300), 0);
    assert_eq!(funding_needed(301, 300), 0);
    assert_eq!(funding_needed(0, 0), 0);
    assert_eq!(funding_needed(0, u64::MAX), u64::MAX);
    assert_eq!(funding_needed(u64::MAX, 1), 0);
}
