use delegation::address::{buffer_seeds, find_program_address, DerivedAddress, BUFFER};
use delegation::error::DelegateError;
use delegation::signer::SignerCapability;

#[test]
fn buffer_literal_is_ascii_buffer() {
    assert_eq!(&BUFFER, b"buffer");
}

#[test]
fn buffer_seeds_are_literal_then_address() {
    let key = [0x11u8; 32];
    assert_eq!(buffer_seeds(&key), vec![b"buffer".to_vec(), key.to_vec()]);
}

#[test]
fn buffer_seeds_depend_on_the_account_alone() {
    let key = [0x22u8; 32];
    assert_eq!(buffer_seeds(&key), buffer_seeds(&key));
    assert_ne!(buffer_seeds(&key), buffer_seeds(&[0x23u8; 32]));
}

#[test]
fn derivation_is_exhausted_without_a_host() {
    // Off the host no address can be derived: the search reports none.
    let program = [1u8; 32];
    let seeds = vec![b"counter".to_vec(), vec![7u8; 32]];
    assert_eq!(find_program_address(&seeds, &program), Err(DelegateError::DerivationExhausted));
}

#[test]
fn derivation_gives_the_same_result_each_time() {
    let program = [1u8; 32];
    let seeds = vec![b"counter".to_vec(), vec![7u8; 32]];
    let first = find_program_address(&seeds, &program);
    let second = find_program_address(&seeds, &program);
    assert_eq!(first, second);
}

#[test]
fn derivation_takes_an_empty_seed_list() {
    let program = [1u8; 32];
    let seeds: Vec<Vec<u8>> = vec![];
    assert_eq!(find_program_address(&seeds, &program), Err(DelegateError::DerivationExhausted));
}

#[test]
fn derivation_takes_seeds_beyond_the_host_limits() {
    let program = [1u8; 32];
    let seeds: Vec<Vec<u8>> = (0..40).map(|i| vec![i as u8; 64]).collect();
    assert_eq!(find_program_address(&seeds, &program), Err(DelegateError::DerivationExhausted));
}

#[test]
fn capability_keeps_seeds_and_bump() {
    let seeds = vec![b"counter".to_vec(), vec![7u8; 32]];
    let derived = DerivedAddress { address: [0x33u8; 32], bump: 254 };
    let capability = SignerCapability::new(&seeds, &derived);
    assert_eq!(capability.address, [0x33u8; 32]);
    assert_eq!(capability.seeds, seeds);
    assert_eq!(capability.bump, 254);
}

#[test]
fn signer_seeds_end_with_the_bump() {
    let seeds = vec![b"counter".to_vec(), vec![7u8; 32]];
    let derived = DerivedAddress { address: [0x33u8; 32], bump: 254 };
    let capability = SignerCapability::new(&seeds, &derived);
    assert_eq!(
        capability.signer_seeds(),
        vec![b"counter".to_vec(), vec![7u8; 32], vec![254u8]]
    );
}

#[test]
fn signer_seeds_of_no_seeds_are_the_bump() {
    let derived = DerivedAddress { address: [0x33u8; 32], bump: 0 };
    let capability = SignerCapability::new(&vec![], &derived);
    assert_eq!(capability.signer_seeds(), vec![vec![0u8]]);
}

#[test]
fn capability_covers_its_address_only() {
    let derived = DerivedAddress { address: [0x33u8; 32], bump: 1 };
    let capability = SignerCapability::new(&vec![vec![1]], &derived);
    assert!(capability.covers(&[0x33u8; 32]));
    assert!(!capability.covers(&[0x34u8; 32]));
    let mut near = [0x33u8; 32];
    near[31] = 0x32;
    assert!(!capability.covers(&near));
    near = [0x33u8; 32];
    near[0] = 0x32;
    assert!(!capability.covers(&near));
}

#[test]
fn capability_clone_is_equal() {
    let derived = DerivedAddress { address: [0x33u8; 32], bump: 1 };
    let capability = SignerCapability::new(&vec![vec![1], vec![]], &derived);
    assert_eq!(capability.clone(), capability);
}
