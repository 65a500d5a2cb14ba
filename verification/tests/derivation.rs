use client_rust::address::Address;
use client_rust::workflow::{Workflow, WorkflowError};
use solana_sdk::pubkey::Pubkey;

fn derived(payer: [u8; 32], program: [u8; 32], seed: &str) -> Address {
    let w = Workflow::new(Address::new(payer), Address::new(program), seed.to_string())
        .expect("derivation should succeed");
    w.derived_address()
}

#[test]
fn derivation_is_deterministic() {
    let a = derived([7; 32], [9; 32], "gulei");
    let b = derived([7; 32], [9; 32], "gulei");
    assert_eq!(a, b);
}

#[test]
fn derivation_depends_on_every_input() {
    let base = derived([7; 32], [9; 32], "gulei");
    assert_ne!(base, derived([8; 32], [9; 32], "gulei"));
    assert_ne!(base, derived([7; 32], [10; 32], "gulei"));
    assert_ne!(base, derived([7; 32], [9; 32], "other"));
}

#[test]
fn derivation_matches_cluster_rule() {
    let payer = Pubkey::new_from_array([7; 32]);
    let program = Pubkey::new_from_array([9; 32]);
    let expected = Pubkey::create_with_seed(&payer, "gulei", &program).unwrap();
    let ours = derived([7; 32], [9; 32], "gulei");
    assert_eq!(ours.to_bytes(), expected.to_bytes());
    // the derivation is a digest, not any of its inputs handed back
    assert_ne!(ours.to_bytes(), [7; 32]);
    assert_ne!(ours.to_bytes(), [9; 32]);
}

#[test]
fn oversized_seed_is_a_config_error() {
    let seed = "a".repeat(33);
    let r = Workflow::new(Address::new([7; 32]), Address::new([9; 32]), seed);
    assert!(matches!(r, Err(WorkflowError::ConfigError)));
}

#[test]
fn seed_of_32_bytes_is_accepted() {
    let seed = "a".repeat(32);
    let r = Workflow::new(Address::new([7; 32]), Address::new([9; 32]), seed);
    assert!(r.is_ok());
}
