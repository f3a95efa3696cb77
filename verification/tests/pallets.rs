//! Each pallet exercised on its own, under a test configuration.

use state_machine::balances;
use state_machine::proof_of_existence;
use state_machine::support::DispatchError;
use state_machine::system;

struct TestConfig;

impl system::Config for TestConfig {
    type AccountId = String;
    type BlockNumber = u32;
    type Nonce = u32;
}

impl balances::Config for TestConfig {
    type Balance = u128;
}

impl proof_of_existence::Config for TestConfig {
    type Content = String;
}

#[test]
fn init_balances() {
    let mut balances = balances::Pallet::<TestConfig>::new();
    assert_eq!(balances.balance(&"alice".to_string()), 0);
    balances.set_balance(&"alice".to_string(), 100);
    assert_eq!(balances.balance(&"alice".to_string()), 100);
    assert_eq!(balances.balance(&"bob".to_string()), 0);
}

#[test]
fn transfer_balance() {
    let mut balances = balances::Pallet::<TestConfig>::new();
    balances.set_balance(&"alice".to_string(), 100);
    assert_eq!(
        balances.transfer("alice".to_string(), "bob".to_string(), 500),
        Err(DispatchError::InsufficientFunds)
    );
    assert_eq!(
        balances.transfer("alice".to_string(), "bob".to_string(), 50),
        Ok(())
    );
    assert_eq!(balances.balance(&"alice".to_string()), 50);
    assert_eq!(balances.balance(&"bob".to_string()), 50);
}

#[test]
fn init_system() {
    let mut system = system::Pallet::<TestConfig>::new();
    system.inc_block_number();
    system.inc_nonce(&"alice".to_string());
    assert_eq!(system.block_number(), 1);
    assert_eq!(system.nonce(&"alice".to_string()), 1);
    assert_eq!(system.nonce(&"bob".to_string()), 0);
}

#[test]
fn basic_proof_of_existence() {
    let mut poe = proof_of_existence::Pallet::<TestConfig>::new();
    assert_eq!(poe.get_claim(&"Hello, world!".to_string()), None);
    assert_eq!(
        poe.create_claim("alice".to_string(), "Hello, world!".to_string()),
        Ok(())
    );
    assert_eq!(
        poe.get_claim(&"Hello, world!".to_string()),
        Some(&"alice".to_string())
    );
    assert_eq!(
        poe.create_claim("bob".to_string(), "Hello, world!".to_string()),
        Err(DispatchError::ClaimAlreadyExists)
    );
    assert_eq!(
        poe.revoke_claim("alice".to_string(), "Hello, world!".to_string()),
        Ok(())
    );
    assert_eq!(
        poe.create_claim("bob".to_string(), "Hello, world!".to_string()),
        Ok(())
    );
}

#[test]
fn transfer_balance_overflow() {
    let mut balances = balances::Pallet::<TestConfig>::new();
    balances.set_balance(&"alice".to_string(), 100);
    balances.set_balance(&"bob".to_string(), u128::MAX - 10);
    assert_eq!(
        balances.transfer("alice".to_string(), "bob".to_string(), 50),
        Err(DispatchError::BalanceOverflow)
    );
    assert_eq!(balances.balance(&"alice".to_string()), 100);
    assert_eq!(balances.balance(&"bob".to_string()), u128::MAX - 10);
}

#[test]
fn transfer_to_self_keeps_the_credit() {
    let mut balances = balances::Pallet::<TestConfig>::new();
    balances.set_balance(&"alice".to_string(), 100);
    assert_eq!(
        balances.transfer("alice".to_string(), "alice".to_string(), 30),
        Ok(())
    );
    assert_eq!(balances.balance(&"alice".to_string()), 130);
}

#[test]
fn revoke_claim_errors_are_told_apart() {
    let mut poe = proof_of_existence::Pallet::<TestConfig>::new();
    assert_eq!(
        poe.revoke_claim("alice".to_string(), "Hello, world!".to_string()),
        Err(DispatchError::ClaimNotFound)
    );
    assert_eq!(
        poe.create_claim("alice".to_string(), "Hello, world!".to_string()),
        Ok(())
    );
    assert_eq!(
        poe.revoke_claim("bob".to_string(), "Hello, world!".to_string()),
        Err(DispatchError::NotClaimOwner)
    );
    assert_eq!(
        poe.get_claim(&"Hello, world!".to_string()),
        Some(&"alice".to_string())
    );
}

#[test]
fn nonce_counts_every_extrinsic_of_a_caller() {
    let mut system = system::Pallet::<TestConfig>::new();
    for _ in 0..5 {
        system.inc_nonce(&"alice".to_string());
    }
    assert_eq!(system.nonce(&"alice".to_string()), 5);
    assert_eq!(system.nonce(&"bob".to_string()), 0);
}
