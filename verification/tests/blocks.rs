//! The runtime and the block executor exercised end to end.

use state_machine::balances;
use state_machine::proof_of_existence;
use state_machine::runtime::{Runtime, RuntimeCall};
use state_machine::support::{Block, Dispatch, DispatchError, Extrinsic, ExtrinsicFailure, Header};

fn transfer(caller: &str, to: &str, amount: u128) -> Extrinsic<String, RuntimeCall> {
    Extrinsic {
        caller: caller.to_string(),
        call: RuntimeCall::Balances(balances::Call::Transfer {
            to: to.to_string(),
            amount,
        }),
    }
}

fn create_claim(caller: &str, claim: &str) -> Extrinsic<String, RuntimeCall> {
    Extrinsic {
        caller: caller.to_string(),
        call: RuntimeCall::ProofOfExistence(proof_of_existence::Call::CreateClaim {
            claim: claim.to_string(),
        }),
    }
}

fn revoke_claim(caller: &str, claim: &str) -> Extrinsic<String, RuntimeCall> {
    Extrinsic {
        caller: caller.to_string(),
        call: RuntimeCall::ProofOfExistence(proof_of_existence::Call::RevokeClaim {
            claim: claim.to_string(),
        }),
    }
}

fn block(number: u32, extrinsics: Vec<Extrinsic<String, RuntimeCall>>) -> Block<Header<u32>, Extrinsic<String, RuntimeCall>> {
    Block {
        header: Header {
            block_number: number,
        },
        extrinsics,
    }
}

#[test]
fn block_of_transfers() {
    let mut runtime = Runtime::new();
    runtime.set_balance(&"alice".to_string(), 100);
    let res = runtime.execute_block(block(
        1,
        vec![transfer("alice", "bob", 30), transfer("alice", "charlie", 20)],
    ));
    assert_eq!(res, Ok(vec![]));
    assert_eq!(runtime.balance(&"alice".to_string()), 50);
    assert_eq!(runtime.balance(&"bob".to_string()), 30);
    assert_eq!(runtime.balance(&"charlie".to_string()), 20);
    assert_eq!(runtime.nonce(&"alice".to_string()), 2);
    assert_eq!(runtime.nonce(&"bob".to_string()), 0);
    assert_eq!(runtime.block_number(), 1);
}

#[test]
fn block_of_claims() {
    let mut runtime = Runtime::new();
    let res = runtime.execute_block(block(
        1,
        vec![
            create_claim("bob", "Hello, world!"),
            create_claim("charlie", "Hello, world!"),
        ],
    ));
    assert_eq!(
        res,
        Ok(vec![ExtrinsicFailure {
            block_number: 1,
            extrinsic_index: 1,
            error: DispatchError::ClaimAlreadyExists,
        }])
    );
    assert_eq!(
        runtime.get_claim(&"Hello, world!".to_string()),
        Some(&"bob".to_string())
    );
    assert_eq!(runtime.nonce(&"bob".to_string()), 1);
    assert_eq!(runtime.nonce(&"charlie".to_string()), 1);
}

#[test]
fn block_of_revocations() {
    let mut runtime = Runtime::new();
    let res = runtime.execute_block(block(1, vec![create_claim("bob", "Hello, world!")]));
    assert_eq!(res, Ok(vec![]));
    let res = runtime.execute_block(block(
        2,
        vec![
            revoke_claim("bob", "Hello, world!"),
            revoke_claim("bob", "Hello, world!"),
        ],
    ));
    assert_eq!(
        res,
        Ok(vec![ExtrinsicFailure {
            block_number: 2,
            extrinsic_index: 1,
            error: DispatchError::ClaimNotFound,
        }])
    );
    assert_eq!(runtime.get_claim(&"Hello, world!".to_string()), None);
}

#[test]
fn block_number_mismatch_rejects_the_block() {
    let mut runtime = Runtime::new();
    runtime.set_balance(&"alice".to_string(), 100);
    let res = runtime.execute_block(block(5, vec![transfer("alice", "bob", 30)]));
    assert_eq!(res, Err(DispatchError::BlockNumberMismatch));
    assert_eq!(runtime.balance(&"alice".to_string()), 100);
    assert_eq!(runtime.balance(&"bob".to_string()), 0);
    assert_eq!(runtime.nonce(&"alice".to_string()), 0);
    assert_eq!(runtime.block_number(), 1);
}

#[test]
fn dispatch_insufficient_funds() {
    let mut runtime = Runtime::new();
    runtime.set_balance(&"alice".to_string(), 100);
    let res = runtime.dispatch(
        "alice".to_string(),
        RuntimeCall::Balances(balances::Call::Transfer {
            to: "bob".to_string(),
            amount: 500,
        }),
    );
    assert_eq!(res, Err(DispatchError::InsufficientFunds));
    assert_eq!(runtime.balance(&"alice".to_string()), 100);
    assert_eq!(runtime.balance(&"bob".to_string()), 0);
}

#[test]
fn failed_extrinsics_still_bump_the_nonce() {
    let mut runtime = Runtime::new();
    runtime.set_balance(&"alice".to_string(), 100);
    let res = runtime.execute_block(block(
        1,
        vec![
            transfer("alice", "bob", 90),
            transfer("alice", "bob", 90),
            transfer("alice", "bob", 5),
        ],
    ));
    assert_eq!(
        res,
        Ok(vec![ExtrinsicFailure {
            block_number: 1,
            extrinsic_index: 1,
            error: DispatchError::InsufficientFunds,
        }])
    );
    assert_eq!(runtime.nonce(&"alice".to_string()), 3);
    assert_eq!(runtime.balance(&"alice".to_string()), 5);
    assert_eq!(runtime.balance(&"bob".to_string()), 95);
}

#[test]
fn unseen_accounts_read_zero() {
    let mut runtime = Runtime::new();
    runtime.set_balance(&"alice".to_string(), 100);
    let res = runtime.execute_block(block(1, vec![transfer("alice", "bob", 30)]));
    assert_eq!(res, Ok(vec![]));
    assert_eq!(runtime.balance(&"dave".to_string()), 0);
    assert_eq!(runtime.nonce(&"dave".to_string()), 0);
}

#[test]
fn empty_block_still_advances_the_counter() {
    let mut runtime = Runtime::new();
    assert_eq!(runtime.block_number(), 0);
    let res = runtime.execute_block(block(1, vec![]));
    assert_eq!(res, Ok(vec![]));
    let res = runtime.execute_block(block(2, vec![]));
    assert_eq!(res, Ok(vec![]));
    assert_eq!(runtime.block_number(), 2);
}

#[test]
fn revoked_content_can_be_claimed_by_anyone() {
    let mut runtime = Runtime::new();
    let res = runtime.execute_block(block(
        1,
        vec![
            create_claim("bob", "Hello, world!"),
            revoke_claim("bob", "Hello, world!"),
            create_claim("charlie", "Hello, world!"),
        ],
    ));
    assert_eq!(res, Ok(vec![]));
    assert_eq!(
        runtime.get_claim(&"Hello, world!".to_string()),
        Some(&"charlie".to_string())
    );
}
