use private_pay::callback::{deposit_callback, init_balance_callback};
use private_pay::error::ErrorCode;
use private_pay::identity::Identity;
use private_pay::ledger::{
    create_balance_account, deposit_funds, init_balance_comp_def, init_deposit_comp_def,
    ComputationResult, Ledger, PrivateBalanceAccount, SignedOutput,
};
use private_pay::record::{decode, evaluate_deposit, evaluate_init, BalanceState};
use private_pay::request::{AccountRef, Argument, CircuitId};

const CLUSTER: Identity = Identity { high: 0xc1, low: 0x5 };
const OWNER: Identity = Identity { high: 0x0a, low: 0x11 };
const ACCOUNT_KEY: Identity = Identity { high: 0xba, low: 0x1a };

fn ready_ledger() -> Ledger {
    let mut l = Ledger::new(Some(CLUSTER));
    init_balance_comp_def(&mut l);
    init_deposit_comp_def(&mut l);
    l
}

fn signed(offset: u64, blob: Vec<u8>, nonce: u128) -> ComputationResult {
    ComputationResult::Signed(SignedOutput {
        offset,
        ciphertexts: vec![blob],
        nonce,
        signature_valid: true,
    })
}

fn snapshot(a: &PrivateBalanceAccount) -> (Identity, u8, Vec<u8>, u128) {
    (a.owner, a.bump, a.balance_state.clone(), a.nonce)
}

/// Ledger and account after account creation and a committed initialization.
fn initialized() -> (Ledger, PrivateBalanceAccount) {
    let mut l = ready_ledger();
    let (mut a, q) = create_balance_account(&mut l, OWNER, 254, 1, 7).unwrap();
    assert_eq!(q.offset, 1);
    assert_eq!(q.circuit, CircuitId::InitBalance);
    assert_eq!(q.args, vec![Argument::PlaintextU128(7)]);
    assert!(q.accounts.is_empty());
    assert!(l.is_pending(1));
    let ev = init_balance_callback(&mut l, &mut a, CLUSTER, &signed(1, evaluate_init(), 8), 100)
        .unwrap();
    assert_eq!(ev.owner, OWNER);
    assert_eq!(ev.timestamp, 100);
    assert!(!l.is_pending(1));
    (l, a)
}

#[test]
fn init_then_callback_gives_zero_balance() {
    let (_, a) = initialized();
    assert_eq!(a.nonce, 8);
    assert_eq!(a.owner, OWNER);
    assert_eq!(a.bump, 254);
    assert_eq!(decode(&a.balance_state), Ok(BalanceState { balance: 0, nonce: 0 }));
}

#[test]
fn deposit_then_callback_gives_amount() {
    let (mut l, mut a) = initialized();
    let q = deposit_funds(&mut l, &a, ACCOUNT_KEY, OWNER, 2, 500).unwrap();
    assert_eq!(q.circuit, CircuitId::Deposit);
    assert_eq!(q.args, vec![Argument::PlaintextU64(500), Argument::PlaintextU128(8)]);
    assert_eq!(q.accounts, vec![AccountRef { account: ACCOUNT_KEY, offset: 41, length: 64 }]);
    let blob = evaluate_deposit(&a.balance_state, 500).unwrap();
    let ev = deposit_callback(&mut l, &mut a, CLUSTER, &signed(2, blob, 9), 200).unwrap();
    assert_eq!(ev.owner, OWNER);
    assert_eq!(ev.timestamp, 200);
    assert_eq!(a.nonce, 9);
    assert_eq!(decode(&a.balance_state), Ok(BalanceState { balance: 500, nonce: 1 }));
}

#[test]
fn same_offset_twice_is_duplicate() {
    let (mut l, a) = initialized();
    assert!(deposit_funds(&mut l, &a, ACCOUNT_KEY, OWNER, 2, 500).is_ok());
    let second = deposit_funds(&mut l, &a, ACCOUNT_KEY, OWNER, 2, 500);
    assert_eq!(second.err(), Some(ErrorCode::DuplicateComputationOffset));
    assert!(l.is_pending(2));
}

#[test]
fn offset_reusable_after_resolution() {
    let (mut l, mut a) = initialized();
    deposit_funds(&mut l, &a, ACCOUNT_KEY, OWNER, 2, 5).unwrap();
    let blob = evaluate_deposit(&a.balance_state, 5).unwrap();
    deposit_callback(&mut l, &mut a, CLUSTER, &signed(2, blob, 9), 1).unwrap();
    assert!(deposit_funds(&mut l, &a, ACCOUNT_KEY, OWNER, 2, 6).is_ok());
}

#[test]
fn callback_for_unknown_offset_rejected() {
    let (mut l, mut a) = initialized();
    let before = snapshot(&a);
    let blob = evaluate_deposit(&a.balance_state, 500).unwrap();
    let r = deposit_callback(&mut l, &mut a, CLUSTER, &signed(77, blob, 9), 1);
    assert_eq!(r, Err(ErrorCode::UnknownComputation));
    assert_eq!(snapshot(&a), before);
}

#[test]
fn callback_with_bad_signature_rejected() {
    let (mut l, mut a) = initialized();
    deposit_funds(&mut l, &a, ACCOUNT_KEY, OWNER, 2, 500).unwrap();
    let before = snapshot(&a);
    let blob = evaluate_deposit(&a.balance_state, 500).unwrap();
    let result = ComputationResult::Signed(SignedOutput {
        offset: 2,
        ciphertexts: vec![blob],
        nonce: 9,
        signature_valid: false,
    });
    let r = deposit_callback(&mut l, &mut a, CLUSTER, &result, 1);
    assert_eq!(r, Err(ErrorCode::AbortedComputation));
    assert_eq!(snapshot(&a), before);
    assert!(l.is_pending(2));
}

#[test]
fn aborted_result_changes_nothing() {
    let (mut l, mut a) = initialized();
    deposit_funds(&mut l, &a, ACCOUNT_KEY, OWNER, 3, 1).unwrap();
    let before = snapshot(&a);
    let r = deposit_callback(&mut l, &mut a, CLUSTER, &ComputationResult::Aborted { offset: 3 }, 1);
    assert_eq!(r, Err(ErrorCode::AbortedComputation));
    assert_eq!(snapshot(&a), before);
    assert!(l.is_pending(3));
}

#[test]
fn replayed_result_rejected() {
    let (mut l, mut a) = initialized();
    deposit_funds(&mut l, &a, ACCOUNT_KEY, OWNER, 2, 500).unwrap();
    let blob = evaluate_deposit(&a.balance_state, 500).unwrap();
    let result = signed(2, blob, 9);
    deposit_callback(&mut l, &mut a, CLUSTER, &result, 1).unwrap();
    let before = snapshot(&a);
    let r = deposit_callback(&mut l, &mut a, CLUSTER, &result, 2);
    assert_eq!(r, Err(ErrorCode::UnknownComputation));
    assert_eq!(snapshot(&a), before);
}

#[test]
fn deposits_add_up_and_nonce_steps() {
    let (mut l, mut a) = initialized();
    let amounts = [3u64, 0, 1000, 42];
    let mut offset = 10u64;
    let mut enc_nonce = 100u128;
    for (k, amount) in amounts.iter().enumerate() {
        deposit_funds(&mut l, &a, ACCOUNT_KEY, OWNER, offset, *amount).unwrap();
        let blob = evaluate_deposit(&a.balance_state, *amount).unwrap();
        deposit_callback(&mut l, &mut a, CLUSTER, &signed(offset, blob, enc_nonce), 1).unwrap();
        assert_eq!(a.nonce, enc_nonce);
        let s = decode(&a.balance_state).unwrap();
        assert_eq!(s.nonce, k as u64 + 1);
        offset += 1;
        enc_nonce += 3;
    }
    assert_eq!(decode(&a.balance_state), Ok(BalanceState { balance: 1045, nonce: 4 }));
}

#[test]
fn deposit_by_non_owner_rejected() {
    let (mut l, a) = initialized();
    let r = deposit_funds(&mut l, &a, ACCOUNT_KEY, Identity { high: 9, low: 9 }, 2, 1);
    assert_eq!(r.err(), Some(ErrorCode::InvalidAuthority));
    assert!(!l.is_pending(2));
}

#[test]
fn callback_from_other_caller_rejected() {
    let (mut l, mut a) = initialized();
    deposit_funds(&mut l, &a, ACCOUNT_KEY, OWNER, 2, 1).unwrap();
    let blob = evaluate_deposit(&a.balance_state, 1).unwrap();
    let r = deposit_callback(&mut l, &mut a, OWNER, &signed(2, blob, 9), 1);
    assert_eq!(r, Err(ErrorCode::InvalidAuthority));
}

#[test]
fn no_cluster_is_cluster_not_set() {
    let mut l = Ledger::new(None);
    init_balance_comp_def(&mut l);
    let r = create_balance_account(&mut l, OWNER, 1, 1, 0);
    assert_eq!(r.err(), Some(ErrorCode::ClusterNotSet));
    let mut a = PrivateBalanceAccount { owner: OWNER, bump: 1, balance_state: vec![0u8; 64], nonce: 0 };
    let r = init_balance_callback(&mut l, &mut a, CLUSTER, &signed(1, evaluate_init(), 1), 1);
    assert_eq!(r, Err(ErrorCode::ClusterNotSet));
}

#[test]
fn unregistered_circuit_cannot_be_queued() {
    let mut l = Ledger::new(Some(CLUSTER));
    init_balance_comp_def(&mut l);
    let (a, _) = create_balance_account(&mut l, OWNER, 1, 1, 0).unwrap();
    let r = deposit_funds(&mut l, &a, ACCOUNT_KEY, OWNER, 2, 1);
    assert_eq!(r.err(), Some(ErrorCode::ClusterNotSet));
}

#[test]
fn second_request_for_busy_account_rejected() {
    let (mut l, a) = initialized();
    deposit_funds(&mut l, &a, ACCOUNT_KEY, OWNER, 2, 1).unwrap();
    let r = deposit_funds(&mut l, &a, ACCOUNT_KEY, OWNER, 3, 1);
    assert_eq!(r.err(), Some(ErrorCode::ComputationPending));
}

#[test]
fn wrong_circuit_callback_is_unknown() {
    let (mut l, mut a) = initialized();
    deposit_funds(&mut l, &a, ACCOUNT_KEY, OWNER, 2, 1).unwrap();
    let r = init_balance_callback(&mut l, &mut a, CLUSTER, &signed(2, evaluate_init(), 1), 1);
    assert_eq!(r, Err(ErrorCode::UnknownComputation));
}

#[test]
fn short_ciphertext_is_corrupt_state() {
    let (mut l, mut a) = initialized();
    deposit_funds(&mut l, &a, ACCOUNT_KEY, OWNER, 2, 1).unwrap();
    let before = snapshot(&a);
    let r = deposit_callback(&mut l, &mut a, CLUSTER, &signed(2, vec![1u8; 63], 9), 1);
    assert_eq!(r, Err(ErrorCode::CorruptState));
    assert_eq!(snapshot(&a), before);
    let empty = ComputationResult::Signed(SignedOutput {
        offset: 2,
        ciphertexts: vec![],
        nonce: 9,
        signature_valid: true,
    });
    assert_eq!(deposit_callback(&mut l, &mut a, CLUSTER, &empty, 1), Err(ErrorCode::CorruptState));
}

#[test]
fn long_ciphertext_is_truncated() {
    let (mut l, mut a) = initialized();
    deposit_funds(&mut l, &a, ACCOUNT_KEY, OWNER, 2, 1).unwrap();
    let mut blob: Vec<u8> = (0u8..80).collect();
    blob[0] = 0xee;
    deposit_callback(&mut l, &mut a, CLUSTER, &signed(2, blob.clone(), 9), 1).unwrap();
    assert_eq!(a.balance_state, blob[..64].to_vec());
}
