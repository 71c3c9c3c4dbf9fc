use vstd::prelude::*;
use crate::error::ErrorCode;
use crate::identity::Identity;
use crate::ledger::{
    result_offset, BalanceAccountCreated, ComputationResult, DepositCompleted, Ledger,
    PrivateBalanceAccount,
};
use crate::queue::{holds_offset, lookup, without};
use crate::record::STATE_LEN;
use crate::request::CircuitId;

verus! {

/// Why a callback for `circuit` is rejected, or `None` when it commits.
/// Checked in order: the cluster is configured, the caller is its authority,
/// a matching computation is in flight for this account, the result is signed
/// and verified, and its first ciphertext is wide enough.
pub open spec fn callback_error(
    l: &Ledger,
    account: &PrivateBalanceAccount,
    caller: Identity,
    circuit: CircuitId,
    result: &ComputationResult,
) -> Option<ErrorCode> {
    if l.cluster is None {
        Some(ErrorCode::ClusterNotSet)
    } else if caller != l.cluster->0 {
        Some(ErrorCode::InvalidAuthority)
    } else if !(lookup(l.pending(), result_offset(result)) matches Some(p) && p.circuit == circuit
        && p.owner == account.owner) {
        Some(ErrorCode::UnknownComputation)
    } else {
        match result {
            ComputationResult::Aborted { .. } => Some(ErrorCode::AbortedComputation),
            ComputationResult::Signed(o) => {
                if !o.signature_valid {
                    Some(ErrorCode::AbortedComputation)
                } else if o.ciphertexts@.len() == 0 || o.ciphertexts@[0]@.len() < STATE_LEN {
                    Some(ErrorCode::CorruptState)
                } else {
                    None
                }
            },
        }
    }
}

/// The state that a committed callback leaves: the account holds the first
/// `STATE_LEN` bytes of the first ciphertext and the result's nonce, and the
/// computation is no longer in flight.
pub open spec fn committed(
    l0: &Ledger,
    l1: &Ledger,
    a0: &PrivateBalanceAccount,
    a1: &PrivateBalanceAccount,
    result: &ComputationResult,
) -> bool {
    &&& result matches ComputationResult::Signed(o)
    &&& a1.balance_state@ == o.ciphertexts@[0]@.subrange(0, STATE_LEN as int)
    &&& a1.nonce == o.nonce
    &&& a1.owner == a0.owner
    &&& a1.bump == a0.bump
    &&& l1.cluster == l0.cluster
    &&& l1.definitions == l0.definitions
    &&& l1.pending() == without(l0.pending(), o.offset)
    &&& !holds_offset(l1.pending(), o.offset)
}

fn first_state(o: &Vec<Vec<u8>>) -> (r: Vec<u8>)
    requires
        o@.len() > 0,
        o@[0]@.len() >= STATE_LEN,
    ensures
        r@ == o@[0]@.subrange(0, STATE_LEN as int),
{
    let src = &o[0];
    let mut out: Vec<u8> = Vec::new();
    let mut i: usize = 0;
    while i < STATE_LEN
        invariant
            i <= STATE_LEN,
            src@ == o@[0]@,
            src@.len() >= STATE_LEN,
            out@ == src@.subrange(0, i as int),
        decreases STATE_LEN - i,
    {
        out.push(src[i]);
        i = i + 1;
        assert(out@ =~= src@.subrange(0, i as int));
    }
    out
}

fn apply_callback(
    ledger: &mut Ledger,
    account: &mut PrivateBalanceAccount,
    caller: Identity,
    circuit: CircuitId,
    result: &ComputationResult,
) -> (r: Result<(), ErrorCode>)
    requires
        old(ledger).wf(),
    ensures
        final(ledger).wf(),
        match callback_error(old(ledger), old(account), caller, circuit, result) {
            Some(e) => r == Err::<(), ErrorCode>(e) && *final(ledger) == *old(ledger)
                && *final(account) == *old(account),
            None => r is Ok && final(account).wf() && committed(
                old(ledger),
                final(ledger),
                old(account),
                final(account),
                result,
            ),
        },
{
    let authority = match ledger.cluster {
        None => return Err(ErrorCode::ClusterNotSet),
        Some(k) => k,
    };
    if caller != authority {
        return Err(ErrorCode::InvalidAuthority);
    }
    let offset = match result {
        ComputationResult::Signed(o) => o.offset,
        ComputationResult::Aborted { offset } => *offset,
    };
    let i = match ledger.queue.position(offset) {
        None => return Err(ErrorCode::UnknownComputation),
        Some(i) => i,
    };
    let p = ledger.queue.get(i);
    if p.circuit != circuit || p.owner != account.owner {
        return Err(ErrorCode::UnknownComputation);
    }
    let o = match result {
        ComputationResult::Aborted { .. } => return Err(ErrorCode::AbortedComputation),
        ComputationResult::Signed(o) => o,
    };
    if !o.signature_valid {
        return Err(ErrorCode::AbortedComputation);
    }
    if o.ciphertexts.len() == 0 || o.ciphertexts[0].len() < STATE_LEN {
        return Err(ErrorCode::CorruptState);
    }
    let state = first_state(&o.ciphertexts);
    account.balance_state = state;
    account.nonce = o.nonce;
    ledger.queue.remove_at(i);
    Ok(())
}

/// Commits the result of an initialization computation to `account`, or
/// rejects it with the state of ledger and account left as they were.
/// Returns the event that records the commit at `timestamp`.
pub fn init_balance_callback(
    ledger: &mut Ledger,
    account: &mut PrivateBalanceAccount,
    caller: Identity,
    result: &ComputationResult,
    timestamp: i64,
) -> (r: Result<BalanceAccountCreated, ErrorCode>)
    requires
        old(ledger).wf(),
    ensures
        final(ledger).wf(),
        match callback_error(old(ledger), old(account), caller, CircuitId::InitBalance, result) {
            Some(e) => r == Err::<BalanceAccountCreated, ErrorCode>(e) && *final(ledger)
                == *old(ledger) && *final(account) == *old(account),
            None => r == Ok::<BalanceAccountCreated, ErrorCode>(
                BalanceAccountCreated { owner: old(account).owner, timestamp },
            ) && final(account).wf() && committed(
                old(ledger),
                final(ledger),
                old(account),
                final(account),
                result,
            ),
        },
{
    match apply_callback(ledger, account, caller, CircuitId::InitBalance, result) {
        Err(e) => Err(e),
        Ok(()) => Ok(BalanceAccountCreated { owner: account.owner, timestamp }),
    }
}

/// Commits the result of a deposit computation to `account`, or rejects it
/// with the state of ledger and account left as they were. Returns the event
/// that records the commit at `timestamp`.
pub fn deposit_callback(
    ledger: &mut Ledger,
    account: &mut PrivateBalanceAccount,
    caller: Identity,
    result: &ComputationResult,
    timestamp: i64,
) -> (r: Result<DepositCompleted, ErrorCode>)
    requires
        old(ledger).wf(),
    ensures
        final(ledger).wf(),
        match callback_error(old(ledger), old(account), caller, CircuitId::Deposit, result) {
            Some(e) => r == Err::<DepositCompleted, ErrorCode>(e) && *final(ledger)
                == *old(ledger) && *final(account) == *old(account),
            None => r == Ok::<DepositCompleted, ErrorCode>(
                DepositCompleted { owner: old(account).owner, timestamp },
            ) && final(account).wf() && committed(
                old(ledger),
                final(ledger),
                old(account),
                final(account),
                result,
            ),
        },
{
    match apply_callback(ledger, account, caller, CircuitId::Deposit, result) {
        Err(e) => Err(e),
        Ok(()) => Ok(DepositCompleted { owner: account.owner, timestamp }),
    }
}

} // verus!
