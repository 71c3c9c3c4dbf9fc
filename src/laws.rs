use vstd::prelude::*;
use crate::error::ErrorCode;
use crate::identity::Identity;
use crate::callback::{callback_error, committed};
use crate::ledger::{queue_spec, result_offset, ComputationResult, Ledger, PrivateBalanceAccount};
use crate::queue::{holds_offset, lookup};
use crate::record::{
    decode_spec, deposit_blob_spec, deposit_spec, encoding, initial_state,
    lemma_codec_round_trip, BalanceState,
};
use crate::request::CircuitId;

verus! {

/// The record after depositing `amounts` in order, or `None` where one of them
/// is rejected.
pub open spec fn deposits(s: BalanceState, amounts: Seq<u64>) -> Option<BalanceState>
    decreases amounts.len(),
{
    if amounts.len() == 0 {
        Some(s)
    } else {
        match deposits(s, amounts.drop_last()) {
            None => None,
            Some(t) => deposit_spec(amounts.last(), t),
        }
    }
}

/// The blob after the cluster runs a deposit of each of `amounts` in order.
pub open spec fn blob_deposits(b: Seq<u8>, amounts: Seq<u64>) -> Result<Seq<u8>, ErrorCode>
    decreases amounts.len(),
{
    if amounts.len() == 0 {
        Ok(b)
    } else {
        match blob_deposits(b, amounts.drop_last()) {
            Err(e) => Err(e),
            Ok(c) => deposit_blob_spec(c, amounts.last()),
        }
    }
}

/// The sum of `amounts`.
pub open spec fn total(amounts: Seq<u64>) -> int
    decreases amounts.len(),
{
    if amounts.len() == 0 {
        0
    } else {
        total(amounts.drop_last()) + amounts.last()
    }
}

/// A result that is aborted, or whose signature did not verify, is never
/// committed: the callback rejects it, and a rejected callback leaves ledger
/// and account as they were. Where nothing else is wrong, the rejection is
/// `AbortedComputation`.
pub proof fn lemma_unverified_result_rejected(
    l: &Ledger,
    account: &PrivateBalanceAccount,
    caller: Identity,
    circuit: CircuitId,
    result: &ComputationResult,
)
    requires
        match result {
            ComputationResult::Aborted { .. } => true,
            ComputationResult::Signed(o) => !o.signature_valid,
        },
    ensures
        callback_error(l, account, caller, circuit, result) is Some,
        l.cluster == Some(caller) && (lookup(l.pending(), result_offset(result)) matches Some(p)
            && p.circuit == circuit && p.owner == account.owner) ==> callback_error(
            l,
            account,
            caller,
            circuit,
            result,
        ) == Some(ErrorCode::AbortedComputation),
{
}

/// While a computation holds an offset, queueing another under the same offset
/// is `DuplicateComputationOffset`.
pub proof fn lemma_pending_offset_refused(
    l: &Ledger,
    circuit: CircuitId,
    offset: u64,
    owner: Identity,
)
    requires
        l.cluster is Some,
        l.registered(circuit),
        holds_offset(l.pending(), offset),
    ensures
        queue_spec(l, circuit, offset, owner) == Err::<Seq<crate::queue::PendingComputation>, ErrorCode>(
            ErrorCode::DuplicateComputationOffset,
        ),
{
}

/// Once the computation under an offset has been committed, the offset is
/// free: queueing under it again is not `DuplicateComputationOffset`.
pub proof fn lemma_resolved_offset_reusable(
    l0: &Ledger,
    l1: &Ledger,
    a0: &PrivateBalanceAccount,
    a1: &PrivateBalanceAccount,
    result: &ComputationResult,
    circuit: CircuitId,
    owner: Identity,
)
    requires
        committed(l0, l1, a0, a1, result),
    ensures
        queue_spec(l1, circuit, result_offset(result), owner) != Err::<
            Seq<crate::queue::PendingComputation>,
            ErrorCode,
        >(ErrorCode::DuplicateComputationOffset),
{
}

/// A result that has been committed cannot be committed again: replayed, it
/// is `UnknownComputation`, and so changes nothing.
pub proof fn lemma_replay_rejected(
    l0: &Ledger,
    l1: &Ledger,
    a0: &PrivateBalanceAccount,
    a1: &PrivateBalanceAccount,
    caller: Identity,
    circuit: CircuitId,
    result: &ComputationResult,
)
    requires
        callback_error(l0, a0, caller, circuit, result) is None,
        committed(l0, l1, a0, a1, result),
    ensures
        callback_error(l1, a1, caller, circuit, result) == Some(ErrorCode::UnknownComputation),
{
}

/// Each committed deposit raises the record's nonce by exactly one.
pub proof fn lemma_deposit_nonce_steps(s: BalanceState, amounts: Seq<u64>)
    ensures
        deposits(s, amounts) matches Some(t) ==> t.nonce == s.nonce + amounts.len(),
    decreases amounts.len(),
{
    if amounts.len() > 0 {
        lemma_deposit_nonce_steps(s, amounts.drop_last());
    }
}

/// From a fresh record, depositing `amounts` gives their sum as the balance
/// and their count as the nonce, as long as neither leaves `u64`.
pub proof fn lemma_deposits_add_up(amounts: Seq<u64>)
    requires
        total(amounts) <= u64::MAX,
        amounts.len() <= u64::MAX,
    ensures
        deposits(initial_state(), amounts) == Some(
            BalanceState { balance: total(amounts) as u64, nonce: amounts.len() as u64 },
        ),
    decreases amounts.len(),
{
    if amounts.len() > 0 {
        let d = amounts.drop_last();
        lemma_total_nonneg(d);
        lemma_deposits_add_up(d);
    }
}

proof fn lemma_total_nonneg(amounts: Seq<u64>)
    ensures
        total(amounts) >= 0,
    decreases amounts.len(),
{
    if amounts.len() > 0 {
        lemma_total_nonneg(amounts.drop_last());
    }
}

/// The same over blobs, as the cluster sees them: from the blob of a fresh
/// record, running the deposits gives a blob that decodes to the sum of the
/// amounts, with their count as the nonce.
pub proof fn lemma_blob_deposits_add_up(amounts: Seq<u64>)
    requires
        total(amounts) <= u64::MAX,
        amounts.len() <= u64::MAX,
    ensures
        blob_deposits(encoding(initial_state()), amounts) == Ok::<Seq<u8>, ErrorCode>(
            encoding(BalanceState { balance: total(amounts) as u64, nonce: amounts.len() as u64 }),
        ),
        decode_spec(encoding(BalanceState { balance: total(amounts) as u64, nonce: amounts.len() as u64 }))
            == Ok::<BalanceState, ErrorCode>(
            BalanceState { balance: total(amounts) as u64, nonce: amounts.len() as u64 },
        ),
    decreases amounts.len(),
{
    lemma_codec_round_trip(
        BalanceState { balance: total(amounts) as u64, nonce: amounts.len() as u64 },
    );
    if amounts.len() > 0 {
        let d = amounts.drop_last();
        lemma_total_nonneg(d);
        lemma_blob_deposits_add_up(d);
    } else {
        assert(total(amounts) == 0);
    }
}

} // verus!
