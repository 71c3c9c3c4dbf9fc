use vstd::prelude::*;
use crate::error::ErrorCode;
use crate::identity::Identity;
use crate::queue::{
    enqueue_spec, holds_offset, unique, ComputationQueue, PendingComputation,
};
use crate::record::STATE_LEN;
use crate::request::{
    build_request, circuit_name, comp_def_offset_of, AccountRef, Argument, CircuitId,
    ComputationRequest, STATE_OFFSET,
};

verus! {

/// The stored balance account of one owner.
pub struct PrivateBalanceAccount {
    pub owner: Identity,
    /// Bump of the address that the account is derived at.
    pub bump: u8,
    /// Ciphertext of the owner's balance record, of fixed width.
    pub balance_state: Vec<u8>,
    /// Encryption nonce of `balance_state`.
    pub nonce: u128,
}

impl PrivateBalanceAccount {
    pub open spec fn wf(&self) -> bool {
        self.balance_state@.len() == STATE_LEN
    }
}

/// Event of a committed initialization.
#[derive(Clone, Copy, Debug, PartialEq, Eq, Structural)]
pub struct BalanceAccountCreated {
    pub owner: Identity,
    pub timestamp: i64,
}

/// Event of a committed deposit.
#[derive(Clone, Copy, Debug, PartialEq, Eq, Structural)]
pub struct DepositCompleted {
    pub owner: Identity,
    pub timestamp: i64,
}

/// A result that the cluster signed.
pub struct SignedOutput {
    pub offset: u64,
    pub ciphertexts: Vec<Vec<u8>>,
    /// Encryption nonce of the new ciphertext.
    pub nonce: u128,
    /// Whether the signature verified against the expected cluster and the
    /// computation record made at enqueue time.
    pub signature_valid: bool,
}

/// What the cluster delivers for a computation.
pub enum ComputationResult {
    Signed(SignedOutput),
    Aborted { offset: u64 },
}

pub open spec fn result_offset(r: &ComputationResult) -> u64 {
    match r {
        ComputationResult::Signed(o) => o.offset,
        ComputationResult::Aborted { offset } => *offset,
    }
}

/// The ledger side of the protocol: the cluster that signs results, the
/// registered circuit definitions and the computations in flight.
pub struct Ledger {
    /// Authority of the cluster that signs and delivers results.
    pub cluster: Option<Identity>,
    /// Offsets of the registered circuit definitions.
    pub definitions: Vec<u32>,
    /// The computations in flight.
    pub queue: ComputationQueue,
}

impl Ledger {
    /// The computations in flight.
    pub open spec fn pending(&self) -> Seq<PendingComputation> {
        self.queue@
    }

    pub open spec fn wf(&self) -> bool {
        unique(self.pending())
    }

    /// A circuit may be queued: its definition is registered.
    pub open spec fn registered(&self, c: CircuitId) -> bool {
        self.definitions@.contains(comp_def_offset_of(circuit_name(c)))
    }

    pub fn new(cluster: Option<Identity>) -> (r: Ledger)
        ensures
            r.wf(),
            r.cluster == cluster,
            r.definitions@ == Seq::<u32>::empty(),
            r.pending() == Seq::<PendingComputation>::empty(),
    {
        Ledger { cluster, definitions: Vec::new(), queue: ComputationQueue::new() }
    }

    /// Whether a computation under `offset` is in flight.
    pub fn is_pending(&self, offset: u64) -> (r: bool)
        requires
            self.wf(),
        ensures
            r == holds_offset(self.pending(), offset),
    {
        self.queue.position(offset).is_some()
    }
}

/// What queueing `circuit` under `offset` for `owner` does to the computations
/// in flight.
pub open spec fn queue_spec(l: &Ledger, circuit: CircuitId, offset: u64, owner: Identity) -> Result<
    Seq<PendingComputation>,
    ErrorCode,
> {
    if l.cluster is None || !l.registered(circuit) {
        Err(ErrorCode::ClusterNotSet)
    } else {
        enqueue_spec(l.pending(), PendingComputation { offset, circuit, owner })
    }
}

fn contains_offset(v: &Vec<u32>, x: u32) -> (r: bool)
    ensures
        r == v@.contains(x),
{
    let mut i: usize = 0;
    while i < v.len()
        invariant
            i <= v@.len(),
            forall|j: int| 0 <= j < i ==> v@[j] != x,
        decreases v@.len() - i,
    {
        if v[i] == x {
            assert(v@[i as int] == x);
            return true;
        }
        i = i + 1;
    }
    false
}

fn register(ledger: &mut Ledger, circuit: CircuitId) -> (r: u32)
    requires
        old(ledger).wf(),
    ensures
        final(ledger).wf(),
        r == comp_def_offset_of(circuit_name(circuit)),
        final(ledger).definitions@ == if old(ledger).definitions@.contains(r) {
            old(ledger).definitions@
        } else {
            old(ledger).definitions@.push(r)
        },
        final(ledger).cluster == old(ledger).cluster,
        final(ledger).pending() == old(ledger).pending(),
{
    let offset = circuit.comp_def_offset();
    if !contains_offset(&ledger.definitions, offset) {
        ledger.definitions.push(offset);
    }
    offset
}

/// Registers the definition of the initialization circuit; returns its offset.
pub fn init_balance_comp_def(ledger: &mut Ledger) -> (r: u32)
    requires
        old(ledger).wf(),
    ensures
        final(ledger).wf(),
        r == comp_def_offset_of(circuit_name(CircuitId::InitBalance)),
        final(ledger).definitions@ == if old(ledger).definitions@.contains(r) {
            old(ledger).definitions@
        } else {
            old(ledger).definitions@.push(r)
        },
        final(ledger).cluster == old(ledger).cluster,
        final(ledger).pending() == old(ledger).pending(),
{
    register(ledger, CircuitId::InitBalance)
}

/// Registers the definition of the deposit circuit; returns its offset.
pub fn init_deposit_comp_def(ledger: &mut Ledger) -> (r: u32)
    requires
        old(ledger).wf(),
    ensures
        final(ledger).wf(),
        r == comp_def_offset_of(circuit_name(CircuitId::Deposit)),
        final(ledger).definitions@ == if old(ledger).definitions@.contains(r) {
            old(ledger).definitions@
        } else {
            old(ledger).definitions@.push(r)
        },
        final(ledger).cluster == old(ledger).cluster,
        final(ledger).pending() == old(ledger).pending(),
{
    register(ledger, CircuitId::Deposit)
}

fn queue_computation(ledger: &mut Ledger, circuit: CircuitId, offset: u64, owner: Identity) -> (r:
    Result<(), ErrorCode>)
    requires
        old(ledger).wf(),
    ensures
        final(ledger).wf(),
        final(ledger).cluster == old(ledger).cluster,
        final(ledger).definitions == old(ledger).definitions,
        match queue_spec(old(ledger), circuit, offset, owner) {
            Ok(s) => r is Ok && final(ledger).pending() == s,
            Err(e) => r == Err::<(), ErrorCode>(e) && *final(ledger) == *old(ledger),
        },
{
    if ledger.cluster.is_none() {
        return Err(ErrorCode::ClusterNotSet);
    }
    let def = circuit.comp_def_offset();
    if !contains_offset(&ledger.definitions, def) {
        return Err(ErrorCode::ClusterNotSet);
    }
    ledger.queue.enqueue(PendingComputation { offset, circuit, owner })
}

/// The arguments of the initialization circuit.
pub open spec fn init_args(nonce: u128) -> Seq<Argument> {
    seq![Argument::PlaintextU128(nonce)]
}

/// The arguments of the deposit circuit.
pub open spec fn deposit_args(amount: u64, nonce: u128) -> Seq<Argument> {
    seq![Argument::PlaintextU64(amount), Argument::PlaintextU128(nonce)]
}

/// The slice of a balance account that the deposit circuit reads.
pub open spec fn state_ref(account: Identity) -> AccountRef {
    AccountRef { account, offset: STATE_OFFSET, length: STATE_LEN as u32 }
}

/// Creates the balance account of `payer`, with an empty blob and the given
/// encryption nonce, and queues its initialization under `computation_offset`.
/// Returns the account and the request to hand to the cluster.
pub fn create_balance_account(
    ledger: &mut Ledger,
    payer: Identity,
    bump: u8,
    computation_offset: u64,
    nonce: u128,
) -> (r: Result<(PrivateBalanceAccount, ComputationRequest), ErrorCode>)
    requires
        old(ledger).wf(),
    ensures
        final(ledger).wf(),
        final(ledger).cluster == old(ledger).cluster,
        final(ledger).definitions == old(ledger).definitions,
        match queue_spec(old(ledger), CircuitId::InitBalance, computation_offset, payer) {
            Ok(s) => final(ledger).pending() == s && (r matches Ok((a, q)) && a.wf() && a.owner
                == payer && a.bump == bump && a.nonce == nonce && a.balance_state@ == Seq::new(
                STATE_LEN as nat,
                |i: int| 0u8,
            ) && q.offset == computation_offset && q.circuit == CircuitId::InitBalance
                && q.args@ == init_args(nonce) && q.accounts@ == Seq::<AccountRef>::empty()),
            Err(e) => (r matches Err(x) && x == e) && *final(ledger) == *old(ledger),
        },
{
    let args = vec![Argument::PlaintextU128(nonce)];
    let accounts: Vec<AccountRef> = Vec::new();
    assert(args@ == init_args(nonce));
    let request = match build_request(computation_offset, CircuitId::InitBalance, args, accounts) {
        Ok(q) => q,
        Err(e) => return Err(e),
    };
    match queue_computation(ledger, CircuitId::InitBalance, computation_offset, payer) {
        Ok(()) => {},
        Err(e) => return Err(e),
    }
    let mut balance_state: Vec<u8> = Vec::new();
    let mut i: usize = 0;
    while i < STATE_LEN
        invariant
            i <= STATE_LEN,
            balance_state@ == Seq::new(i as nat, |j: int| 0u8),
        decreases STATE_LEN - i,
    {
        balance_state.push(0u8);
        i = i + 1;
        assert(balance_state@ =~= Seq::new(i as nat, |j: int| 0u8));
    }
    Ok((PrivateBalanceAccount { owner: payer, bump, balance_state, nonce }, request))
}

/// Queues a deposit of the public `amount` into `account`, which lives at
/// `account_key`. Only the owner may deposit. Returns the request to hand to
/// the cluster; the account itself changes only when the result is committed.
pub fn deposit_funds(
    ledger: &mut Ledger,
    account: &PrivateBalanceAccount,
    account_key: Identity,
    signer: Identity,
    computation_offset: u64,
    amount: u64,
) -> (r: Result<ComputationRequest, ErrorCode>)
    requires
        old(ledger).wf(),
    ensures
        final(ledger).wf(),
        final(ledger).cluster == old(ledger).cluster,
        final(ledger).definitions == old(ledger).definitions,
        signer != account.owner ==> (r matches Err(x) && x == ErrorCode::InvalidAuthority)
            && *final(ledger) == *old(ledger),
        signer == account.owner ==> match queue_spec(
            old(ledger),
            CircuitId::Deposit,
            computation_offset,
            account.owner,
        ) {
            Ok(s) => final(ledger).pending() == s && (r matches Ok(q) && q.offset
                == computation_offset && q.circuit == CircuitId::Deposit && q.args@
                == deposit_args(amount, account.nonce) && q.accounts@ == seq![
                state_ref(account_key)]),
            Err(e) => (r matches Err(x) && x == e) && *final(ledger) == *old(ledger),
        },
{
    if signer != account.owner {
        return Err(ErrorCode::InvalidAuthority);
    }
    let args = vec![Argument::PlaintextU64(amount), Argument::PlaintextU128(account.nonce)];
    let accounts = vec![AccountRef { account: account_key, offset: STATE_OFFSET, length: STATE_LEN as u32 }];
    assert(args@ == deposit_args(amount, account.nonce));
    assert(accounts@ == seq![state_ref(account_key)]);
    let request = match build_request(computation_offset, CircuitId::Deposit, args, accounts) {
        Ok(q) => q,
        Err(e) => return Err(e),
    };
    match queue_computation(ledger, CircuitId::Deposit, computation_offset, account.owner) {
        Ok(()) => {},
        Err(e) => return Err(e),
    }
    Ok(request)
}

} // verus!
