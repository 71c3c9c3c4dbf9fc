use vstd::prelude::*;
use crate::error::ErrorCode;
use crate::identity::Identity;
use crate::record::STATE_LEN;

verus! {

/// Where a balance account's blob starts in its stored layout: discriminator,
/// owner key, bump.
pub const STATE_OFFSET: u32 = 41;

/// The confidential circuits that the cluster runs.
#[derive(Clone, Copy, Debug, PartialEq, Eq, Structural)]
pub enum CircuitId {
    InitBalance,
    Deposit,
}

/// Name under which a circuit's definition is registered.
pub open spec fn circuit_name(c: CircuitId) -> Seq<char> {
    match c {
        CircuitId::InitBalance => "init_balance"@,
        CircuitId::Deposit => "deposit"@,
    }
}

/// The definition offset that the cluster derives from a circuit name.
pub uninterp spec fn comp_def_offset_of(name: Seq<char>) -> u32;

/// Relies on arcium_anchor::comp_def_offset: a function of the name alone
/// (the first four bytes of its SHA-256 digest).
#[verifier::external_body]
fn definition_offset(name: &str) -> (r: u32)
    ensures
        r == comp_def_offset_of(name@),
{
    arcium_anchor::comp_def_offset(name)
}

impl CircuitId {
    /// Offset of this circuit's definition.
    pub fn comp_def_offset(&self) -> (r: u32)
        ensures
            r == comp_def_offset_of(circuit_name(*self)),
    {
        match self {
            CircuitId::InitBalance => definition_offset("init_balance"),
            CircuitId::Deposit => definition_offset("deposit"),
        }
    }
}

/// A public argument handed to a circuit.
#[derive(Clone, Copy, Debug, PartialEq, Eq, Structural)]
pub enum Argument {
    PlaintextU64(u64),
    PlaintextU128(u128),
}

/// The type of a public argument.
#[derive(Clone, Copy, Debug, PartialEq, Eq, Structural)]
pub enum ArgumentKind {
    U64,
    U128,
}

pub open spec fn kind_of(a: Argument) -> ArgumentKind {
    match a {
        Argument::PlaintextU64(_) => ArgumentKind::U64,
        Argument::PlaintextU128(_) => ArgumentKind::U128,
    }
}

/// A slice of a stored account that the cluster reads.
#[derive(Clone, Copy, Debug, PartialEq, Eq, Structural)]
pub struct AccountRef {
    pub account: Identity,
    pub offset: u32,
    pub length: u32,
}

/// The public argument types that a circuit takes, in order.
pub open spec fn schema(c: CircuitId) -> Seq<ArgumentKind> {
    match c {
        CircuitId::InitBalance => seq![ArgumentKind::U128],
        CircuitId::Deposit => seq![ArgumentKind::U64, ArgumentKind::U128],
    }
}

/// How many account slices a circuit reads.
pub open spec fn account_count(c: CircuitId) -> nat {
    match c {
        CircuitId::InitBalance => 0,
        CircuitId::Deposit => 1,
    }
}

/// An account slice is the whole balance blob of the account.
pub open spec fn ref_fits(r: AccountRef) -> bool {
    r.offset == STATE_OFFSET && r.length == STATE_LEN
}

/// Arguments and slices agree with the circuit's schema, in order and width.
pub open spec fn matches_schema(c: CircuitId, args: Seq<Argument>, refs: Seq<AccountRef>) -> bool {
    &&& args.len() == schema(c).len()
    &&& forall|i: int| 0 <= i < args.len() ==> kind_of(#[trigger] args[i]) == schema(c)[i]
    &&& refs.len() == account_count(c)
    &&& forall|i: int| 0 <= i < refs.len() ==> ref_fits(#[trigger] refs[i])
}

/// A circuit invocation, ready to be queued under `offset`.
pub struct ComputationRequest {
    pub offset: u64,
    pub circuit: CircuitId,
    pub args: Vec<Argument>,
    pub accounts: Vec<AccountRef>,
}

fn argument_kind(a: &Argument) -> (r: ArgumentKind)
    ensures
        r == kind_of(*a),
{
    match a {
        Argument::PlaintextU64(_) => ArgumentKind::U64,
        Argument::PlaintextU128(_) => ArgumentKind::U128,
    }
}

fn expected_kinds(c: CircuitId) -> (r: Vec<ArgumentKind>)
    ensures
        r@ == schema(c),
{
    match c {
        CircuitId::InitBalance => vec![ArgumentKind::U128],
        CircuitId::Deposit => vec![ArgumentKind::U64, ArgumentKind::U128],
    }
}

/// Assembles a request; arguments or slices that do not match the circuit's
/// schema are `ArgumentSchemaMismatch`.
pub fn build_request(
    offset: u64,
    circuit: CircuitId,
    args: Vec<Argument>,
    accounts: Vec<AccountRef>,
) -> (r: Result<ComputationRequest, ErrorCode>)
    ensures
        matches_schema(circuit, args@, accounts@) <==> r is Ok,
        r is Err ==> r == Err::<ComputationRequest, ErrorCode>(ErrorCode::ArgumentSchemaMismatch),
        r matches Ok(q) ==> q.offset == offset && q.circuit == circuit && q.args@ == args@
            && q.accounts@ == accounts@,
{
    let kinds = expected_kinds(circuit);
    if args.len() != kinds.len() {
        return Err(ErrorCode::ArgumentSchemaMismatch);
    }
    let mut i: usize = 0;
    while i < args.len()
        invariant
            args@.len() == kinds@.len(),
            kinds@ == schema(circuit),
            i <= args@.len(),
            forall|j: int| 0 <= j < i ==> kind_of(#[trigger] args@[j]) == schema(circuit)[j],
        decreases args@.len() - i,
    {
        if argument_kind(&args[i]) != kinds[i] {
            return Err(ErrorCode::ArgumentSchemaMismatch);
        }
        i = i + 1;
    }
    let wanted: usize = match circuit {
        CircuitId::InitBalance => 0,
        CircuitId::Deposit => 1,
    };
    if accounts.len() != wanted {
        return Err(ErrorCode::ArgumentSchemaMismatch);
    }
    let mut k: usize = 0;
    while k < accounts.len()
        invariant
            k <= accounts@.len(),
            forall|j: int| 0 <= j < k ==> ref_fits(#[trigger] accounts@[j]),
        decreases accounts@.len() - k,
    {
        if accounts[k].offset != STATE_OFFSET || accounts[k].length != STATE_LEN as u32 {
            return Err(ErrorCode::ArgumentSchemaMismatch);
        }
        k = k + 1;
    }
    Ok(ComputationRequest { offset, circuit, args, accounts })
}

} // verus!
