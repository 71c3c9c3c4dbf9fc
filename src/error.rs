use vstd::prelude::*;

verus! {

/// Every way a ledger operation can be rejected. A rejected operation
/// leaves all ledger state as it was.
#[derive(Clone, Copy, Debug, PartialEq, Eq, Structural)]
pub enum ErrorCode {
    /// The caller is not the account owner, or a callback does not come from
    /// the trusted cluster authority.
    InvalidAuthority,
    /// The cluster aborted, or its signature over the result did not verify.
    AbortedComputation,
    /// The cluster is not configured.
    ClusterNotSet,
    /// Reserved for spend-checking circuits.
    InsufficientBalance,
    /// The offset is already held by a computation in flight.
    DuplicateComputationOffset,
    /// No computation in flight matches the callback.
    UnknownComputation,
    /// A ciphertext blob does not have the fixed width.
    CorruptState,
    /// The arguments do not match the circuit's argument schema.
    ArgumentSchemaMismatch,
    /// The account already has a computation in flight.
    ComputationPending,
}

} // verus!
