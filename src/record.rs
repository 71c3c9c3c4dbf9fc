use vstd::prelude::*;
use crate::error::ErrorCode;

verus! {

/// Width in bytes of a stored balance blob.
pub const STATE_LEN: usize = 64;

/// The confidential record that the cluster keeps for one account.
#[derive(Clone, Copy, Debug, PartialEq, Eq, Structural)]
pub struct BalanceState {
    pub balance: u64,
    pub nonce: u64,
}

/// The record that a fresh account starts from.
pub open spec fn initial_state() -> BalanceState {
    BalanceState { balance: 0, nonce: 0 }
}

/// A deposit of `amount`: `None` where the balance or the nonce would leave `u64`.
pub open spec fn deposit_spec(amount: u64, s: BalanceState) -> Option<BalanceState> {
    if s.balance + amount > u64::MAX || s.nonce + 1 > u64::MAX {
        None
    } else {
        Some(BalanceState { balance: (s.balance + amount) as u64, nonce: (s.nonce + 1) as u64 })
    }
}

/// Circuit that produces the record of a fresh account.
pub fn init_balance() -> (r: BalanceState)
    ensures
        r == initial_state(),
{
    BalanceState { balance: 0, nonce: 0 }
}

/// Circuit that adds a public `amount` to a record and bumps its nonce.
/// Overflow is rejected rather than wrapped.
pub fn deposit(amount: u64, state: BalanceState) -> (r: Option<BalanceState>)
    ensures
        r == deposit_spec(amount, state),
{
    match state.balance.checked_add(amount) {
        None => None,
        Some(balance) => match state.nonce.checked_add(1) {
            None => None,
            Some(nonce) => Some(BalanceState { balance, nonce }),
        },
    }
}

/// Little-endian bytes of a `u64`.
pub open spec fn le_bytes(v: u64) -> Seq<u8> {
    seq![
        (v & 0xff) as u8,
        ((v >> 8u64) & 0xff) as u8,
        ((v >> 16u64) & 0xff) as u8,
        ((v >> 24u64) & 0xff) as u8,
        ((v >> 32u64) & 0xff) as u8,
        ((v >> 40u64) & 0xff) as u8,
        ((v >> 48u64) & 0xff) as u8,
        ((v >> 56u64) & 0xff) as u8,
    ]
}

/// The `u64` whose little-endian bytes are `b[start..start + 8]`.
pub open spec fn le_value(b: Seq<u8>, start: int) -> u64 {
    (b[start] as u64) | ((b[start + 1] as u64) << 8u64) | ((b[start + 2] as u64) << 16u64)
        | ((b[start + 3] as u64) << 24u64) | ((b[start + 4] as u64) << 32u64) | ((b[start
        + 5] as u64) << 40u64) | ((b[start + 6] as u64) << 48u64) | ((b[start + 7] as u64)
        << 56u64)
}

/// The blob of a record: balance, then nonce, little-endian, then zero padding
/// up to the fixed width.
pub open spec fn encoding(s: BalanceState) -> Seq<u8> {
    le_bytes(s.balance) + le_bytes(s.nonce) + Seq::new(48, |i: int| 0u8)
}

/// What a blob of the fixed width decodes to.
pub open spec fn decoding(b: Seq<u8>) -> BalanceState {
    BalanceState { balance: le_value(b, 0), nonce: le_value(b, 8) }
}

pub open spec fn decode_spec(b: Seq<u8>) -> Result<BalanceState, ErrorCode> {
    if b.len() == STATE_LEN {
        Ok(decoding(b))
    } else {
        Err(ErrorCode::CorruptState)
    }
}

proof fn lemma_le_round_trip(v: u64)
    ensures
        le_value(le_bytes(v), 0) == v,
{
    let b = le_bytes(v);
    let b0 = (v & 0xff) as u8;
    let b1 = ((v >> 8u64) & 0xff) as u8;
    let b2 = ((v >> 16u64) & 0xff) as u8;
    let b3 = ((v >> 24u64) & 0xff) as u8;
    let b4 = ((v >> 32u64) & 0xff) as u8;
    let b5 = ((v >> 40u64) & 0xff) as u8;
    let b6 = ((v >> 48u64) & 0xff) as u8;
    let b7 = ((v >> 56u64) & 0xff) as u8;
    assert(b[0] == b0 && b[1] == b1 && b[2] == b2 && b[3] == b3);
    assert(b[4] == b4 && b[5] == b5 && b[6] == b6 && b[7] == b7);
    assert(((v & 0xff) as u8 as u64) | ((((v >> 8u64) & 0xff) as u8 as u64) << 8u64) | ((((v
        >> 16u64) & 0xff) as u8 as u64) << 16u64) | ((((v >> 24u64) & 0xff) as u8 as u64)
        << 24u64) | ((((v >> 32u64) & 0xff) as u8 as u64) << 32u64) | ((((v >> 40u64)
        & 0xff) as u8 as u64) << 40u64) | ((((v >> 48u64) & 0xff) as u8 as u64) << 48u64)
        | ((((v >> 56u64) & 0xff) as u8 as u64) << 56u64) == v) by (bit_vector);
}

/// Decoding the blob of a record gives the record back.
pub proof fn lemma_codec_round_trip(s: BalanceState)
    ensures
        encoding(s).len() == STATE_LEN,
        decode_spec(encoding(s)) == Ok::<BalanceState, ErrorCode>(s),
{
    let e = encoding(s);
    lemma_le_round_trip(s.balance);
    lemma_le_round_trip(s.nonce);
    assert(e.subrange(0, 8) =~= le_bytes(s.balance));
    assert(e.subrange(8, 16) =~= le_bytes(s.nonce));
    assert(le_value(e, 0) == le_value(le_bytes(s.balance), 0));
    assert(le_value(e, 8) == le_value(le_bytes(s.nonce), 0)) by {
        let n = le_bytes(s.nonce);
        assert(forall|i: int| 0 <= i < 8 ==> e[8 + i] == n[i]);
    }
}

fn push_le(out: &mut Vec<u8>, v: u64)
    ensures
        final(out)@ == old(out)@ + le_bytes(v),
{
    out.push((v & 0xff) as u8);
    out.push(((v >> 8) & 0xff) as u8);
    out.push(((v >> 16) & 0xff) as u8);
    out.push(((v >> 24) & 0xff) as u8);
    out.push(((v >> 32) & 0xff) as u8);
    out.push(((v >> 40) & 0xff) as u8);
    out.push(((v >> 48) & 0xff) as u8);
    out.push(((v >> 56) & 0xff) as u8);
    assert(final(out)@ =~= old(out)@ + le_bytes(v));
}

/// Serializes a record to its fixed-width blob.
pub fn encode(state: &BalanceState) -> (r: Vec<u8>)
    ensures
        r@ == encoding(*state),
        r@.len() == STATE_LEN,
{
    let mut out: Vec<u8> = Vec::new();
    push_le(&mut out, state.balance);
    push_le(&mut out, state.nonce);
    let mut i: usize = 16;
    while i < STATE_LEN
        invariant
            16 <= i <= STATE_LEN,
            out@ =~= le_bytes(state.balance) + le_bytes(state.nonce) + Seq::new(
                (i - 16) as nat,
                |j: int| 0u8,
            ),
        decreases STATE_LEN - i,
    {
        out.push(0u8);
        i = i + 1;
    }
    out
}

fn read_le(b: &[u8], start: usize) -> (r: u64)
    requires
        start + 8 <= b@.len(),
    ensures
        r == le_value(b@, start as int),
{
    (b[start] as u64) | ((b[start + 1] as u64) << 8u64) | ((b[start + 2] as u64) << 16u64)
        | ((b[start + 3] as u64) << 24u64) | ((b[start + 4] as u64) << 32u64) | ((b[start
        + 5] as u64) << 40u64) | ((b[start + 6] as u64) << 48u64) | ((b[start + 7] as u64)
        << 56u64)
}

/// Reads a record back from its blob; a blob of another width is `CorruptState`.
pub fn decode(blob: &[u8]) -> (r: Result<BalanceState, ErrorCode>)
    ensures
        r == decode_spec(blob@),
{
    if blob.len() != STATE_LEN {
        return Err(ErrorCode::CorruptState);
    }
    Ok(BalanceState { balance: read_le(blob, 0), nonce: read_le(blob, 8) })
}

/// The deposit circuit as the cluster runs it on a stored blob: decode,
/// deposit, encode. A deposit that would overflow aborts the computation.
pub open spec fn deposit_blob_spec(blob: Seq<u8>, amount: u64) -> Result<Seq<u8>, ErrorCode> {
    match decode_spec(blob) {
        Err(e) => Err(e),
        Ok(s) => match deposit_spec(amount, s) {
            None => Err(ErrorCode::AbortedComputation),
            Some(t) => Ok(encoding(t)),
        },
    }
}

/// The blob that the initialization circuit produces.
pub fn evaluate_init() -> (r: Vec<u8>)
    ensures
        r@ == encoding(initial_state()),
{
    encode(&init_balance())
}

/// Runs the deposit circuit on a stored blob.
pub fn evaluate_deposit(blob: &[u8], amount: u64) -> (r: Result<Vec<u8>, ErrorCode>)
    ensures
        match deposit_blob_spec(blob@, amount) {
            Ok(b) => r matches Ok(v) && v@ == b,
            Err(e) => r matches Err(x) && x == e,
        },
{
    match decode(blob) {
        Err(e) => Err(e),
        Ok(s) => match deposit(amount, s) {
            None => Err(ErrorCode::AbortedComputation),
            Some(t) => Ok(encode(&t)),
        },
    }
}

} // verus!
