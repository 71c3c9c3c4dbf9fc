//! Confidential balance ledger: the on-ledger half of a protocol that hands
//! balance arithmetic to an external multi-party computation cluster.
//!
//! `record` holds the confidential record, its circuits and its fixed-width
//! codec; `request` builds circuit invocations; `queue` correlates offsets
//! with computations in flight; `ledger` and `callback` queue requests and
//! commit or reject the cluster's results; `laws` states what holds across
//! these operations.

pub mod error;
pub mod identity;
pub mod record;
pub mod request;
pub mod queue;
pub mod ledger;
pub mod callback;
pub mod laws;
