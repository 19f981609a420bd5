//! The request envelope: a common header — optional target-node identity and
//! optional request identity — paired with exactly one variant payload. The
//! payload's kind is fixed at construction and never changes; the envelope is
//! mutated only through the fluent builder operations of the variant types.

use vstd::prelude::*;

use crate::entity::AccountId;
use crate::units::Timestamp;

verus! {

/// The identity of one request: the paying account and the chosen start of
/// its validity window.
#[derive(Debug, Clone, Copy, PartialEq, Eq, Structural)]
pub struct TransactionId {
    pub account_id: AccountId,
    pub valid_start: Timestamp,
}

/// The mutable body of a transaction envelope.
#[derive(Debug, Clone, PartialEq)]
pub struct TransactionBody<D> {
    /// The one variant payload.
    pub data: D,
    /// The node the request is aimed at, if chosen.
    pub node_account_id: Option<AccountId>,
    /// The request identity, if chosen.
    pub transaction_id: Option<TransactionId>,
}

/// A transaction envelope over one variant payload.
#[derive(Debug, Clone, PartialEq)]
pub struct Transaction<D> {
    pub body: TransactionBody<D>,
}

/// A query envelope over one variant payload.
#[derive(Debug, Clone, PartialEq)]
pub struct Query<D> {
    /// The one variant payload.
    pub data: D,
    /// The node the request is aimed at, if chosen.
    pub node_account_id: Option<AccountId>,
}

} // verus!
