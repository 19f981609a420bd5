//! Custom fee schedules assessed during token transfers. Schedules are
//! ordered collections; every conversion preserves their input order.

use vstd::prelude::*;

use crate::entity::{AccountId, TokenId};

verus! {

/// A fixed fee: an exact amount of a denominating token.
#[derive(Debug, Clone, Copy, PartialEq, Eq, Structural)]
pub struct FixedFee {
    pub amount: i64,
    pub denominating_token_id: TokenId,
}

/// The kind of fee assessed.
#[derive(Debug, Clone, Copy, PartialEq, Eq, Structural)]
pub enum Fee {
    FixedFee(FixedFee),
}

/// One custom fee: what is assessed and who collects it.
#[derive(Debug, Clone, Copy, PartialEq, Eq, Structural)]
pub struct CustomFee {
    pub fee: Fee,
    pub fee_collector_account_id: AccountId,
}

} // verus!
