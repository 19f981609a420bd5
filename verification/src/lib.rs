//! Request-construction and dispatch core for a ledger-network client.
//!
//! Callers build strongly-typed requests ("variants": contract calls, token
//! creation, schedule queries), mutate them through fluent builders, convert
//! them losslessly into wire messages, route them to the one remote procedure
//! bound to each variant, and serialize them to a stable tagged document form.

pub mod any;
pub mod codec;
pub mod contract_execute;
pub mod dispatch;
pub mod document_text;
pub mod entity;
pub mod envelope;
pub mod error;
pub mod fees;
pub mod key;
pub mod schedule_info;
pub mod token_create;
pub mod token_types;
pub mod units;
pub mod wire;

pub use any::{
    AnyQueryData, AnyQueryDocument, AnyTransaction, AnyTransactionData, AnyTransactionDocument,
    QueryKind, TransactionKind,
};
pub use contract_execute::{ContractExecuteTransaction, ContractExecuteTransactionData};
pub use dispatch::{Route, RpcMethod, RpcService};
pub use entity::{AccountAddress, AccountId, ContractId, ScheduleId, TokenId};
pub use envelope::{Query, Transaction, TransactionBody, TransactionId};
pub use error::DecodeError;
pub use fees::{CustomFee, Fee, FixedFee};
pub use key::{Key, KeyModel, PublicKey, ThresholdKey};
pub use schedule_info::{ScheduleInfoQuery, ScheduleInfoQueryData};
pub use token_create::{TokenCreateTransaction, TokenCreateTransactionData};
pub use token_types::{TokenSupplyType, TokenType};
pub use units::{Duration, Hbar, Timestamp};
