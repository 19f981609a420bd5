//! The closed variant registry. Each request kind statically owns a field
//! set, a wire transcoder, a dispatch route and a discriminant string; the
//! kind alone determines all four, by exhaustive matching and nothing else.

use vstd::prelude::*;

use crate::codec::str_eq;
use crate::contract_execute::{
    decode_contract_execute, encode_contract_execute, is_contract_call_wire,
    lemma_contract_execute_round_trip, ContractExecuteDocModel, ContractExecuteDocument,
    ContractExecuteModel, ContractExecuteTransactionData,
};
use crate::dispatch::{Route, RpcMethod, RpcService};
use crate::envelope::{Transaction, TransactionBody, TransactionId};
use crate::error::DecodeError;
use crate::entity::AccountId;
use crate::schedule_info::{
    decode_schedule_info, encode_schedule_info, is_schedule_info_wire, ScheduleInfoDocument,
    ScheduleInfoQueryData,
};
use crate::token_create::{
    decode_token_create, encode_token_create, is_token_create_wire,
    lemma_token_create_round_trip, TokenCreateDocModel, TokenCreateDocument, TokenCreateModel,
    TokenCreateTransactionData,
};
use crate::wire::{WireQuery, WireQueryHeader, WireTransactionData};

verus! {

// ---------------------------------------------------------------------------
// The transaction registry
// ---------------------------------------------------------------------------

/// Any transaction variant's field set.
#[derive(Debug, Clone, PartialEq)]
pub enum AnyTransactionData {
    ContractExecute(ContractExecuteTransactionData),
    TokenCreate(TokenCreateTransactionData),
}

/// The mathematical shape of any transaction variant.
#[verifier::ext_equal]
pub ghost enum AnyTransactionModel {
    ContractExecute(ContractExecuteModel),
    TokenCreate(TokenCreateModel),
}

impl View for AnyTransactionData {
    type V = AnyTransactionModel;

    open spec fn view(&self) -> AnyTransactionModel {
        match self {
            AnyTransactionData::ContractExecute(d) => AnyTransactionModel::ContractExecute(d@),
            AnyTransactionData::TokenCreate(d) => AnyTransactionModel::TokenCreate(d@),
        }
    }
}

/// A transaction envelope over any variant.
pub type AnyTransaction = Transaction<AnyTransactionData>;

impl From<ContractExecuteTransactionData> for AnyTransactionData {
    fn from(transaction: ContractExecuteTransactionData) -> (r: Self) {
        AnyTransactionData::ContractExecute(transaction)
    }
}

impl vstd::std_specs::convert::FromSpecImpl<ContractExecuteTransactionData>
    for AnyTransactionData {
    open spec fn obeys_from_spec() -> bool {
        true
    }

    open spec fn from_spec(transaction: ContractExecuteTransactionData) -> Self {
        AnyTransactionData::ContractExecute(transaction)
    }
}

impl From<TokenCreateTransactionData> for AnyTransactionData {
    fn from(transaction: TokenCreateTransactionData) -> (r: Self) {
        AnyTransactionData::TokenCreate(transaction)
    }
}

impl vstd::std_specs::convert::FromSpecImpl<TokenCreateTransactionData> for AnyTransactionData {
    open spec fn obeys_from_spec() -> bool {
        true
    }

    open spec fn from_spec(transaction: TokenCreateTransactionData) -> Self {
        AnyTransactionData::TokenCreate(transaction)
    }
}

/// The kinds of the transaction registry.
#[derive(Debug, Clone, Copy, PartialEq, Eq, Structural)]
pub enum TransactionKind {
    ContractExecute,
    TokenCreate,
}

/// The kind of a transaction variant.
pub open spec fn spec_transaction_kind(m: AnyTransactionModel) -> TransactionKind {
    match m {
        AnyTransactionModel::ContractExecute(_) => TransactionKind::ContractExecute,
        AnyTransactionModel::TokenCreate(_) => TransactionKind::TokenCreate,
    }
}

/// The discriminant string of a transaction kind, as the document schema
/// writes it.
pub open spec fn transaction_kind_text(k: TransactionKind) -> Seq<char> {
    match k {
        TransactionKind::ContractExecute => "contractExecute"@,
        TransactionKind::TokenCreate => "tokenCreate"@,
    }
}

/// What decoding a discriminant yields: defined exactly on the fixed,
/// unique discriminant strings of the closed set.
pub open spec fn parse_transaction_kind(s: Seq<char>) -> Option<TransactionKind> {
    if s == "contractExecute"@ {
        Some(TransactionKind::ContractExecute)
    } else if s == "tokenCreate"@ {
        Some(TransactionKind::TokenCreate)
    } else {
        None
    }
}

/// Decoding inverts encoding for every transaction kind.
pub proof fn lemma_transaction_kind_round_trip(k: TransactionKind)
    ensures
        parse_transaction_kind(transaction_kind_text(k)) == Some(k),
{
    reveal_strlit("contractExecute");
    reveal_strlit("tokenCreate");
    assert("contractExecute"@.len() != "tokenCreate"@.len());
}

/// Decodes a discriminant string; fails exactly on strings outside the
/// closed set, and such a document is rejected, never coerced.
pub fn transaction_kind_from_discriminant(s: &str) -> (r: Result<TransactionKind, DecodeError>)
    ensures
        match r {
            Ok(k) => parse_transaction_kind(s@) == Some(k),
            Err(e) => parse_transaction_kind(s@) is None && e
                == DecodeError::UnknownDiscriminant,
        },
{
    if str_eq(s, "contractExecute") {
        Ok(TransactionKind::ContractExecute)
    } else if str_eq(s, "tokenCreate") {
        Ok(TransactionKind::TokenCreate)
    } else {
        Err(DecodeError::UnknownDiscriminant)
    }
}

/// The one route of each transaction kind: a contract call goes to the
/// smart-contract service's "call contract method" procedure; a token
/// creation goes to the token service's "create token" procedure.
pub open spec fn spec_transaction_route(k: TransactionKind) -> Route {
    match k {
        TransactionKind::ContractExecute => Route {
            service: RpcService::SmartContract,
            method: RpcMethod::ContractCallMethod,
        },
        TransactionKind::TokenCreate => Route {
            service: RpcService::Token,
            method: RpcMethod::CreateToken,
        },
    }
}

impl AnyTransactionData {
    /// The kind of this variant.
    pub fn kind(&self) -> (r: TransactionKind)
        ensures
            r == spec_transaction_kind(self@),
    {
        match self {
            AnyTransactionData::ContractExecute(_) => TransactionKind::ContractExecute,
            AnyTransactionData::TokenCreate(_) => TransactionKind::TokenCreate,
        }
    }

    /// The discriminant string naming this variant's kind in the document
    /// schema.
    pub fn discriminant(&self) -> (r: &'static str)
        ensures
            r@ == transaction_kind_text(spec_transaction_kind(self@)),
    {
        match self {
            AnyTransactionData::ContractExecute(_) => "contractExecute",
            AnyTransactionData::TokenCreate(_) => "tokenCreate",
        }
    }

    /// Dispatch routing: the exactly one remote procedure bound to this
    /// variant's kind, on the exactly one documented service. The mapping is
    /// static and exhaustive.
    pub fn route(&self) -> (r: Route)
        ensures
            r == spec_transaction_route(spec_transaction_kind(self@)),
    {
        match self {
            AnyTransactionData::ContractExecute(_) => Route {
                service: RpcService::SmartContract,
                method: RpcMethod::ContractCallMethod,
            },
            AnyTransactionData::TokenCreate(_) => Route {
                service: RpcService::Token,
                method: RpcMethod::CreateToken,
            },
        }
    }

    /// Produces the wire message for the current field values of whichever
    /// variant is held. Transcoding is total and pure.
    pub fn to_transaction_data_protobuf(
        &self,
        node_account_id: AccountId,
        transaction_id: &TransactionId,
    ) -> (r: WireTransactionData)
        ensures
            match self@ {
                AnyTransactionModel::ContractExecute(m) => is_contract_call_wire(m, r),
                AnyTransactionModel::TokenCreate(m) => is_token_create_wire(m, r),
            },
    {
        match self {
            AnyTransactionData::ContractExecute(d) => d.to_transaction_data_protobuf(
                node_account_id,
                transaction_id,
            ),
            AnyTransactionData::TokenCreate(d) => d.to_transaction_data_protobuf(
                node_account_id,
                transaction_id,
            ),
        }
    }
}

// ---------------------------------------------------------------------------
// The query registry
// ---------------------------------------------------------------------------

/// Any query variant's field set.
#[derive(Debug, Clone, Copy, PartialEq, Eq, Structural)]
pub enum AnyQueryData {
    ScheduleInfo(ScheduleInfoQueryData),
}

impl From<ScheduleInfoQueryData> for AnyQueryData {
    fn from(data: ScheduleInfoQueryData) -> (r: Self) {
        AnyQueryData::ScheduleInfo(data)
    }
}

impl vstd::std_specs::convert::FromSpecImpl<ScheduleInfoQueryData> for AnyQueryData {
    open spec fn obeys_from_spec() -> bool {
        true
    }

    open spec fn from_spec(data: ScheduleInfoQueryData) -> Self {
        AnyQueryData::ScheduleInfo(data)
    }
}

/// The kinds of the query registry.
#[derive(Debug, Clone, Copy, PartialEq, Eq, Structural)]
pub enum QueryKind {
    ScheduleInfo,
}

/// The discriminant string of a query kind.
pub open spec fn query_kind_text(k: QueryKind) -> Seq<char> {
    match k {
        QueryKind::ScheduleInfo => "scheduleInfo"@,
    }
}

/// What decoding a query discriminant yields.
pub open spec fn parse_query_kind(s: Seq<char>) -> Option<QueryKind> {
    if s == "scheduleInfo"@ {
        Some(QueryKind::ScheduleInfo)
    } else {
        None
    }
}

/// Decoding inverts encoding for every query kind.
pub proof fn lemma_query_kind_round_trip(k: QueryKind)
    ensures
        parse_query_kind(query_kind_text(k)) == Some(k),
{
}

/// Decodes a query discriminant string; fails exactly on strings outside
/// the closed set.
pub fn query_kind_from_discriminant(s: &str) -> (r: Result<QueryKind, DecodeError>)
    ensures
        match r {
            Ok(k) => parse_query_kind(s@) == Some(k),
            Err(e) => parse_query_kind(s@) is None && e == DecodeError::UnknownDiscriminant,
        },
{
    if str_eq(s, "scheduleInfo") {
        Ok(QueryKind::ScheduleInfo)
    } else {
        Err(DecodeError::UnknownDiscriminant)
    }
}

/// The one route of each query kind: a schedule-information query goes to
/// the schedule service's "get schedule info" procedure.
pub open spec fn spec_query_route(k: QueryKind) -> Route {
    match k {
        QueryKind::ScheduleInfo => Route {
            service: RpcService::Schedule,
            method: RpcMethod::GetScheduleInfo,
        },
    }
}

impl AnyQueryData {
    /// The kind of this variant.
    pub fn kind(&self) -> (r: QueryKind)
        ensures
            r == QueryKind::ScheduleInfo,
    {
        match self {
            AnyQueryData::ScheduleInfo(_) => QueryKind::ScheduleInfo,
        }
    }

    /// The discriminant string naming this variant's kind.
    pub fn discriminant(&self) -> (r: &'static str)
        ensures
            r@ == query_kind_text(QueryKind::ScheduleInfo),
    {
        match self {
            AnyQueryData::ScheduleInfo(_) => "scheduleInfo",
        }
    }

    /// Dispatch routing: the exactly one remote procedure bound to this
    /// variant's kind.
    pub fn route(&self) -> (r: Route)
        ensures
            r == spec_query_route(QueryKind::ScheduleInfo),
    {
        match self {
            AnyQueryData::ScheduleInfo(_) => Route {
                service: RpcService::Schedule,
                method: RpcMethod::GetScheduleInfo,
            },
        }
    }

    /// Produces the wire message for the current field values of whichever
    /// variant is held, under the given query header.
    pub fn to_query_protobuf(&self, header: WireQueryHeader) -> (r: WireQuery)
        ensures
            match self {
                AnyQueryData::ScheduleInfo(m) => is_schedule_info_wire(*m, header, r),
            },
    {
        match self {
            AnyQueryData::ScheduleInfo(d) => d.to_query_protobuf(header),
        }
    }
}

// ---------------------------------------------------------------------------
// Documents over the whole registry
// ---------------------------------------------------------------------------

/// The document form of any transaction variant: the arm is the
/// discriminant, the payload the variant's entries.
#[derive(Debug, Clone, PartialEq)]
pub enum AnyTransactionDocument {
    ContractExecute(ContractExecuteDocument),
    TokenCreate(TokenCreateDocument),
}

/// The mathematical shape of any transaction document.
#[verifier::ext_equal]
pub ghost enum AnyTransactionDocModel {
    ContractExecute(ContractExecuteDocModel),
    TokenCreate(TokenCreateDocModel),
}

impl View for AnyTransactionDocument {
    type V = AnyTransactionDocModel;

    open spec fn view(&self) -> AnyTransactionDocModel {
        match self {
            AnyTransactionDocument::ContractExecute(d) => AnyTransactionDocModel::ContractExecute(
                d@,
            ),
            AnyTransactionDocument::TokenCreate(d) => AnyTransactionDocModel::TokenCreate(d@),
        }
    }
}

/// What encoding any transaction variant yields.
pub open spec fn encode_any_transaction(m: AnyTransactionModel) -> AnyTransactionDocModel {
    match m {
        AnyTransactionModel::ContractExecute(v) => AnyTransactionDocModel::ContractExecute(
            encode_contract_execute(v),
        ),
        AnyTransactionModel::TokenCreate(v) => AnyTransactionDocModel::TokenCreate(
            encode_token_create(v),
        ),
    }
}

/// What decoding any transaction document yields: the discriminant picks
/// the variant, whose missing entries take its documented defaults.
pub open spec fn decode_any_transaction(d: AnyTransactionDocModel) -> AnyTransactionModel {
    match d {
        AnyTransactionDocModel::ContractExecute(v) => AnyTransactionModel::ContractExecute(
            decode_contract_execute(v),
        ),
        AnyTransactionDocModel::TokenCreate(v) => AnyTransactionModel::TokenCreate(
            decode_token_create(v),
        ),
    }
}

/// Round-trip law over the whole registry: decoding the encoding of any
/// reachable variant yields a value equal in every field to the original.
/// For the token-creation variant this holds whenever an auto-renewal
/// interval is stored.
pub proof fn lemma_any_transaction_round_trip(m: AnyTransactionModel)
    requires
        m matches AnyTransactionModel::TokenCreate(t) ==> t.auto_renew_period is Some,
    ensures
        decode_any_transaction(encode_any_transaction(m)) == m,
{
    match m {
        AnyTransactionModel::ContractExecute(v) => {
            lemma_contract_execute_round_trip(v);
        },
        AnyTransactionModel::TokenCreate(v) => {
            lemma_token_create_round_trip(v);
        },
    }
}

impl AnyTransactionData {
    /// Encodes whichever variant is held into its document form.
    pub fn to_document(&self) -> (r: AnyTransactionDocument)
        ensures
            r@ == encode_any_transaction(self@),
    {
        match self {
            AnyTransactionData::ContractExecute(d) => AnyTransactionDocument::ContractExecute(
                d.to_document(),
            ),
            AnyTransactionData::TokenCreate(d) => AnyTransactionDocument::TokenCreate(
                d.to_document(),
            ),
        }
    }

    /// Decodes a document into the variant its discriminant names, filling
    /// missing entries with that variant's documented defaults.
    pub fn from_document(d: AnyTransactionDocument) -> (r: Self)
        ensures
            r@ == decode_any_transaction(d@),
    {
        match d {
            AnyTransactionDocument::ContractExecute(v) => AnyTransactionData::ContractExecute(
                ContractExecuteTransactionData::from_document(v),
            ),
            AnyTransactionDocument::TokenCreate(v) => AnyTransactionData::TokenCreate(
                TokenCreateTransactionData::from_document(v),
            ),
        }
    }
}

impl Transaction<AnyTransactionData> {
    /// Decodes a document into a fresh envelope: the decoded variant with
    /// header fields absent.
    pub fn from_document(d: AnyTransactionDocument) -> (r: Self)
        ensures
            r.body.data@ == decode_any_transaction(d@),
            r.body.node_account_id is None,
            r.body.transaction_id is None,
    {
        Transaction {
            body: TransactionBody {
                data: AnyTransactionData::from_document(d),
                node_account_id: None,
                transaction_id: None,
            },
        }
    }

    /// Encodes the held variant into its document form.
    pub fn to_document(&self) -> (r: AnyTransactionDocument)
        ensures
            r@ == encode_any_transaction(self.body.data@),
    {
        self.body.data.to_document()
    }
}

/// The document form of any query variant.
#[derive(Debug, Clone, Copy, PartialEq, Eq, Structural)]
pub enum AnyQueryDocument {
    ScheduleInfo(ScheduleInfoDocument),
}

/// What encoding any query variant yields.
pub open spec fn encode_any_query(m: AnyQueryData) -> AnyQueryDocument {
    match m {
        AnyQueryData::ScheduleInfo(v) => AnyQueryDocument::ScheduleInfo(encode_schedule_info(v)),
    }
}

/// What decoding any query document yields.
pub open spec fn decode_any_query(d: AnyQueryDocument) -> AnyQueryData {
    match d {
        AnyQueryDocument::ScheduleInfo(v) => AnyQueryData::ScheduleInfo(decode_schedule_info(v)),
    }
}

/// Round-trip law for the query registry.
pub proof fn lemma_any_query_round_trip(m: AnyQueryData)
    ensures
        decode_any_query(encode_any_query(m)) == m,
{
    match m {
        AnyQueryData::ScheduleInfo(v) => {
            crate::schedule_info::lemma_schedule_info_round_trip(v);
        },
    }
}

impl AnyQueryData {
    /// Encodes whichever variant is held into its document form.
    pub fn to_document(&self) -> (r: AnyQueryDocument)
        ensures
            r == encode_any_query(*self),
    {
        match self {
            AnyQueryData::ScheduleInfo(d) => AnyQueryDocument::ScheduleInfo(d.to_document()),
        }
    }

    /// Decodes a document into the variant its discriminant names.
    pub fn from_document(d: AnyQueryDocument) -> (r: Self)
        ensures
            r == decode_any_query(d),
    {
        match d {
            AnyQueryDocument::ScheduleInfo(v) => AnyQueryData::ScheduleInfo(
                ScheduleInfoQueryData::from_document(v),
            ),
        }
    }
}

} // verus!
