use hedera::schedule_info::ScheduleInfoDocument;
use hedera::wire::{WireQuery, WireQueryData, WireQueryHeader, WireTransactionData};
use hedera::{
    AccountId, AnyQueryData, AnyTransactionData, ContractExecuteTransaction, DecodeError, Route,
    RpcMethod, RpcService, ScheduleId, ScheduleInfoQuery, ScheduleInfoQueryData,
    TokenCreateTransaction, TransactionId, TransactionKind,
};

/// A test double standing in for the transport: it records which remote
/// procedure each dispatched request was bound to.
struct RecordingChannel {
    calls: Vec<(Route, &'static str)>,
}

impl RecordingChannel {
    fn new() -> Self {
        RecordingChannel { calls: Vec::new() }
    }

    fn send_transaction(&mut self, data: &AnyTransactionData, _wire: WireTransactionData) {
        self.calls.push((data.route(), data.discriminant()));
    }

    fn send_query(&mut self, data: &AnyQueryData, _wire: WireQuery) {
        self.calls.push((data.route(), data.discriminant()));
    }
}

fn request_identity() -> TransactionId {
    TransactionId {
        account_id: AccountId::from_num(3),
        valid_start: hedera::Timestamp::from_unix_timestamp_nanos(0),
    }
}

#[test]
fn dispatch_routes_each_kind_to_its_documented_procedure() {
    let mut channel = RecordingChannel::new();

    let contract = ContractExecuteTransaction::new();
    let contract_data = AnyTransactionData::from(contract.body.data);
    let wire = contract_data.to_transaction_data_protobuf(
        AccountId::from_num(3),
        &request_identity(),
    );
    channel.send_transaction(&contract_data, wire);

    let token = TokenCreateTransaction::new();
    let token_data = AnyTransactionData::from(token.body.data);
    let wire = token_data.to_transaction_data_protobuf(AccountId::from_num(3), &request_identity());
    channel.send_transaction(&token_data, wire);

    let query = ScheduleInfoQuery::new();
    let query_data = AnyQueryData::from(query.data);
    let wire = query_data.to_query_protobuf(WireQueryHeader { response_type: 0 });
    channel.send_query(&query_data, wire);

    assert_eq!(
        channel.calls,
        vec![
            (
                Route {
                    service: RpcService::SmartContract,
                    method: RpcMethod::ContractCallMethod,
                },
                "contractExecute",
            ),
            (
                Route { service: RpcService::Token, method: RpcMethod::CreateToken },
                "tokenCreate",
            ),
            (
                Route { service: RpcService::Schedule, method: RpcMethod::GetScheduleInfo },
                "scheduleInfo",
            ),
        ]
    );
}

#[test]
fn discriminants_decode_back_to_their_kinds() {
    assert_eq!(
        hedera::any::transaction_kind_from_discriminant("contractExecute"),
        Ok(TransactionKind::ContractExecute)
    );
    assert_eq!(
        hedera::any::transaction_kind_from_discriminant("tokenCreate"),
        Ok(TransactionKind::TokenCreate)
    );
    assert_eq!(
        hedera::any::transaction_kind_from_discriminant("fileCreate"),
        Err(DecodeError::UnknownDiscriminant)
    );
    assert_eq!(
        hedera::any::query_kind_from_discriminant("scheduleInfo"),
        Ok(hedera::QueryKind::ScheduleInfo)
    );
    assert_eq!(
        hedera::any::query_kind_from_discriminant("TOKENCREATE"),
        Err(DecodeError::UnknownDiscriminant)
    );
}

#[test]
fn schedule_info_query_builds_and_transcodes() {
    let mut query = ScheduleInfoQuery::new();
    assert_eq!(query.data.schedule_id, None);
    query.schedule_id(ScheduleId::from_num(5005));
    assert_eq!(query.data.schedule_id, Some(ScheduleId::from_num(5005)));

    let wire = query.data.to_query_protobuf(WireQueryHeader { response_type: 0 });
    match wire.query {
        Some(WireQueryData::ScheduleGetInfo(q)) => {
            let id = q.schedule_id.unwrap();
            assert_eq!(id.shard_num, 0);
            assert_eq!(id.realm_num, 0);
            assert_eq!(id.schedule_num, 5005);
            assert_eq!(q.header, Some(WireQueryHeader { response_type: 0 }));
        },
        None => panic!("query arm missing"),
    }
}

#[test]
fn schedule_info_document_round_trips() {
    let data = ScheduleInfoQueryData { schedule_id: Some(ScheduleId::from_num(9)) };
    let doc = data.to_document();
    assert_eq!(doc, ScheduleInfoDocument { schedule_id: Some(ScheduleId::from_num(9)) });
    assert_eq!(ScheduleInfoQueryData::from_document(doc), data);

    let empty = ScheduleInfoDocument { schedule_id: None };
    assert_eq!(
        ScheduleInfoQueryData::from_document(empty),
        ScheduleInfoQueryData { schedule_id: None }
    );
}
