use hedera::wire::{to_wire_key, to_signed_bits, wire_timestamp, WireFee, WireKey, WireTransactionData};
use hedera::{
    AccountId, ContractExecuteTransaction, ContractId, CustomFee, DecodeError, Fee, FixedFee,
    Hbar, Key, PublicKey, ThresholdKey, Timestamp, TokenCreateTransaction, TokenId,
    TokenSupplyType, TokenType, TransactionId,
};

fn request_identity() -> TransactionId {
    TransactionId {
        account_id: AccountId::from_num(3),
        valid_start: Timestamp::from_unix_timestamp_nanos(0),
    }
}

#[test]
fn unsigned_values_reinterpret_by_bit_pattern() {
    assert_eq!(to_signed_bits(0), 0);
    assert_eq!(to_signed_bits(1000), 1000);
    assert_eq!(to_signed_bits(i64::MAX as u64), i64::MAX);
    assert_eq!(to_signed_bits(0x8000000000000000), i64::MIN);
    assert_eq!(to_signed_bits(u64::MAX), -1);
}

#[test]
fn instants_split_into_seconds_and_nanoseconds() {
    let w = wire_timestamp(Timestamp::from_unix_timestamp_nanos(1656352251277559886));
    assert_eq!(w.seconds, 1656352251);
    assert_eq!(w.nanos, 277559886);

    let zero = wire_timestamp(Timestamp::from_unix_timestamp_nanos(0));
    assert_eq!(zero.seconds, 0);
    assert_eq!(zero.nanos, 0);

    // An instant before the epoch: seconds round down, nanoseconds stay in
    // range, and the pair recombines exactly.
    let w = wire_timestamp(Timestamp::from_unix_timestamp_nanos(-1));
    assert_eq!(w.seconds, -1);
    assert_eq!(w.nanos, 999999999);

    let w = wire_timestamp(Timestamp::from_unix_timestamp_nanos(-2000000000));
    assert_eq!(w.seconds, -2);
    assert_eq!(w.nanos, 0);

    let w = wire_timestamp(Timestamp::from_unix_timestamp_nanos(i64::MIN));
    assert_eq!(
        w.seconds as i128 * 1_000_000_000 + w.nanos as i128,
        i64::MIN as i128
    );
}

#[test]
fn contract_call_transcodes_extreme_values_without_failing() {
    let mut transaction = ContractExecuteTransaction::new();
    transaction.contract_id(ContractId::from_num(1001));
    transaction.gas(u64::MAX);
    transaction.payable_amount(Hbar::from_tinybars(i64::MIN));
    transaction.function_parameters(Vec::new());

    let wire = transaction.body.data.to_transaction_data_protobuf(
        AccountId::from_num(3),
        &request_identity(),
    );
    let body = match wire {
        WireTransactionData::ContractCall(b) => b,
        _ => panic!("wrong wire arm"),
    };
    // The protocol reinterprets the unsigned capacity field by bit pattern.
    assert_eq!(body.gas, -1);
    assert_eq!(body.amount, i64::MIN);
    assert_eq!(body.function_parameters, Vec::<u8>::new());
    let id = body.contract_id.unwrap();
    assert_eq!((id.shard_num, id.realm_num, id.contract_num), (0, 0, 1001));
}

#[test]
fn token_creation_transcodes_defaults_and_extremes() {
    let mut transaction = TokenCreateTransaction::new();
    transaction.max_supply(u64::MAX);
    transaction.initial_supply(u64::MAX);

    let wire = transaction.body.data.to_transaction_data_protobuf(
        AccountId::from_num(3),
        &request_identity(),
    );
    let body = match wire {
        WireTransactionData::TokenCreation(b) => b,
        _ => panic!("wrong wire arm"),
    };
    assert_eq!(body.name, "");
    assert_eq!(body.symbol, "");
    assert_eq!(body.decimals, 0);
    assert_eq!(body.initial_supply, u64::MAX);
    assert_eq!(body.max_supply, -1);
    assert_eq!(body.treasury, None);
    assert_eq!(body.admin_key, None);
    assert_eq!(body.expiry, None);
    // The default 90-day renewal interval reaches the wire in whole seconds.
    assert_eq!(body.auto_renew_period.unwrap().seconds, 7776000);
    assert_eq!(body.token_type, 0);
    assert_eq!(body.supply_type, 0);
    assert_eq!(body.custom_fees, Vec::new());
}

#[test]
fn token_creation_transcodes_fees_in_order() {
    let mut transaction = TokenCreateTransaction::new();
    transaction.custom_fees(vec![
        CustomFee {
            fee: Fee::FixedFee(FixedFee { amount: 1, denominating_token_id: TokenId::from_num(7) }),
            fee_collector_account_id: AccountId::from_num(8),
        },
        CustomFee {
            fee: Fee::FixedFee(FixedFee {
                amount: -2,
                denominating_token_id: TokenId::from_num(9),
            }),
            fee_collector_account_id: AccountId::from_num(10),
        },
    ]);
    let wire = transaction.body.data.to_transaction_data_protobuf(
        AccountId::from_num(3),
        &request_identity(),
    );
    let body = match wire {
        WireTransactionData::TokenCreation(b) => b,
        _ => panic!("wrong wire arm"),
    };
    assert_eq!(body.custom_fees.len(), 2);
    let WireFee::FixedFee(first) = body.custom_fees[0].fee;
    assert_eq!(first.amount, 1);
    assert_eq!(first.denominating_token_id.unwrap().token_num, 7);
    assert_eq!(body.custom_fees[0].fee_collector_account_id.unwrap().account_num, 8);
    let WireFee::FixedFee(second) = body.custom_fees[1].fee;
    assert_eq!(second.amount, -2);
    assert_eq!(second.denominating_token_id.unwrap().token_num, 9);
    assert_eq!(body.custom_fees[1].fee_collector_account_id.unwrap().account_num, 10);
}

#[test]
fn token_type_names_and_wire_values() {
    assert_eq!(TokenType::FungibleCommon.to_text(), "fungibleCommon");
    assert_eq!(TokenType::NonFungibleUnique.to_text(), "nonFungibleUnique");
    assert_eq!(TokenType::from_text("fungibleCommon"), Ok(TokenType::FungibleCommon));
    assert_eq!(TokenType::from_text("nonFungibleUnique"), Ok(TokenType::NonFungibleUnique));
    assert_eq!(TokenType::from_text("common"), Err(DecodeError::UnknownTokenType));
    assert_eq!(TokenType::FungibleCommon.to_protobuf(), 0);
    assert_eq!(TokenType::NonFungibleUnique.to_protobuf(), 1);

    assert_eq!(TokenSupplyType::Infinite.to_text(), "infinite");
    assert_eq!(TokenSupplyType::Finite.to_text(), "finite");
    assert_eq!(TokenSupplyType::from_text("infinite"), Ok(TokenSupplyType::Infinite));
    assert_eq!(TokenSupplyType::from_text("finite"), Ok(TokenSupplyType::Finite));
    assert_eq!(TokenSupplyType::from_text("bounded"), Err(DecodeError::UnknownSupplyType));
    assert_eq!(TokenSupplyType::Infinite.to_protobuf(), 0);
    assert_eq!(TokenSupplyType::Finite.to_protobuf(), 1);
}

#[test]
fn threshold_keys_reach_the_wire_with_their_raw_bytes() {
    let k1 = PublicKey::from_text(
        "302a300506032b6570032100d1ad76ed9b057a3d3f2ea2d03b41bcd79aeafd611f941924f0f6da528ab066fd",
    )
    .unwrap();
    let k2 = PublicKey::from_text(
        "302a300506032b6570032100b5b4d9351ebdf266ef3989aed4fd8f0cfcf24b75ba3d0df19cd3946771b40500",
    )
    .unwrap();
    let key = Key::Threshold(ThresholdKey {
        threshold: 1,
        keys: vec![k1.clone(), k2.clone()],
    });
    match to_wire_key(&key) {
        WireKey::Threshold(threshold, keys) => {
            assert_eq!(threshold, 1);
            assert_eq!(keys, vec![k1.bytes.clone(), k2.bytes.clone()]);
        },
        _ => panic!("wrong wire key arm"),
    }
    match to_wire_key(&Key::Single(k1.clone())) {
        WireKey::Ed25519(bytes) => assert_eq!(bytes, k1.bytes),
        _ => panic!("wrong wire key arm"),
    }
}
