use hedera::token_create::TokenCreateDocument;
use hedera::{
    AccountAddress, AccountId, AnyTransaction, AnyTransactionData, AnyTransactionDocument,
    CustomFee, Duration, Fee, FixedFee, Key, PublicKey, Timestamp, TokenCreateTransaction,
    TokenId, TokenSupplyType, TokenType,
};

const TOKEN_CREATE_TRANSACTION_JSON: &str = r#"{
  "$type": "tokenCreate",
  "name": "Pound",
  "symbol": "LB",
  "decimals": 9,
  "initialSupply": 1000000000,
  "treasuryAccountId": "0.0.1001",
  "adminKey": {
    "single": "302a300506032b6570032100d1ad76ed9b057a3d3f2ea2d03b41bcd79aeafd611f941924f0f6da528ab066fd"
  },
  "kycKey": {
    "single": "302a300506032b6570032100b5b4d9351ebdf266ef3989aed4fd8f0cfcf24b75ba3d0df19cd3946771b40500"
  },
  "freezeKey": {
    "single": "302a300506032b657003210004e540b5fba8fc1ee1cc5cc450019c578b36311733507fabf4f85bf2744583e7"
  },
  "wipeKey": {
    "single": "302a300506032b657003210099f8981cad75fc7322bf5c89d5f4ce4f2af76b2a63780b22cbce1bfdfa237f4e"
  },
  "supplyKey": {
    "single": "302a300506032b6570032100c80c04aaca1783aafbaf6eba462bac89236ec82ac4db31953329ffbfeacdb88b"
  },
  "freezeDefault": false,
  "expiresAt": 1656352251277559886,
  "autoRenewAccountId": "0.0.1002",
  "autoRenewPeriod": 7776000,
  "tokenMemo": "A memo",
  "tokenType": "fungibleCommon",
  "tokenSupplyType": "finite",
  "maxSupply": 1000000000,
  "feeScheduleKey": {
    "single": "302a300506032b65700321000cd029bfd4a818de944c21799f4b5f6b5616702d0495520c818d92488e5395fc"
  },
  "customFees": [
    {
      "fee": {
        "FixedFee": {
          "amount": 1,
          "denominating_token_id": "0.0.7"
        }
      },
      "fee_collector_account_id": "0.0.8"
    }
  ],
  "pauseKey": {
    "single": "302a300506032b65700321008b020177031eae1e4a721c814b08a3ef2c3f473781a570e9daaf9f7ad27f8967"
  }
}"#;

const ADMIN_KEY: &str =
    "302a300506032b6570032100d1ad76ed9b057a3d3f2ea2d03b41bcd79aeafd611f941924f0f6da528ab066fd";
const KYC_KEY: &str =
    "302a300506032b6570032100b5b4d9351ebdf266ef3989aed4fd8f0cfcf24b75ba3d0df19cd3946771b40500";
const FREEZE_KEY: &str =
    "302a300506032b657003210004e540b5fba8fc1ee1cc5cc450019c578b36311733507fabf4f85bf2744583e7";
const WIPE_KEY: &str =
    "302a300506032b657003210099f8981cad75fc7322bf5c89d5f4ce4f2af76b2a63780b22cbce1bfdfa237f4e";
const SUPPLY_KEY: &str =
    "302a300506032b6570032100c80c04aaca1783aafbaf6eba462bac89236ec82ac4db31953329ffbfeacdb88b";
const FEE_SCHEDULE_KEY: &str =
    "302a300506032b65700321000cd029bfd4a818de944c21799f4b5f6b5616702d0495520c818d92488e5395fc";
const PAUSE_KEY: &str =
    "302a300506032b65700321008b020177031eae1e4a721c814b08a3ef2c3f473781a570e9daaf9f7ad27f8967";

fn key(hex: &str) -> Key {
    Key::Single(PublicKey::from_text(hex).unwrap())
}

fn built_transaction() -> TokenCreateTransaction {
    let mut transaction = TokenCreateTransaction::new();
    transaction.name("Pound".to_string());
    transaction.symbol("LB".to_string());
    transaction.decimals(9);
    transaction.initial_supply(1_000_000_000);
    transaction.treasury_account_id(AccountAddress::from_text("0.0.1001").unwrap());
    transaction.admin_key(key(ADMIN_KEY));
    transaction.kyc_key(key(KYC_KEY));
    transaction.freeze_key(key(FREEZE_KEY));
    transaction.wipe_key(key(WIPE_KEY));
    transaction.supply_key(key(SUPPLY_KEY));
    transaction.freeze_default(false);
    transaction.expires_at(Timestamp::from_unix_timestamp_nanos(1656352251277559886));
    transaction.auto_renew_account_id(AccountAddress::from_text("0.0.1002").unwrap());
    transaction.auto_renew_period(Duration::days(90));
    transaction.token_memo("A memo".to_string());
    transaction.token_type(TokenType::FungibleCommon);
    transaction.token_supply_type(TokenSupplyType::Finite);
    transaction.max_supply(1_000_000_000);
    transaction.fee_schedule_key(key(FEE_SCHEDULE_KEY));
    transaction.custom_fees(vec![CustomFee {
        fee: Fee::FixedFee(FixedFee { amount: 1, denominating_token_id: TokenId::from_num(7) }),
        fee_collector_account_id: AccountId::from_num(8),
    }]);
    transaction.pause_key(key(PAUSE_KEY));
    transaction
}

#[test]
fn token_create_transaction_it_should_serialize() {
    let transaction = built_transaction();
    let data = AnyTransactionData::from(transaction.body.data);
    assert_eq!(data.discriminant(), "tokenCreate");
    let doc = match data.to_document() {
        AnyTransactionDocument::TokenCreate(d) => d,
        _ => panic!("wrong discriminant"),
    };
    let transaction_json = doc.to_json();
    assert_eq!(transaction_json, TOKEN_CREATE_TRANSACTION_JSON);
    assert_eq!(doc.name.as_deref(), Some("Pound"));
    assert_eq!(doc.symbol.as_deref(), Some("LB"));
    assert_eq!(doc.decimals, Some(9));
    assert_eq!(doc.initial_supply, Some(1_000_000_000));
    assert_eq!(
        doc.treasury_account_id,
        Some(AccountAddress::AccountId(AccountId::from_num(1001)))
    );
    assert_eq!(doc.admin_key, Some(key(ADMIN_KEY)));
    assert_eq!(doc.kyc_key, Some(key(KYC_KEY)));
    assert_eq!(doc.freeze_key, Some(key(FREEZE_KEY)));
    assert_eq!(doc.wipe_key, Some(key(WIPE_KEY)));
    assert_eq!(doc.supply_key, Some(key(SUPPLY_KEY)));
    assert_eq!(doc.freeze_default, Some(false));
    assert_eq!(doc.expires_at, Some(1656352251277559886));
    assert_eq!(
        doc.auto_renew_account_id,
        Some(AccountAddress::AccountId(AccountId::from_num(1002)))
    );
    assert_eq!(doc.auto_renew_period, Some(7776000));
    assert_eq!(doc.token_memo.as_deref(), Some("A memo"));
    assert_eq!(doc.token_type, Some(TokenType::FungibleCommon));
    assert_eq!(doc.token_supply_type, Some(TokenSupplyType::Finite));
    assert_eq!(doc.max_supply, Some(1_000_000_000));
    assert_eq!(doc.fee_schedule_key, Some(key(FEE_SCHEDULE_KEY)));
    assert_eq!(
        doc.custom_fees,
        Some(vec![CustomFee {
            fee: Fee::FixedFee(FixedFee {
                amount: 1,
                denominating_token_id: TokenId::from_num(7),
            }),
            fee_collector_account_id: AccountId::from_num(8),
        }])
    );
    assert_eq!(doc.pause_key, Some(key(PAUSE_KEY)));
}

fn full_document() -> TokenCreateDocument {
    TokenCreateDocument {
        name: Some("Pound".to_string()),
        symbol: Some("LB".to_string()),
        decimals: Some(9),
        initial_supply: Some(1_000_000_000),
        treasury_account_id: Some(AccountAddress::from_text("0.0.1001").unwrap()),
        admin_key: Some(key(ADMIN_KEY)),
        kyc_key: Some(key(KYC_KEY)),
        freeze_key: Some(key(FREEZE_KEY)),
        wipe_key: Some(key(WIPE_KEY)),
        supply_key: Some(key(SUPPLY_KEY)),
        freeze_default: Some(false),
        expires_at: Some(1656352251277559886),
        auto_renew_account_id: Some(AccountAddress::from_text("0.0.1002").unwrap()),
        auto_renew_period: Some(7776000),
        token_memo: Some("A memo".to_string()),
        token_type: Some(TokenType::FungibleCommon),
        token_supply_type: Some(TokenSupplyType::Finite),
        max_supply: Some(1_000_000_000),
        fee_schedule_key: Some(key(FEE_SCHEDULE_KEY)),
        custom_fees: Some(vec![CustomFee {
            fee: Fee::FixedFee(FixedFee { amount: 1, denominating_token_id: TokenId::from_num(7) }),
            fee_collector_account_id: AccountId::from_num(8),
        }]),
        pause_key: Some(key(PAUSE_KEY)),
    }
}

#[test]
fn token_create_transaction_it_should_deserialize() {
    let transaction: AnyTransaction =
        AnyTransaction::from_document(AnyTransactionDocument::TokenCreate(full_document()));

    let data = match transaction.body.data {
        AnyTransactionData::TokenCreate(transaction) => transaction,
        _ => panic!("wrong variant"),
    };

    assert_eq!(data.name, "Pound");
    assert_eq!(data.symbol, "LB");
    assert_eq!(data.decimals, 9);
    assert_eq!(data.initial_supply, 1_000_000_000);
    assert_eq!(data.freeze_default, false);
    assert_eq!(
        data.expires_at.unwrap(),
        Timestamp::from_unix_timestamp_nanos(1656352251277559886)
    );
    assert_eq!(data.auto_renew_period.unwrap(), Duration::days(90));
    assert_eq!(data.token_memo, "A memo");
    assert_eq!(data.token_type, TokenType::FungibleCommon);
    assert_eq!(data.token_supply_type, TokenSupplyType::Finite);
    assert_eq!(data.max_supply, 1_000_000_000);

    let treasury_account_id = match data.treasury_account_id.unwrap() {
        AccountAddress::AccountId(account_id) => account_id,
    };
    assert_eq!(treasury_account_id, AccountId::from_num(1001));

    let auto_renew_account_id = match data.auto_renew_account_id.unwrap() {
        AccountAddress::AccountId(account_id) => account_id,
    };
    assert_eq!(auto_renew_account_id, AccountId::from_num(1002));

    let admin_key = match data.admin_key.unwrap() {
        Key::Single(public_key) => public_key,
        _ => panic!("expected a single key"),
    };
    assert_eq!(admin_key, PublicKey::from_text(ADMIN_KEY).unwrap());

    let kyc_key = match data.kyc_key.unwrap() {
        Key::Single(public_key) => public_key,
        _ => panic!("expected a single key"),
    };
    assert_eq!(kyc_key, PublicKey::from_text(KYC_KEY).unwrap());

    let freeze_key = match data.freeze_key.unwrap() {
        Key::Single(public_key) => public_key,
        _ => panic!("expected a single key"),
    };
    assert_eq!(freeze_key, PublicKey::from_text(FREEZE_KEY).unwrap());

    let wipe_key = match data.wipe_key.unwrap() {
        Key::Single(public_key) => public_key,
        _ => panic!("expected a single key"),
    };
    assert_eq!(wipe_key, PublicKey::from_text(WIPE_KEY).unwrap());

    let supply_key = match data.supply_key.unwrap() {
        Key::Single(public_key) => public_key,
        _ => panic!("expected a single key"),
    };
    assert_eq!(supply_key, PublicKey::from_text(SUPPLY_KEY).unwrap());

    let fee_schedule_key = match data.fee_schedule_key.unwrap() {
        Key::Single(public_key) => public_key,
        _ => panic!("expected a single key"),
    };
    assert_eq!(fee_schedule_key, PublicKey::from_text(FEE_SCHEDULE_KEY).unwrap());

    let pause_key = match data.pause_key.unwrap() {
        Key::Single(public_key) => public_key,
        _ => panic!("expected a single key"),
    };
    assert_eq!(pause_key, PublicKey::from_text(PAUSE_KEY).unwrap());

    assert_eq!(
        data.custom_fees,
        [CustomFee {
            fee: Fee::FixedFee(FixedFee { amount: 1, denominating_token_id: TokenId::from_num(7) }),
            fee_collector_account_id: AccountId::from_num(8),
        }]
    );
}

#[test]
fn it_should_deserialize_empty() {
    let empty = TokenCreateDocument {
        name: None,
        symbol: None,
        decimals: None,
        initial_supply: None,
        treasury_account_id: None,
        admin_key: None,
        kyc_key: None,
        freeze_key: None,
        wipe_key: None,
        supply_key: None,
        freeze_default: None,
        expires_at: None,
        auto_renew_account_id: None,
        auto_renew_period: None,
        token_memo: None,
        token_type: None,
        token_supply_type: None,
        max_supply: None,
        fee_schedule_key: None,
        custom_fees: None,
        pause_key: None,
    };
    let transaction: AnyTransaction =
        AnyTransaction::from_document(AnyTransactionDocument::TokenCreate(empty));

    let data = match transaction.body.data {
        AnyTransactionData::TokenCreate(transaction) => transaction,
        _ => panic!("wrong variant"),
    };

    assert_eq!(data.auto_renew_period.unwrap(), Duration::days(90));
    assert_eq!(data.token_type, TokenType::FungibleCommon);
    assert_eq!(data.token_supply_type, TokenSupplyType::Infinite);
    assert_eq!(data.max_supply, 0);
}

#[test]
fn token_create_round_trip_preserves_every_field() {
    let transaction = built_transaction();
    let original = transaction.body.data.clone();
    let decoded = hedera::TokenCreateTransactionData::from_document(original.to_document());
    assert_eq!(decoded, original);
}

#[test]
fn expires_at_clears_auto_renew_period_but_not_back() {
    let mut transaction = TokenCreateTransaction::new();
    // The default interval is stored from the start.
    assert_eq!(transaction.body.data.auto_renew_period, Some(Duration::days(90)));

    transaction.expires_at(Timestamp::from_unix_timestamp_nanos(1656352251277559886));
    assert_eq!(transaction.body.data.auto_renew_period, None);
    assert_eq!(
        transaction.body.data.expires_at,
        Some(Timestamp::from_unix_timestamp_nanos(1656352251277559886))
    );

    // Setting the interval afterwards does not clear the expiry.
    transaction.auto_renew_period(Duration::days(30));
    assert_eq!(transaction.body.data.auto_renew_period, Some(Duration::days(30)));
    assert_eq!(
        transaction.body.data.expires_at,
        Some(Timestamp::from_unix_timestamp_nanos(1656352251277559886))
    );
}

#[test]
fn scenario_only_name_symbol_treasury_set() {
    let mut transaction = TokenCreateTransaction::new();
    transaction.name("Pound".to_string());
    transaction.symbol("LB".to_string());
    transaction.treasury_account_id(AccountAddress::from_text("0.0.1001").unwrap());

    let doc = match AnyTransactionData::from(transaction.body.data).to_document() {
        AnyTransactionDocument::TokenCreate(d) => d,
        _ => panic!("wrong discriminant"),
    };

    // Unset optional entries are omitted entirely.
    assert_eq!(doc.admin_key, None);
    assert_eq!(doc.kyc_key, None);
    assert_eq!(doc.freeze_key, None);
    assert_eq!(doc.wipe_key, None);
    assert_eq!(doc.supply_key, None);
    assert_eq!(doc.expires_at, None);
    assert_eq!(doc.auto_renew_account_id, None);
    assert_eq!(doc.fee_schedule_key, None);
    assert_eq!(doc.pause_key, None);

    // Decoding the encoding restores the documented defaults.
    let data = hedera::TokenCreateTransactionData::from_document(doc);
    assert_eq!(data.name, "Pound");
    assert_eq!(data.symbol, "LB");
    assert_eq!(
        data.treasury_account_id,
        Some(AccountAddress::AccountId(AccountId::from_num(1001)))
    );
    assert_eq!(data.auto_renew_period, Some(Duration::days(90)));
    assert_eq!(data.token_type, TokenType::FungibleCommon);
    assert_eq!(data.token_supply_type, TokenSupplyType::Infinite);
    assert_eq!(data.max_supply, 0);
}
