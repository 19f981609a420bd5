use hedera::{
    AnyTransaction, AnyTransactionData, AnyTransactionDocument, ContractExecuteTransaction,
    ContractId, Hbar,
};
use hedera::contract_execute::ContractExecuteDocument;

const CONTRACT_EXECUTE_TRANSACTION_JSON: &str = r#"{
  "$type": "contractExecute",
  "contractId": "0.0.1001",
  "gas": 1000,
  "payableAmount": 10,
  "functionParameters": [
    72,
    101,
    108,
    108,
    111,
    44,
    32,
    119,
    111,
    114,
    108,
    100,
    33
  ]
}"#;

fn built_transaction() -> ContractExecuteTransaction {
    let mut transaction = ContractExecuteTransaction::new();
    transaction.contract_id(ContractId::from_num(1001));
    transaction.gas(1000);
    transaction.payable_amount(Hbar::from_tinybars(10));
    transaction.function_parameters(b"Hello, world!".to_vec());
    transaction
}

#[test]
fn contract_execute_transaction_it_should_serialize() {
    let transaction = built_transaction();
    let data = AnyTransactionData::from(transaction.body.data);
    assert_eq!(data.discriminant(), "contractExecute");
    let doc = data.to_document();
    let inner = match doc {
        AnyTransactionDocument::ContractExecute(d) => d,
        _ => panic!("wrong discriminant"),
    };
    let transaction_json = inner.to_json();
    assert_eq!(transaction_json, CONTRACT_EXECUTE_TRANSACTION_JSON);
    assert_eq!(inner.contract_id, Some(ContractId::new(0, 0, 1001)));
    assert_eq!(inner.gas, Some(1000));
    assert_eq!(inner.payable_amount, Some(10));
    let bytes: Vec<u8> = b"Hello, world!".to_vec();
    assert_eq!(bytes.len(), 13);
    assert_eq!(inner.function_parameters, Some(bytes));
}

#[test]
fn contract_execute_transaction_it_should_deserialize() {
    let doc = AnyTransactionDocument::ContractExecute(ContractExecuteDocument {
        contract_id: Some(ContractId::new(0, 0, 1001)),
        gas: Some(1000),
        payable_amount: Some(10),
        function_parameters: Some(b"Hello, world!".to_vec()),
    });

    let transaction: AnyTransaction = AnyTransaction::from_document(doc);

    let data = match transaction.body.data {
        AnyTransactionData::ContractExecute(transaction) => transaction,
        _ => panic!("wrong variant"),
    };

    assert_eq!(data.contract_id.unwrap(), ContractId::from_num(1001));
    assert_eq!(data.gas, 1000);
    assert_eq!(data.payable_amount.to_tinybars(), 10);

    let bytes: Vec<u8> = b"Hello, world!".to_vec();
    assert_eq!(data.function_parameters, bytes);
}

#[test]
fn contract_execute_round_trip_preserves_every_field() {
    let transaction = built_transaction();
    let original = transaction.body.data.clone();
    let decoded = hedera::ContractExecuteTransactionData::from_document(original.to_document());
    assert_eq!(decoded, original);
}

#[test]
fn contract_execute_empty_document_decodes_to_defaults() {
    let doc = ContractExecuteDocument {
        contract_id: None,
        gas: None,
        payable_amount: None,
        function_parameters: None,
    };
    let data = hedera::ContractExecuteTransactionData::from_document(doc);
    assert_eq!(data.contract_id, None);
    assert_eq!(data.gas, 0);
    assert_eq!(data.payable_amount.to_tinybars(), 0);
    assert_eq!(data.function_parameters, Vec::<u8>::new());
}
