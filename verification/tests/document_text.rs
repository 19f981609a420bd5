use hedera::contract_execute::ContractExecuteDocument;
use hedera::document_text::json_quoted_text;
use hedera::schedule_info::ScheduleInfoDocument;
use hedera::token_create::TokenCreateDocument;
use hedera::{Key, PublicKey, ScheduleId, ThresholdKey, TokenCreateTransaction};

const KEY_A: &str =
    "302a300506032b6570032100d1ad76ed9b057a3d3f2ea2d03b41bcd79aeafd611f941924f0f6da528ab066fd";
const KEY_B: &str =
    "302a300506032b6570032100b5b4d9351ebdf266ef3989aed4fd8f0cfcf24b75ba3d0df19cd3946771b40500";

fn empty_token_document() -> TokenCreateDocument {
    TokenCreateDocument {
        name: None,
        symbol: None,
        decimals: None,
        initial_supply: None,
        treasury_account_id: None,
        admin_key: None,
        kyc_key: None,
        freeze_key: None,
        wipe_key: None,
        supply_key: None,
        freeze_default: None,
        expires_at: None,
        auto_renew_account_id: None,
        auto_renew_period: None,
        token_memo: None,
        token_type: None,
        token_supply_type: None,
        max_supply: None,
        fee_schedule_key: None,
        custom_fees: None,
        pause_key: None,
    }
}

#[test]
fn strings_are_quoted_and_escaped() {
    assert_eq!(json_quoted_text("plain"), "\"plain\"");
    assert_eq!(json_quoted_text(""), "\"\"");
    assert_eq!(json_quoted_text("a\"b\\c\nd\te"), "\"a\\\"b\\\\c\\nd\\te\"");
    assert_eq!(json_quoted_text("\u{1}"), "\"\\u0001\"");
    assert_eq!(json_quoted_text("\u{1f}x"), "\"\\u001fx\"");
}

#[test]
fn documents_with_no_entries_render_as_the_bare_discriminant() {
    let doc = ScheduleInfoDocument { schedule_id: None };
    assert_eq!(doc.to_json(), "{\n  \"$type\": \"scheduleInfo\"\n}");
    assert_eq!(empty_token_document().to_json(), "{\n  \"$type\": \"tokenCreate\"\n}");
}

#[test]
fn schedule_documents_render_their_reference() {
    let doc = ScheduleInfoDocument { schedule_id: Some(ScheduleId::from_num(9)) };
    assert_eq!(
        doc.to_json(),
        "{\n  \"$type\": \"scheduleInfo\",\n  \"scheduleId\": \"0.0.9\"\n}"
    );
}

#[test]
fn empty_byte_arrays_render_as_empty_brackets() {
    let doc = ContractExecuteDocument {
        contract_id: None,
        gas: None,
        payable_amount: Some(-7),
        function_parameters: Some(Vec::new()),
    };
    assert_eq!(
        doc.to_json(),
        "{\n  \"$type\": \"contractExecute\",\n  \"payableAmount\": -7,\n  \"functionParameters\": []\n}"
    );
}

#[test]
fn threshold_keys_render_and_round_trip() {
    let threshold = Key::Threshold(ThresholdKey {
        threshold: 2,
        keys: vec![
            PublicKey::from_text(KEY_A).unwrap(),
            PublicKey::from_text(KEY_B).unwrap(),
        ],
    });

    let mut transaction = TokenCreateTransaction::new();
    transaction.admin_key(threshold.clone());
    let data = transaction.body.data.clone();
    let doc = data.to_document();
    assert_eq!(doc.admin_key, Some(threshold));

    let expected = format!(
        "{{\n  \"$type\": \"tokenCreate\",\n  \"adminKey\": {{\n    \"threshold\": {{\n      \"threshold\": 2,\n      \"keys\": [\n        \"{KEY_A}\",\n        \"{KEY_B}\"\n      ]\n    }}\n  }},\n  \"autoRenewPeriod\": 7776000,\n  \"tokenMemo\": \"\",\n  \"maxSupply\": 0\n}}"
    );
    let mut stripped = empty_token_document();
    stripped.admin_key = doc.admin_key.clone();
    stripped.auto_renew_period = doc.auto_renew_period;
    stripped.token_memo = Some(String::new());
    stripped.max_supply = Some(0);
    assert_eq!(stripped.to_json(), expected);

    let decoded = hedera::TokenCreateTransactionData::from_document(doc);
    assert_eq!(decoded, data);
}
