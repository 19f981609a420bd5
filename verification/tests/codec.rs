use hedera::codec::{dec_decode, dec_encode, hex_decode, hex_encode, str_eq};
use hedera::entity::{parse_entity_text, render_entity};
use hedera::{AccountAddress, AccountId, ContractId, DecodeError, PublicKey};

#[test]
fn decimal_encodes_exact_numerals() {
    assert_eq!(dec_encode(0), "0");
    assert_eq!(dec_encode(7), "7");
    assert_eq!(dec_encode(1001), "1001");
    assert_eq!(dec_encode(u64::MAX), "18446744073709551615");
}

#[test]
fn decimal_decodes_numerals_and_rejects_the_rest() {
    assert_eq!(dec_decode("0"), Some(0));
    assert_eq!(dec_decode("1001"), Some(1001));
    assert_eq!(dec_decode("007"), Some(7));
    assert_eq!(dec_decode("18446744073709551615"), Some(u64::MAX));
    assert_eq!(dec_decode("18446744073709551616"), None);
    assert_eq!(dec_decode(""), None);
    assert_eq!(dec_decode("12a"), None);
    assert_eq!(dec_decode("-3"), None);
}

#[test]
fn hex_round_trips_and_rejects_malformed_text() {
    let bytes = vec![0x30u8, 0x2a, 0x00, 0xff];
    let text = hex_encode(&bytes);
    assert_eq!(text, "302a00ff");
    assert_eq!(hex_decode(&text), Some(bytes));
    assert_eq!(hex_decode("302A00FF"), Some(vec![0x30u8, 0x2a, 0x00, 0xff]));
    assert_eq!(hex_decode(""), Some(Vec::new()));
    assert_eq!(hex_decode("abc"), None);
    assert_eq!(hex_decode("zz"), None);
}

#[test]
fn string_equality_follows_contents() {
    assert!(str_eq("tokenCreate", "tokenCreate"));
    assert!(!str_eq("tokenCreate", "tokenCreates"));
    assert!(!str_eq("tokenCreate", "tokenCreatf"));
}

#[test]
fn entity_text_round_trips() {
    assert_eq!(render_entity(0, 0, 1001), "0.0.1001");
    assert_eq!(parse_entity_text("0.0.1001"), Some((0, 0, 1001)));
    assert_eq!(
        parse_entity_text("18446744073709551615.1.2"),
        Some((u64::MAX, 1, 2))
    );
}

#[test]
fn entity_text_failures_are_reported() {
    assert_eq!(parse_entity_text("abc"), None);
    assert_eq!(parse_entity_text("1.2"), None);
    assert_eq!(parse_entity_text("1.2.3.4"), None);
    assert_eq!(parse_entity_text("1..2"), None);
    assert_eq!(parse_entity_text("18446744073709551616.0.0"), None);
    assert_eq!(
        ContractId::from_text("not an id"),
        Err(DecodeError::InvalidEntityId)
    );
    assert_eq!(
        AccountAddress::from_text("0.0"),
        Err(DecodeError::InvalidEntityId)
    );
    assert_eq!(AccountId::from_text("0.0.8"), Ok(AccountId::from_num(8)));
}

#[test]
fn key_text_round_trips_through_the_fixed_prefix() {
    let hex =
        "302a300506032b6570032100d1ad76ed9b057a3d3f2ea2d03b41bcd79aeafd611f941924f0f6da528ab066fd";
    let key = PublicKey::from_text(hex).unwrap();
    assert_eq!(key.bytes.len(), 32);
    assert_eq!(key.to_text(), hex);
}

#[test]
fn key_text_failures_are_reported() {
    // Odd length.
    assert_eq!(PublicKey::from_text("302"), Err(DecodeError::InvalidKey));
    // Not hexadecimal.
    assert_eq!(PublicKey::from_text("zz"), Err(DecodeError::InvalidKey));
    // Right length, wrong prefix.
    let wrong_prefix =
        "312a300506032b6570032100d1ad76ed9b057a3d3f2ea2d03b41bcd79aeafd611f941924f0f6da528ab066fd";
    assert_eq!(PublicKey::from_text(wrong_prefix), Err(DecodeError::InvalidKey));
    // Too short.
    assert_eq!(
        PublicKey::from_text("302a300506032b6570032100"),
        Err(DecodeError::InvalidKey)
    );
}
