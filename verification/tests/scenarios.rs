use launch_decoder::decode::{parse_meteora_initialize, parse_pump_fun_create};
use launch_decoder::error::DecodeError;

const ZERO_KEY: &str = "11111111111111111111111111111111";

fn text(out: &mut Vec<u8>, s: &str) {
    out.extend_from_slice(&(s.len() as u32).to_le_bytes());
    out.extend_from_slice(s.as_bytes());
}

fn three_texts(name: &str, symbol: &str, uri: &str) -> Vec<u8> {
    let mut out = Vec::new();
    text(&mut out, name);
    text(&mut out, symbol);
    text(&mut out, uri);
    out
}

fn accounts(n: usize) -> Vec<Option<String>> {
    (0..n).map(|i| Some(format!("account-{}", i))).collect()
}

#[test]
fn create_with_zero_keys() {
    let mut data = vec![0xAAu8; 8];
    data.extend_from_slice(&[4, 0, 0, 0]);
    data.extend_from_slice(b"test");
    data.extend_from_slice(&[1, 0, 0, 0]);
    data.extend_from_slice(b"X");
    text(&mut data, "https://example.org/t.json");
    data.extend_from_slice(&[0u8; 96]);
    let meta = parse_pump_fun_create(&data).unwrap();
    assert_eq!(meta.name, "test");
    assert_eq!(meta.symbol, "X");
    assert_eq!(meta.uri, "https://example.org/t.json");
    assert_eq!(meta.mint, ZERO_KEY);
    assert_eq!(meta.bonding_curve, ZERO_KEY);
    assert_eq!(meta.developer, ZERO_KEY);
}

#[test]
fn zero_key_is_thirty_two_ones() {
    let mut data = vec![0u8; 8];
    data.extend_from_slice(&three_texts("", "", ""));
    data.extend_from_slice(&[0u8; 96]);
    let meta = parse_pump_fun_create(&data).unwrap();
    assert_eq!(meta.mint.len(), 32);
    assert!(meta.mint.bytes().all(|b| b == b'1'));
    assert_eq!(meta.mint, bs58::encode([0u8; 32]).into_string());
}

#[test]
fn bare_payload_merges_with_accounts() {
    let data = three_texts("Meteor", "MTR", "https://example.org/m.json");
    let list = accounts(6);
    let out = parse_meteora_initialize(&data, &list).unwrap();
    assert_eq!(out.name, "Meteor");
    assert_eq!(out.symbol, "MTR");
    assert_eq!(out.uri, "https://example.org/m.json");
    assert_eq!(out.developer, "account-2");
    assert_eq!(out.mint, "account-3");
    assert_eq!(out.bonding_curve, "account-5");
}

#[test]
fn bare_payload_with_four_accounts_misses_the_pool() {
    let data = three_texts("Meteor", "MTR", "https://example.org/m.json");
    let list = accounts(4);
    assert_eq!(parse_meteora_initialize(&data, &list), Err(DecodeError::MissingAccount));
}

#[test]
fn payload_with_discriminator_merges_with_accounts() {
    let mut data = vec![7u8; 8];
    data.extend_from_slice(&three_texts("Meteor", "MTR", "uri"));
    let list = accounts(8);
    let out = parse_meteora_initialize(&data, &list).unwrap();
    assert_eq!(out.name, "Meteor");
    assert_eq!(out.symbol, "MTR");
    assert_eq!(out.uri, "uri");
    assert_eq!(out.developer, "account-2");
    assert_eq!(out.mint, "account-3");
    assert_eq!(out.bonding_curve, "account-5");
}

#[test]
fn account_that_is_no_text_is_missing() {
    let data = three_texts("Meteor", "MTR", "uri");
    for gap in [2usize, 3, 5] {
        let mut list = accounts(6);
        list[gap] = None;
        assert_eq!(parse_meteora_initialize(&data, &list), Err(DecodeError::MissingAccount));
    }
    let mut list = accounts(6);
    list[0] = None;
    list[1] = None;
    list[4] = None;
    assert!(parse_meteora_initialize(&data, &list).is_ok());
}

#[test]
fn payload_failure_comes_before_missing_account() {
    let data = vec![9u8, 0, 0, 0, b'a'];
    assert_eq!(parse_meteora_initialize(&data, &[]), Err(DecodeError::BufferTooShort));
    let data = vec![1u8, 0, 0, 0, 0xFF];
    assert_eq!(parse_meteora_initialize(&data, &[]), Err(DecodeError::InvalidUtf8));
}

#[test]
fn fallback_reports_the_second_failure() {
    // Behind the first eight bytes the name is not UTF-8; from the start the
    // name's length reaches past the end.
    let mut data = vec![200u8, 0, 0, 0, 0, 0, 0, 0];
    data.extend_from_slice(&[1, 0, 0, 0, 0xFF]);
    assert_eq!(parse_meteora_initialize(&data, &accounts(6)), Err(DecodeError::BufferTooShort));
}

#[test]
fn payload_cut_short_may_read_from_its_start() {
    // With a discriminator of zero bytes, the payload cut by its last byte
    // no longer reads behind the discriminator, and reads from its start as
    // two empty texts and the name.
    let mut data = vec![0u8; 8];
    data.extend_from_slice(&three_texts("ab", "", ""));
    let list = accounts(6);
    assert_eq!(parse_meteora_initialize(&data, &list).unwrap().name, "ab");
    let cut = &data[..data.len() - 1];
    let out = parse_meteora_initialize(cut, &list).unwrap();
    assert_eq!(out.name, "");
    assert_eq!(out.symbol, "");
    assert_eq!(out.uri, "ab");
}
