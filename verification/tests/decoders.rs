use launch_decoder::decode::{
    parse_boop_create_token, parse_launchpad_global_config, parse_launchpad_pool_state,
    parse_moonshot_token_mint, parse_pump_fun_create, parse_pump_fun_curve_state,
    parse_raydium_initialize, payload,
};
use launch_decoder::error::DecodeError;
use launch_decoder::records::{
    ConstantCurve, CreateTokenBoopArgs, CurveParams, CurveState, FixedCurve, GlobalConfig,
    InitializeData, LinearCurve, MintParams, VestingParam,
};

const TOKEN_PROGRAM: &str = "TokenkegQfeZyiNwAJbNbGKPFXCWuBvf9Ss623VQ5DA";
const WRAPPED_SOL: &str = "So11111111111111111111111111111111111111112";

fn text(out: &mut Vec<u8>, s: &str) {
    out.extend_from_slice(&(s.len() as u32).to_le_bytes());
    out.extend_from_slice(s.as_bytes());
}

fn key(base58: &str) -> Vec<u8> {
    let bytes = bs58::decode(base58).into_vec().unwrap();
    assert_eq!(bytes.len(), 32);
    bytes
}

fn tagged(body: &[u8]) -> Vec<u8> {
    let mut data = vec![0x11u8, 0x22, 0x33, 0x44, 0x55, 0x66, 0x77, 0x88];
    data.extend_from_slice(body);
    data
}

fn boop_body(salt: u64, name: &str, symbol: &str, uri: &str) -> Vec<u8> {
    let mut body = salt.to_le_bytes().to_vec();
    text(&mut body, name);
    text(&mut body, symbol);
    text(&mut body, uri);
    body
}

fn mint_body(decimals: u8, name: &str, symbol: &str, uri: &str) -> Vec<u8> {
    let mut body = vec![decimals];
    text(&mut body, name);
    text(&mut body, symbol);
    text(&mut body, uri);
    body
}

fn vesting_body() -> Vec<u8> {
    let mut body = Vec::new();
    body.extend_from_slice(&1000u64.to_le_bytes());
    body.extend_from_slice(&2000u64.to_le_bytes());
    body.extend_from_slice(&3000u64.to_le_bytes());
    body
}

fn initialize_body(curve: &[u8]) -> Vec<u8> {
    let mut body = mint_body(6, "Ray", "RAY", "https://example.org/r.json");
    body.extend_from_slice(curve);
    body.extend_from_slice(&vesting_body());
    body
}

fn constant_curve() -> Vec<u8> {
    let mut curve = vec![0u8];
    curve.extend_from_slice(&11u64.to_le_bytes());
    curve.extend_from_slice(&12u64.to_le_bytes());
    curve.extend_from_slice(&13u64.to_le_bytes());
    curve.push(1);
    curve
}

fn short_curve(tag: u8) -> Vec<u8> {
    let mut curve = vec![tag];
    curve.extend_from_slice(&21u64.to_le_bytes());
    curve.extend_from_slice(&22u64.to_le_bytes());
    curve.push(2);
    curve
}

fn pool_state_body() -> Vec<u8> {
    let mut body = Vec::new();
    body.extend_from_slice(&5u64.to_le_bytes());
    body.extend_from_slice(&[1, 6, 9, 2]);
    for v in [100u64, 200, 300, 400, 500, 600, u64::MAX] {
        body.extend_from_slice(&v.to_le_bytes());
    }
    body.extend_from_slice(&[0xEE; 64]);
    body.extend_from_slice(&key(TOKEN_PROGRAM));
    body.extend_from_slice(&[0xDD; 64]);
    body.extend_from_slice(&key(WRAPPED_SOL));
    body
}

#[test]
fn payload_strips_eight_bytes() {
    assert_eq!(payload(&[1, 2, 3, 4, 5, 6, 7, 8, 9, 10]), Ok(&[9u8, 10][..]));
    assert_eq!(payload(&[1, 2, 3, 4, 5, 6, 7, 8]), Ok(&[][..]));
    assert_eq!(payload(&[1, 2, 3, 4, 5, 6, 7]), Err(DecodeError::BufferTooShort));
    assert_eq!(payload(&[]), Err(DecodeError::BufferTooShort));
}

#[test]
fn boop_gives_name_and_symbol() {
    let data = tagged(&boop_body(42, "Boop", "BP", "https://example.org/b.json"));
    let token = parse_boop_create_token(&data).unwrap();
    assert_eq!(token.name, "Boop");
    assert_eq!(token.symbol, "BP");
}

#[test]
fn boop_arguments_decode_in_full() {
    let body = boop_body(0x0102_0304_0506_0708, "Boop", "BP", "u");
    let args = CreateTokenBoopArgs::try_from_slice(&body).unwrap();
    assert_eq!(
        args,
        CreateTokenBoopArgs {
            salt: 0x0102_0304_0506_0708,
            name: "Boop".to_string(),
            symbol: "BP".to_string(),
            uri: "u".to_string(),
        }
    );
}

#[test]
fn boop_refuses_bytes_left_over() {
    let mut data = tagged(&boop_body(42, "Boop", "BP", "u"));
    data.push(0);
    assert_eq!(parse_boop_create_token(&data), Err(DecodeError::SchemaMismatch));
}

#[test]
fn raydium_gives_name_and_symbol_of_the_base_mint() {
    let data = tagged(&initialize_body(&constant_curve()));
    let token = parse_raydium_initialize(&data).unwrap();
    assert_eq!(token.name, "Ray");
    assert_eq!(token.symbol, "RAY");
}

#[test]
fn raydium_refuses_bytes_left_over() {
    let mut data = tagged(&initialize_body(&short_curve(1)));
    data.extend_from_slice(&[1, 2, 3]);
    assert_eq!(parse_raydium_initialize(&data), Err(DecodeError::SchemaMismatch));
}

#[test]
fn each_tag_selects_its_curve() {
    let mint = MintParams {
        decimals: 6,
        name: "Ray".to_string(),
        symbol: "RAY".to_string(),
        uri: "https://example.org/r.json".to_string(),
    };
    let vesting =
        VestingParam { total_locked_amount: 1000, cliff_period: 2000, unlock_period: 3000 };

    let init = InitializeData::try_from_slice(&initialize_body(&constant_curve())).unwrap();
    assert_eq!(
        init,
        InitializeData {
            base_mint_param: mint.clone(),
            curve_param: CurveParams::Constant {
                data: ConstantCurve {
                    supply: 11,
                    total_base_sell: 12,
                    total_quote_fund_raising: 13,
                    migrate_type: 1,
                },
            },
            vesting_param: vesting,
        }
    );

    let init = InitializeData::try_from_slice(&initialize_body(&short_curve(1))).unwrap();
    assert_eq!(
        init.curve_param,
        CurveParams::Fixed {
            data: FixedCurve { supply: 21, total_quote_fund_raising: 22, migrate_type: 2 },
        }
    );
    assert_eq!(init.vesting_param, vesting);

    let init = InitializeData::try_from_slice(&initialize_body(&short_curve(2))).unwrap();
    assert_eq!(
        init.curve_param,
        CurveParams::Linear {
            data: LinearCurve { supply: 21, total_quote_fund_raising: 22, migrate_type: 2 },
        }
    );
    assert_eq!(init.base_mint_param, mint);
}

#[test]
fn unknown_tag_is_refused() {
    for tag in [3u8, 4, 100, 255] {
        let data = tagged(&initialize_body(&short_curve(tag)));
        assert_eq!(parse_raydium_initialize(&data), Err(DecodeError::UnknownVariant));
    }
    // The tag is refused before the curve's bytes are asked for.
    let mut body = mint_body(6, "Ray", "RAY", "u");
    body.push(9);
    assert_eq!(parse_raydium_initialize(&tagged(&body)), Err(DecodeError::UnknownVariant));
}

#[test]
fn constant_curve_is_longer_than_the_others() {
    // A constant-product curve read as a fixed-price one leaves bytes over.
    let mut curve = constant_curve();
    curve[0] = 1;
    let data = tagged(&initialize_body(&curve));
    assert_eq!(parse_raydium_initialize(&data), Err(DecodeError::SchemaMismatch));
    // A fixed-price curve read as a constant-product one runs out of bytes.
    let data = tagged(&initialize_body(&short_curve(0)));
    assert_eq!(parse_raydium_initialize(&data), Err(DecodeError::BufferTooShort));
}

#[test]
fn moonshot_reads_name_and_symbol_only() {
    let mut body = Vec::new();
    text(&mut body, "Moon");
    text(&mut body, "MOON");
    body.extend_from_slice(&[0xFF, 0xFF, 0xFF]);
    let token = parse_moonshot_token_mint(&tagged(&body)).unwrap();
    assert_eq!(token.name, "Moon");
    assert_eq!(token.symbol, "MOON");
}

#[test]
fn moonshot_reports_why_a_text_fails() {
    let mut body = Vec::new();
    text(&mut body, "Moon");
    body.extend_from_slice(&[2, 0, 0, 0, 0xC3, 0x28]);
    assert_eq!(parse_moonshot_token_mint(&tagged(&body)), Err(DecodeError::InvalidUtf8));
    let mut body = Vec::new();
    text(&mut body, "Moon");
    body.extend_from_slice(&[3, 0, 0, 0, b'a', b'b']);
    assert_eq!(parse_moonshot_token_mint(&tagged(&body)), Err(DecodeError::BufferTooShort));
}

#[test]
fn text_may_hold_any_utf8() {
    let mut body = Vec::new();
    text(&mut body, "héllo ✓ 🚀");
    text(&mut body, "");
    let token = parse_moonshot_token_mint(&tagged(&body)).unwrap();
    assert_eq!(token.name, "héllo ✓ 🚀");
    assert_eq!(token.symbol, "");
}

#[test]
fn length_past_the_end_is_reported_before_the_bytes_are_read() {
    let body = [0xFFu8, 0xFF, 0xFF, 0xFF, 0xC3, 0x28];
    assert_eq!(parse_moonshot_token_mint(&tagged(&body)), Err(DecodeError::BufferTooShort));
}

#[test]
fn create_writes_keys_in_base58() {
    let mut body = Vec::new();
    text(&mut body, "Pump");
    text(&mut body, "PMP");
    text(&mut body, "https://example.org/p.json");
    body.extend_from_slice(&key(TOKEN_PROGRAM));
    body.extend_from_slice(&key(WRAPPED_SOL));
    body.extend_from_slice(&[0u8; 32]);
    let meta = parse_pump_fun_create(&tagged(&body)).unwrap();
    assert_eq!(meta.name, "Pump");
    assert_eq!(meta.symbol, "PMP");
    assert_eq!(meta.uri, "https://example.org/p.json");
    assert_eq!(meta.mint, TOKEN_PROGRAM);
    assert_eq!(meta.bonding_curve, WRAPPED_SOL);
    assert_eq!(meta.developer, "11111111111111111111111111111111");
}

#[test]
fn key_with_leading_zero_bytes_keeps_them() {
    let mut raw = [0u8; 32];
    raw[31] = 1;
    let mut body = Vec::new();
    text(&mut body, "a");
    text(&mut body, "b");
    text(&mut body, "c");
    body.extend_from_slice(&raw);
    body.extend_from_slice(&[0xFF; 32]);
    body.extend_from_slice(&raw);
    let meta = parse_pump_fun_create(&tagged(&body)).unwrap();
    assert_eq!(meta.mint, "11111111111111111111111111111112");
    assert_eq!(meta.bonding_curve, "JEKNVnkbo3jma5nREBBJCDoXFVeKkD56V3xKrvRmWxFG");
    assert_eq!(bs58::decode(&meta.bonding_curve).into_vec().unwrap(), vec![0xFF; 32]);
}

#[test]
fn curve_state_reads_five_numbers_and_a_flag() {
    let mut body = Vec::new();
    for v in [1u64, 0x0102_0304_0506_0708, u64::MAX, 0, 1_000_000_000_000_000] {
        body.extend_from_slice(&v.to_le_bytes());
    }
    body.push(1);
    let state = parse_pump_fun_curve_state(&tagged(&body)).unwrap();
    assert_eq!(
        state,
        CurveState {
            virtual_token_reserves: 1,
            virtual_sol_reserves: 0x0102_0304_0506_0708,
            real_token_reserves: u64::MAX,
            real_sol_reserves: 0,
            token_total_supply: 1_000_000_000_000_000,
            complete: true,
        }
    );
}

#[test]
fn curve_state_flag_is_set_unless_zero() {
    let mut body = vec![0u8; 40];
    body.push(0);
    assert!(!parse_pump_fun_curve_state(&tagged(&body)).unwrap().complete);
    for byte in [1u8, 2, 0x80, 0xFF] {
        body[40] = byte;
        assert!(parse_pump_fun_curve_state(&tagged(&body)).unwrap().complete);
    }
}

#[test]
fn curve_state_without_flag_is_too_short() {
    let body = vec![0u8; 40];
    assert_eq!(parse_pump_fun_curve_state(&tagged(&body)), Err(DecodeError::BufferTooShort));
}

#[test]
fn little_endian_bytes_are_read_in_order() {
    let mut body = vec![0x08u8, 0x07, 0x06, 0x05, 0x04, 0x03, 0x02, 0x01];
    body.extend_from_slice(&[0u8; 33]);
    let state = parse_pump_fun_curve_state(&tagged(&body)).unwrap();
    assert_eq!(state.virtual_token_reserves, 0x0102_0304_0506_0708);
    assert_eq!(state.virtual_token_reserves, 72_623_859_790_382_856);
}

#[test]
fn pool_state_reads_every_field_at_its_place() {
    let state = parse_launchpad_pool_state(&tagged(&pool_state_body())).unwrap();
    assert_eq!(state.epoch, 5);
    assert_eq!(state.status, 1);
    assert_eq!(state.base_decimals, 6);
    assert_eq!(state.quote_decimals, 9);
    assert_eq!(state.migrate_type, 2);
    assert_eq!(state.supply, 100);
    assert_eq!(state.total_base_sell, 200);
    assert_eq!(state.virtual_base, 300);
    assert_eq!(state.virtual_quote, 400);
    assert_eq!(state.real_base, 500);
    assert_eq!(state.real_quote, 600);
    assert_eq!(state.total_quote_fund_raising, u64::MAX);
    assert_eq!(state.global_config, TOKEN_PROGRAM);
    assert_eq!(state.quote_mint, WRAPPED_SOL);
}

#[test]
fn pool_state_needs_all_its_bytes() {
    let body = pool_state_body();
    assert_eq!(body.len(), 260);
    let data = tagged(&body);
    for n in 0..data.len() {
        assert_eq!(parse_launchpad_pool_state(&data[..n]), Err(DecodeError::BufferTooShort));
    }
    let mut longer = data.clone();
    longer.extend_from_slice(&[1, 2, 3]);
    assert_eq!(parse_launchpad_pool_state(&longer), parse_launchpad_pool_state(&data));
}

#[test]
fn global_config_reads_the_curve_type() {
    let mut body = 77u64.to_le_bytes().to_vec();
    body.push(2);
    body.extend_from_slice(&[9, 9, 9]);
    assert_eq!(parse_launchpad_global_config(&tagged(&body)), Ok(GlobalConfig { curve_type: 2 }));
}

#[test]
fn global_config_without_curve_type_is_too_short() {
    let body = 77u64.to_le_bytes().to_vec();
    assert_eq!(parse_launchpad_global_config(&tagged(&body)), Err(DecodeError::BufferTooShort));
    assert_eq!(parse_launchpad_global_config(&tagged(&[])), Err(DecodeError::BufferTooShort));
}

#[test]
fn error_messages() {
    assert_eq!(DecodeError::BufferTooShort.message(), "data too short");
    assert_eq!(DecodeError::InvalidUtf8.message(), "invalid UTF-8");
    assert_eq!(DecodeError::UnknownVariant.message(), "unknown variant");
    assert_eq!(DecodeError::MissingAccount.message(), "missing account");
    assert_eq!(DecodeError::SchemaMismatch.message(), "schema mismatch");
}
