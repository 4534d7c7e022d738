use launch_decoder::decode::{
    decode_pool_parameters, parse_boop_create_token, parse_launchpad_global_config,
    parse_launchpad_pool_state, parse_meteora_initialize, parse_moonshot_token_mint,
    parse_pump_fun_create, parse_pump_fun_curve_state, parse_raydium_initialize,
};
use launch_decoder::error::DecodeError;
use launch_decoder::records::{CreateTokenBoopArgs, InitializeData, CurveParams};

fn written<T: borsh::BorshSerialize>(value: &T) -> Vec<u8> {
    borsh::to_vec(value).unwrap()
}

fn tagged(body: &[u8]) -> Vec<u8> {
    let mut data = vec![0xA5u8; 8];
    data.extend_from_slice(body);
    data
}

fn texts(name: &str, symbol: &str, uri: &str) -> Vec<u8> {
    let mut out = written(&name.to_string());
    out.extend_from_slice(&written(&symbol.to_string()));
    out.extend_from_slice(&written(&uri.to_string()));
    out
}

fn boop_payload() -> Vec<u8> {
    let mut body = written(&0xDEAD_BEEF_0BAD_F00Du64);
    body.extend_from_slice(&texts("Boop", "BP", "https://example.org/b.json"));
    tagged(&body)
}

fn raydium_payload(tag: u8) -> Vec<u8> {
    let mut body = written(&9u8);
    body.extend_from_slice(&texts("Ray", "RAY", "https://example.org/r.json"));
    body.extend_from_slice(&written(&tag));
    body.extend_from_slice(&written(&1u64));
    if tag == 0 {
        body.extend_from_slice(&written(&2u64));
    }
    body.extend_from_slice(&written(&3u64));
    body.extend_from_slice(&written(&1u8));
    for v in [10u64, 20, 30] {
        body.extend_from_slice(&written(&v));
    }
    tagged(&body)
}

fn create_payload() -> Vec<u8> {
    let mut body = texts("Pump", "PMP", "https://example.org/p.json");
    for fill in [1u8, 2, 3] {
        body.extend_from_slice(&written(&[fill; 32]));
    }
    tagged(&body)
}

fn curve_state_payload() -> Vec<u8> {
    let mut body = Vec::new();
    for v in [1u64, 2, 3, 4, u64::MAX] {
        body.extend_from_slice(&written(&v));
    }
    body.extend_from_slice(&written(&true));
    tagged(&body)
}

fn pool_state_payload() -> Vec<u8> {
    let mut body = written(&1u64);
    body.extend_from_slice(&[1, 2, 3, 4]);
    for v in 0..7u64 {
        body.extend_from_slice(&written(&(v << 40)));
    }
    body.extend_from_slice(&[0u8; 64]);
    body.extend_from_slice(&[5u8; 32]);
    body.extend_from_slice(&[0u8; 64]);
    body.extend_from_slice(&[6u8; 32]);
    tagged(&body)
}

#[test]
fn short_payloads_are_too_short() {
    for n in 0..8usize {
        let data = vec![0u8; n];
        assert_eq!(parse_boop_create_token(&data), Err(DecodeError::BufferTooShort));
        assert_eq!(parse_raydium_initialize(&data), Err(DecodeError::BufferTooShort));
        assert_eq!(parse_moonshot_token_mint(&data), Err(DecodeError::BufferTooShort));
        assert_eq!(parse_pump_fun_create(&data), Err(DecodeError::BufferTooShort));
        assert_eq!(parse_pump_fun_curve_state(&data), Err(DecodeError::BufferTooShort));
        assert_eq!(parse_launchpad_pool_state(&data), Err(DecodeError::BufferTooShort));
        assert_eq!(parse_launchpad_global_config(&data), Err(DecodeError::BufferTooShort));
        assert_eq!(parse_meteora_initialize(&data, &[]), Err(DecodeError::BufferTooShort));
    }
}

#[test]
fn short_bare_payload_may_hold_a_bad_name() {
    let data = [1u8, 0, 0, 0, 0xFF];
    assert_eq!(decode_pool_parameters(&data), Err(DecodeError::InvalidUtf8));
}

#[test]
fn every_proper_prefix_of_a_strict_payload_fails() {
    for data in [boop_payload(), raydium_payload(0), raydium_payload(1), raydium_payload(2)] {
        for n in 0..data.len() {
            assert_eq!(parse_boop_create_token(&data[..n]).err(), Some(DecodeError::BufferTooShort));
            assert_eq!(
                parse_raydium_initialize(&data[..n]).err().map(|e| e == DecodeError::SchemaMismatch),
                Some(false)
            );
        }
    }
    let data = raydium_payload(2);
    for n in 0..data.len() {
        assert_eq!(parse_raydium_initialize(&data[..n]), Err(DecodeError::BufferTooShort));
    }
    assert!(parse_raydium_initialize(&data).is_ok());
}

#[test]
fn every_prefix_that_cuts_the_record_fails() {
    let data = create_payload();
    let whole = parse_pump_fun_create(&data).unwrap();
    for n in 0..data.len() {
        assert_eq!(parse_pump_fun_create(&data[..n]), Err(DecodeError::BufferTooShort));
    }
    let mut longer = data.clone();
    longer.extend_from_slice(b"tail");
    assert_eq!(parse_pump_fun_create(&longer), Ok(whole));

    let data = curve_state_payload();
    for n in 0..data.len() {
        assert_eq!(parse_pump_fun_curve_state(&data[..n]), Err(DecodeError::BufferTooShort));
    }
    assert!(parse_pump_fun_curve_state(&data).is_ok());

    let data = pool_state_payload();
    for n in 0..data.len() {
        assert_eq!(parse_launchpad_pool_state(&data[..n]), Err(DecodeError::BufferTooShort));
    }
    assert!(parse_launchpad_pool_state(&data).is_ok());
}

#[test]
fn truncation_at_each_field_boundary_fails() {
    let data = create_payload();
    let name_end = 8 + 4 + 4;
    let symbol_end = name_end + 4 + 3;
    let uri_end = symbol_end + 4 + "https://example.org/p.json".len();
    for boundary in [8, name_end, symbol_end, uri_end, uri_end + 32, uri_end + 64, uri_end + 96] {
        assert!(parse_pump_fun_create(&data[..boundary - 1]).is_err());
    }
    assert_eq!(data.len(), uri_end + 96);
}

#[test]
fn decoded_records_write_back_to_their_payload() {
    let data = boop_payload();
    let args = CreateTokenBoopArgs::try_from_slice(&data[8..]).unwrap();
    let mut again = written(&args.salt);
    again.extend_from_slice(&written(&args.name));
    again.extend_from_slice(&written(&args.symbol));
    again.extend_from_slice(&written(&args.uri));
    assert_eq!(again, &data[8..]);

    let data = curve_state_payload();
    let state = parse_pump_fun_curve_state(&data).unwrap();
    let mut again = Vec::new();
    for v in [
        state.virtual_token_reserves,
        state.virtual_sol_reserves,
        state.real_token_reserves,
        state.real_sol_reserves,
        state.token_total_supply,
    ] {
        again.extend_from_slice(&written(&v));
    }
    again.extend_from_slice(&written(&state.complete));
    assert_eq!(again, &data[8..]);

    let data = create_payload();
    let meta = parse_pump_fun_create(&data).unwrap();
    let mut again = texts(&meta.name, &meta.symbol, &meta.uri);
    for address in [&meta.mint, &meta.bonding_curve, &meta.developer] {
        again.extend_from_slice(&bs58::decode(address).into_vec().unwrap());
    }
    assert_eq!(again, &data[8..]);
}

#[test]
fn initialize_data_writes_back_to_its_payload() {
    for tag in [0u8, 1, 2] {
        let data = raydium_payload(tag);
        let init = InitializeData::try_from_slice(&data[8..]).unwrap();
        let mut again = written(&init.base_mint_param.decimals);
        again.extend_from_slice(&texts(
            &init.base_mint_param.name,
            &init.base_mint_param.symbol,
            &init.base_mint_param.uri,
        ));
        match init.curve_param {
            CurveParams::Constant { data } => {
                again.push(0);
                again.extend_from_slice(&written(&data.supply));
                again.extend_from_slice(&written(&data.total_base_sell));
                again.extend_from_slice(&written(&data.total_quote_fund_raising));
                again.push(data.migrate_type);
            }
            CurveParams::Fixed { data } => {
                again.push(1);
                again.extend_from_slice(&written(&data.supply));
                again.extend_from_slice(&written(&data.total_quote_fund_raising));
                again.push(data.migrate_type);
            }
            CurveParams::Linear { data } => {
                again.push(2);
                again.extend_from_slice(&written(&data.supply));
                again.extend_from_slice(&written(&data.total_quote_fund_raising));
                again.push(data.migrate_type);
            }
        }
        again.extend_from_slice(&written(&init.vesting_param.total_locked_amount));
        again.extend_from_slice(&written(&init.vesting_param.cliff_period));
        again.extend_from_slice(&written(&init.vesting_param.unlock_period));
        assert_eq!(again, &data[8..]);
    }
}

#[test]
fn decoding_agrees_with_the_writer_on_numbers() {
    for v in [0u64, 1, 255, 256, 0xFFFF_FFFF, 0x1_0000_0000, u64::MAX - 1, u64::MAX] {
        let mut body = Vec::new();
        for _ in 0..5 {
            body.extend_from_slice(&written(&v));
        }
        body.push(0);
        let state = parse_pump_fun_curve_state(&tagged(&body)).unwrap();
        assert_eq!(state.virtual_token_reserves, v);
        assert_eq!(state.token_total_supply, v);
        assert_eq!(borsh::from_slice::<u64>(&body[..8]).unwrap(), state.real_sol_reserves);
    }
}
