use launch_decoder::boundary::{BoundaryField, BoundaryValue};
use launch_decoder::cursor::Cursor;
use launch_decoder::decode::account;
use launch_decoder::error::DecodeError;
use launch_decoder::records::{
    ConstantCurve, CurveParams, CurveState, GlobalConfig, InitializePoolParameters, MintParams,
    PoolState, VestingParam,
};

#[test]
fn new_cursor_stands_at_the_start() {
    let buf = [1u8, 2, 3];
    let cur = Cursor::new(&buf);
    assert_eq!(cur.offset(), 0);
    assert_eq!(cur.remaining(), 3);
}

#[test]
fn read_le_returns_the_next_bytes() {
    let buf = [1u8, 2, 3, 4, 5];
    let mut cur = Cursor::new(&buf);
    assert_eq!(cur.read_le(2), Ok(&[1u8, 2][..]));
    assert_eq!(cur.offset(), 2);
    assert_eq!(cur.read_le(0), Ok(&[][..]));
    assert_eq!(cur.read_le(3), Ok(&[3u8, 4, 5][..]));
    assert_eq!(cur.remaining(), 0);
    assert_eq!(cur.read_le(0), Ok(&[][..]));
}

#[test]
fn failed_read_leaves_the_cursor_where_it_was() {
    let buf = [1u8, 2, 3, 4, 5];
    let mut cur = Cursor::new(&buf);
    cur.read_u8().unwrap();
    assert_eq!(cur.read_le(5), Err(DecodeError::BufferTooShort));
    assert_eq!(cur.offset(), 1);
    assert_eq!(cur.read_u64(), Err(DecodeError::BufferTooShort));
    assert_eq!(cur.offset(), 1);
    assert_eq!(cur.read_pubkey(), Err(DecodeError::BufferTooShort));
    assert_eq!(cur.offset(), 1);
    assert_eq!(cur.skip(usize::MAX), Err(DecodeError::BufferTooShort));
    assert_eq!(cur.offset(), 1);
    assert_eq!(cur.read_u32(), Ok(0x0504_0302));
    assert_eq!(cur.offset(), 5);
    assert_eq!(cur.read_u8(), Err(DecodeError::BufferTooShort));
    assert_eq!(cur.read_bool(), Err(DecodeError::BufferTooShort));
    assert_eq!(cur.read_u32(), Err(DecodeError::BufferTooShort));
    assert_eq!(cur.offset(), 5);
}

#[test]
fn failed_text_leaves_the_cursor_where_it_was() {
    let buf = [9u8, 2, 0, 0, 0, 0xC3, 0x28, 7];
    let mut cur = Cursor::new(&buf);
    cur.read_u8().unwrap();
    assert_eq!(cur.read_string(), Err(DecodeError::InvalidUtf8));
    assert_eq!(cur.offset(), 1);
    let buf = [9u8, 3, 0, 0, 0, b'a', b'b'];
    let mut cur = Cursor::new(&buf);
    cur.read_u8().unwrap();
    assert_eq!(cur.read_string(), Err(DecodeError::BufferTooShort));
    assert_eq!(cur.offset(), 1);
    let buf = [9u8, 3, 0, 0];
    let mut cur = Cursor::new(&buf);
    cur.read_u8().unwrap();
    assert_eq!(cur.read_string(), Err(DecodeError::BufferTooShort));
    assert_eq!(cur.offset(), 1);
}

#[test]
fn numbers_are_little_endian() {
    let buf = [0x78u8, 0x56, 0x34, 0x12, 0xEF, 0xCD, 0xAB, 0x90, 0x78, 0x56, 0x34, 0x12];
    let mut cur = Cursor::new(&buf);
    assert_eq!(cur.read_u32(), Ok(0x1234_5678));
    assert_eq!(cur.read_u64(), Ok(0x1234_5678_90AB_CDEF));
    let buf = [0xFFu8; 12];
    let mut cur = Cursor::new(&buf);
    assert_eq!(cur.read_u32(), Ok(u32::MAX));
    assert_eq!(cur.read_u64(), Ok(u64::MAX));
}

#[test]
fn text_is_read_behind_its_length() {
    let buf = [5u8, 0, 0, 0, b'h', b'e', b'l', b'l', b'o', 0, 0, 0, 0, 1];
    let mut cur = Cursor::new(&buf);
    assert_eq!(cur.read_string(), Ok("hello".to_string()));
    assert_eq!(cur.offset(), 9);
    assert_eq!(cur.read_string(), Ok(String::new()));
    assert_eq!(cur.offset(), 13);
    assert_eq!(cur.read_bool(), Ok(true));
}

#[test]
fn key_is_read_as_base58() {
    let mut buf = vec![0u8; 32];
    buf.extend_from_slice(&[0xFF; 32]);
    let mut cur = Cursor::new(&buf);
    assert_eq!(cur.read_pubkey(), Ok("11111111111111111111111111111111".to_string()));
    assert_eq!(cur.offset(), 32);
    let second = cur.read_pubkey().unwrap();
    assert_eq!(second, bs58::encode([0xFFu8; 32]).into_string());
    assert_ne!(second.as_bytes(), &[0xFFu8; 32][..]);
    assert_eq!(cur.remaining(), 0);
}

#[test]
fn skip_passes_over_bytes() {
    let buf = [0u8; 10];
    let mut cur = Cursor::new(&buf);
    assert_eq!(cur.skip(4), Ok(()));
    assert_eq!(cur.offset(), 4);
    assert_eq!(cur.skip(7), Err(DecodeError::BufferTooShort));
    assert_eq!(cur.skip(6), Ok(()));
    assert_eq!(cur.remaining(), 0);
}

#[test]
fn record_that_fails_leaves_the_cursor_where_it_was() {
    let mut buf = vec![1u8, 0, 0, 0, b'n', 1, 0, 0, 0, b's', 4, 0, 0, 0, b'u'];
    let mut cur = Cursor::new(&buf);
    assert_eq!(InitializePoolParameters::deserialize(&mut cur), Err(DecodeError::BufferTooShort));
    assert_eq!(cur.offset(), 0);
    buf[10] = 1;
    let mut cur = Cursor::new(&buf);
    assert_eq!(
        InitializePoolParameters::deserialize(&mut cur),
        Ok(InitializePoolParameters {
            name: "n".to_string(),
            symbol: "s".to_string(),
            uri: "u".to_string(),
        })
    );
    assert_eq!(cur.offset(), 15);
}

#[test]
fn records_are_read_one_behind_the_other() {
    let mut buf = vec![7u8, 0, 0, 0, 0, 0, 0, 0, 0, 0, 0, 0, 0];
    buf.push(0);
    for v in [1u64, 2, 3] {
        buf.extend_from_slice(&v.to_le_bytes());
    }
    buf.push(4);
    for v in [5u64, 6, 7] {
        buf.extend_from_slice(&v.to_le_bytes());
    }
    let mut cur = Cursor::new(&buf);
    assert_eq!(
        MintParams::deserialize(&mut cur),
        Ok(MintParams {
            decimals: 7,
            name: String::new(),
            symbol: String::new(),
            uri: String::new(),
        })
    );
    assert_eq!(
        CurveParams::deserialize(&mut cur),
        Ok(CurveParams::Constant {
            data: ConstantCurve {
                supply: 1,
                total_base_sell: 2,
                total_quote_fund_raising: 3,
                migrate_type: 4,
            },
        })
    );
    assert_eq!(
        VestingParam::deserialize(&mut cur),
        Ok(VestingParam { total_locked_amount: 5, cliff_period: 6, unlock_period: 7 })
    );
    assert_eq!(cur.remaining(), 0);
    assert_eq!(VestingParam::deserialize(&mut cur), Err(DecodeError::BufferTooShort));
}

#[test]
fn account_is_looked_up_by_place() {
    let list = vec![Some("a".to_string()), None, Some("c".to_string())];
    assert_eq!(account(&list, 0), Ok("a".to_string()));
    assert_eq!(account(&list, 1), Err(DecodeError::MissingAccount));
    assert_eq!(account(&list, 2), Ok("c".to_string()));
    assert_eq!(account(&list, 3), Err(DecodeError::MissingAccount));
    assert_eq!(account(&[], 0), Err(DecodeError::MissingAccount));
}

fn wide(key: &'static str, v: u64) -> BoundaryField {
    BoundaryField { key, value: BoundaryValue::Wide(v) }
}

fn small(key: &'static str, v: u8) -> BoundaryField {
    BoundaryField { key, value: BoundaryValue::Small(v) }
}

fn text(key: &'static str, v: &str) -> BoundaryField {
    BoundaryField { key, value: BoundaryValue::Text(v.to_string()) }
}

#[test]
fn curve_state_is_handed_over_with_wide_numbers() {
    let state = CurveState {
        virtual_token_reserves: u64::MAX,
        virtual_sol_reserves: (1 << 53) + 1,
        real_token_reserves: 3,
        real_sol_reserves: 4,
        token_total_supply: 5,
        complete: true,
    };
    assert_eq!(
        state.project(),
        vec![
            wide("virtual_token_reserves", u64::MAX),
            wide("virtual_sol_reserves", 9_007_199_254_740_993),
            wide("real_token_reserves", 3),
            wide("real_sol_reserves", 4),
            wide("token_total_supply", 5),
            BoundaryField { key: "complete", value: BoundaryValue::Flag(true) },
        ]
    );
}

#[test]
fn pool_state_is_handed_over_field_by_field() {
    let state = PoolState {
        epoch: 1,
        status: 2,
        base_decimals: 3,
        quote_decimals: 4,
        migrate_type: 5,
        supply: 6,
        total_base_sell: 7,
        virtual_base: 8,
        virtual_quote: 9,
        real_base: 10,
        real_quote: 11,
        total_quote_fund_raising: 12,
        global_config: "config".to_string(),
        quote_mint: "mint".to_string(),
    };
    assert_eq!(
        state.project(),
        vec![
            small("status", 2),
            wide("virtualBase", 8),
            text("globalConfig", "config"),
            text("quoteMint", "mint"),
            wide("virtualQuote", 9),
            wide("realBase", 10),
            wide("realQuote", 11),
            wide("supply", 6),
            wide("totalBaseSell", 7),
            wide("totalQuoteFundRaising", 12),
            small("baseDecimals", 3),
            small("quoteDecimals", 4),
            small("migrateType", 5),
            wide("epoch", 1),
        ]
    );
}

#[test]
fn global_config_is_handed_over_as_one_field() {
    assert_eq!(GlobalConfig { curve_type: 2 }.project(), vec![small("curveType", 2)]);
}
