//! The layout of each record, as a function on byte sequences.
//!
//! A record of fixed size is there when all its bytes are, and its fields
//! stand at fixed distances from its start. A record with texts is read
//! field by field, each where the one before it ended. Beside each layout
//! stands its writer.

use vstd::prelude::*;
use crate::error::DecodeError;
use crate::records::{
    ConstantCurve, CreateTokenBoopArgsView, CurveParams, CurveState, FixedCurve, InitializeDataView,
    InitializePoolParametersView, LinearCurve, MintParamsView, VestingParam,
};
use crate::wire::{available, body_of, text_at, text_bytes, u64_at, u64_in, u64_le, u8_at, KEY_LEN};

verus! {

/// Size of a constant-product curve.
pub const CONSTANT_CURVE_LEN: usize = 25;

/// Size of a fixed-price curve.
pub const FIXED_CURVE_LEN: usize = 17;

/// Size of a linear-price curve.
pub const LINEAR_CURVE_LEN: usize = 17;

/// Size of a vesting record.
pub const VESTING_LEN: usize = 24;

/// Size of a bonding curve's state.
pub const CURVE_STATE_LEN: usize = 41;

/// Size of a run of unread bytes in a pool's state.
pub const POOL_RESERVED_LEN: usize = 64;

/// Size of a pool's state, as far as it is read.
pub const POOL_STATE_LEN: usize = 260;

/// Size of a global configuration, as far as it is read.
pub const GLOBAL_CONFIG_LEN: usize = 9;

/// Tag of a constant-product curve.
pub const TAG_CONSTANT: u8 = 0;

/// Tag of a fixed-price curve.
pub const TAG_FIXED: u8 = 1;

/// Tag of a linear-price curve.
pub const TAG_LINEAR: u8 = 2;

/// A create instruction as it stands on the wire: three texts and three keys.
pub ghost struct CreateRecord {
    pub name: Seq<char>,
    pub symbol: Seq<char>,
    pub uri: Seq<char>,
    pub mint: Seq<u8>,
    pub bonding_curve: Seq<u8>,
    pub developer: Seq<u8>,
}

impl CreateRecord {
    /// The three texts.
    pub open spec fn texts(self) -> InitializePoolParametersView {
        InitializePoolParametersView { name: self.name, symbol: self.symbol, uri: self.uri }
    }
}

/// A pool's state as it stands on the wire, the unread bytes included.
pub ghost struct PoolStateRecord {
    pub epoch: u64,
    pub status: u8,
    pub base_decimals: u8,
    pub quote_decimals: u8,
    pub migrate_type: u8,
    pub supply: u64,
    pub total_base_sell: u64,
    pub virtual_base: u64,
    pub virtual_quote: u64,
    pub real_base: u64,
    pub real_quote: u64,
    pub total_quote_fund_raising: u64,
    /// Eight unread 64-bit slots.
    pub reserved: Seq<u8>,
    pub global_config: Seq<u8>,
    /// Two unread keys.
    pub other_keys: Seq<u8>,
    pub quote_mint: Seq<u8>,
}

/// A global configuration as it stands on the wire, as far as it is read.
pub ghost struct GlobalConfigRecord {
    pub epoch: u64,
    pub curve_type: u8,
}

/// Three texts at `pos`: name, symbol, uri.
pub open spec fn pool_parameters_at(buf: Seq<u8>, pos: int) -> Result<
    (InitializePoolParametersView, int),
    DecodeError,
> {
    match text_at(buf, pos) {
        Ok((name, at_symbol)) => match text_at(buf, at_symbol) {
            Ok((symbol, at_uri)) => match text_at(buf, at_uri) {
                Ok((uri, next)) => Ok((InitializePoolParametersView { name, symbol, uri }, next)),
                Err(e) => Err(e),
            },
            Err(e) => Err(e),
        },
        Err(e) => Err(e),
    }
}

/// The bytes that stand for three texts.
pub open spec fn pool_parameters_bytes(v: InitializePoolParametersView) -> Seq<u8> {
    text_bytes(v.name) + text_bytes(v.symbol) + text_bytes(v.uri)
}

/// A salt and three texts at `pos`.
pub open spec fn boop_args_at(buf: Seq<u8>, pos: int) -> Result<
    (CreateTokenBoopArgsView, int),
    DecodeError,
> {
    match u64_at(buf, pos) {
        Ok((salt, at_texts)) => match pool_parameters_at(buf, at_texts) {
            Ok((t, next)) => Ok(
                (
                    CreateTokenBoopArgsView { salt, name: t.name, symbol: t.symbol, uri: t.uri },
                    next,
                ),
            ),
            Err(e) => Err(e),
        },
        Err(e) => Err(e),
    }
}

/// The bytes that stand for a salt and three texts.
pub open spec fn boop_args_bytes(v: CreateTokenBoopArgsView) -> Seq<u8> {
    u64_le(v.salt) + pool_parameters_bytes(v.texts())
}

/// The number of decimals and three texts at `pos`.
pub open spec fn mint_params_at(buf: Seq<u8>, pos: int) -> Result<
    (MintParamsView, int),
    DecodeError,
> {
    match u8_at(buf, pos) {
        Ok((decimals, at_texts)) => match pool_parameters_at(buf, at_texts) {
            Ok((t, next)) => Ok(
                (MintParamsView { decimals, name: t.name, symbol: t.symbol, uri: t.uri }, next),
            ),
            Err(e) => Err(e),
        },
        Err(e) => Err(e),
    }
}

/// The bytes that stand for a base mint.
pub open spec fn mint_params_bytes(v: MintParamsView) -> Seq<u8> {
    seq![v.decimals] + pool_parameters_bytes(v.texts())
}

/// A constant-product curve at `pos`.
pub open spec fn constant_curve_at(buf: Seq<u8>, pos: int) -> Result<
    (ConstantCurve, int),
    DecodeError,
> {
    if available(buf, pos, CONSTANT_CURVE_LEN as int) {
        Ok(
            (
                ConstantCurve {
                    supply: u64_in(buf, pos),
                    total_base_sell: u64_in(buf, pos + 8),
                    total_quote_fund_raising: u64_in(buf, pos + 16),
                    migrate_type: buf[pos + 24],
                },
                pos + CONSTANT_CURVE_LEN,
            ),
        )
    } else {
        Err(DecodeError::BufferTooShort)
    }
}

/// The bytes that stand for a constant-product curve.
pub open spec fn constant_curve_bytes(v: ConstantCurve) -> Seq<u8> {
    u64_le(v.supply) + u64_le(v.total_base_sell) + u64_le(v.total_quote_fund_raising)
        + seq![v.migrate_type]
}

/// A fixed-price curve at `pos`.
pub open spec fn fixed_curve_at(buf: Seq<u8>, pos: int) -> Result<(FixedCurve, int), DecodeError> {
    if available(buf, pos, FIXED_CURVE_LEN as int) {
        Ok(
            (
                FixedCurve {
                    supply: u64_in(buf, pos),
                    total_quote_fund_raising: u64_in(buf, pos + 8),
                    migrate_type: buf[pos + 16],
                },
                pos + FIXED_CURVE_LEN,
            ),
        )
    } else {
        Err(DecodeError::BufferTooShort)
    }
}

/// The bytes that stand for a fixed-price curve.
pub open spec fn fixed_curve_bytes(v: FixedCurve) -> Seq<u8> {
    u64_le(v.supply) + u64_le(v.total_quote_fund_raising) + seq![v.migrate_type]
}

/// A linear-price curve at `pos`.
pub open spec fn linear_curve_at(buf: Seq<u8>, pos: int) -> Result<
    (LinearCurve, int),
    DecodeError,
> {
    if available(buf, pos, LINEAR_CURVE_LEN as int) {
        Ok(
            (
                LinearCurve {
                    supply: u64_in(buf, pos),
                    total_quote_fund_raising: u64_in(buf, pos + 8),
                    migrate_type: buf[pos + 16],
                },
                pos + LINEAR_CURVE_LEN,
            ),
        )
    } else {
        Err(DecodeError::BufferTooShort)
    }
}

/// The bytes that stand for a linear-price curve.
pub open spec fn linear_curve_bytes(v: LinearCurve) -> Seq<u8> {
    u64_le(v.supply) + u64_le(v.total_quote_fund_raising) + seq![v.migrate_type]
}

/// The tag of a curve.
pub open spec fn curve_tag(v: CurveParams) -> u8 {
    match v {
        CurveParams::Constant { .. } => TAG_CONSTANT,
        CurveParams::Fixed { .. } => TAG_FIXED,
        CurveParams::Linear { .. } => TAG_LINEAR,
    }
}

/// The size of the curve that `tag` names.
pub open spec fn curve_len(tag: u8) -> int
    recommends
        tag <= TAG_LINEAR,
{
    if tag == TAG_CONSTANT {
        CONSTANT_CURVE_LEN as int
    } else if tag == TAG_FIXED {
        FIXED_CURVE_LEN as int
    } else {
        LINEAR_CURVE_LEN as int
    }
}

/// A curve at `pos`: a tag byte, then the curve that the tag names. A tag
/// that names none is reported whatever follows it.
pub open spec fn curve_params_at(buf: Seq<u8>, pos: int) -> Result<
    (CurveParams, int),
    DecodeError,
> {
    match u8_at(buf, pos) {
        Ok((tag, at_data)) => if tag == TAG_CONSTANT {
            match constant_curve_at(buf, at_data) {
                Ok((data, next)) => Ok((CurveParams::Constant { data }, next)),
                Err(e) => Err(e),
            }
        } else if tag == TAG_FIXED {
            match fixed_curve_at(buf, at_data) {
                Ok((data, next)) => Ok((CurveParams::Fixed { data }, next)),
                Err(e) => Err(e),
            }
        } else if tag == TAG_LINEAR {
            match linear_curve_at(buf, at_data) {
                Ok((data, next)) => Ok((CurveParams::Linear { data }, next)),
                Err(e) => Err(e),
            }
        } else {
            Err(DecodeError::UnknownVariant)
        },
        Err(e) => Err(e),
    }
}

/// The bytes that stand for a curve: its tag, then the curve.
pub open spec fn curve_params_bytes(v: CurveParams) -> Seq<u8> {
    match v {
        CurveParams::Constant { data } => seq![TAG_CONSTANT] + constant_curve_bytes(data),
        CurveParams::Fixed { data } => seq![TAG_FIXED] + fixed_curve_bytes(data),
        CurveParams::Linear { data } => seq![TAG_LINEAR] + linear_curve_bytes(data),
    }
}

/// A vesting record at `pos`.
pub open spec fn vesting_param_at(buf: Seq<u8>, pos: int) -> Result<
    (VestingParam, int),
    DecodeError,
> {
    if available(buf, pos, VESTING_LEN as int) {
        Ok(
            (
                VestingParam {
                    total_locked_amount: u64_in(buf, pos),
                    cliff_period: u64_in(buf, pos + 8),
                    unlock_period: u64_in(buf, pos + 16),
                },
                pos + VESTING_LEN,
            ),
        )
    } else {
        Err(DecodeError::BufferTooShort)
    }
}

/// The bytes that stand for a vesting record.
pub open spec fn vesting_param_bytes(v: VestingParam) -> Seq<u8> {
    u64_le(v.total_locked_amount) + u64_le(v.cliff_period) + u64_le(v.unlock_period)
}

/// The arguments of a pool-initialize instruction at `pos`: base mint, curve,
/// vesting.
pub open spec fn initialize_data_at(buf: Seq<u8>, pos: int) -> Result<
    (InitializeDataView, int),
    DecodeError,
> {
    match mint_params_at(buf, pos) {
        Ok((base_mint_param, at_curve)) => match curve_params_at(buf, at_curve) {
            Ok((curve_param, at_vesting)) => match vesting_param_at(buf, at_vesting) {
                Ok((vesting_param, next)) => Ok(
                    (InitializeDataView { base_mint_param, curve_param, vesting_param }, next),
                ),
                Err(e) => Err(e),
            },
            Err(e) => Err(e),
        },
        Err(e) => Err(e),
    }
}

/// The bytes that stand for the arguments of a pool-initialize instruction.
pub open spec fn initialize_data_bytes(v: InitializeDataView) -> Seq<u8> {
    mint_params_bytes(v.base_mint_param) + curve_params_bytes(v.curve_param)
        + vesting_param_bytes(v.vesting_param)
}

/// A create instruction at `pos`: three texts, then the keys of the mint, the
/// bonding curve and the developer.
pub open spec fn create_at(buf: Seq<u8>, pos: int) -> Result<(CreateRecord, int), DecodeError> {
    match pool_parameters_at(buf, pos) {
        Ok((t, at_keys)) => if available(buf, at_keys, 3 * KEY_LEN) {
            Ok(
                (
                    CreateRecord {
                        name: t.name,
                        symbol: t.symbol,
                        uri: t.uri,
                        mint: buf.subrange(at_keys, at_keys + KEY_LEN),
                        bonding_curve: buf.subrange(at_keys + KEY_LEN, at_keys + 2 * KEY_LEN),
                        developer: buf.subrange(at_keys + 2 * KEY_LEN, at_keys + 3 * KEY_LEN),
                    },
                    at_keys + 3 * KEY_LEN,
                ),
            )
        } else {
            Err(DecodeError::BufferTooShort)
        },
        Err(e) => Err(e),
    }
}

/// The bytes that stand for a create instruction.
pub open spec fn create_bytes(v: CreateRecord) -> Seq<u8> {
    pool_parameters_bytes(v.texts()) + v.mint + v.bonding_curve + v.developer
}

/// The state of a bonding curve at `pos`: five numbers and the completion
/// flag, which is set unless its byte is zero.
pub open spec fn curve_state_at(buf: Seq<u8>, pos: int) -> Result<(CurveState, int), DecodeError> {
    if available(buf, pos, CURVE_STATE_LEN as int) {
        Ok(
            (
                CurveState {
                    virtual_token_reserves: u64_in(buf, pos),
                    virtual_sol_reserves: u64_in(buf, pos + 8),
                    real_token_reserves: u64_in(buf, pos + 16),
                    real_sol_reserves: u64_in(buf, pos + 24),
                    token_total_supply: u64_in(buf, pos + 32),
                    complete: buf[pos + 40] != 0,
                },
                pos + CURVE_STATE_LEN,
            ),
        )
    } else {
        Err(DecodeError::BufferTooShort)
    }
}

/// The bytes that stand for a bonding curve's state, the flag as 1 or 0.
pub open spec fn curve_state_bytes(v: CurveState) -> Seq<u8> {
    u64_le(v.virtual_token_reserves) + u64_le(v.virtual_sol_reserves) + u64_le(
        v.real_token_reserves,
    ) + u64_le(v.real_sol_reserves) + u64_le(v.token_total_supply) + seq![
        if v.complete {
            1u8
        } else {
            0u8
        },
    ]
}

/// The state of a pool at `pos`: the epoch, four bytes, seven numbers, eight
/// unread slots, the key of the global configuration, two unread keys and
/// the key of the quote mint.
pub open spec fn pool_state_at(buf: Seq<u8>, pos: int) -> Result<
    (PoolStateRecord, int),
    DecodeError,
> {
    if available(buf, pos, POOL_STATE_LEN as int) {
        Ok(
            (
                PoolStateRecord {
                    epoch: u64_in(buf, pos),
                    status: buf[pos + 8],
                    base_decimals: buf[pos + 9],
                    quote_decimals: buf[pos + 10],
                    migrate_type: buf[pos + 11],
                    supply: u64_in(buf, pos + 12),
                    total_base_sell: u64_in(buf, pos + 20),
                    virtual_base: u64_in(buf, pos + 28),
                    virtual_quote: u64_in(buf, pos + 36),
                    real_base: u64_in(buf, pos + 44),
                    real_quote: u64_in(buf, pos + 52),
                    total_quote_fund_raising: u64_in(buf, pos + 60),
                    reserved: buf.subrange(pos + 68, pos + 132),
                    global_config: buf.subrange(pos + 132, pos + 164),
                    other_keys: buf.subrange(pos + 164, pos + 228),
                    quote_mint: buf.subrange(pos + 228, pos + 260),
                },
                pos + POOL_STATE_LEN,
            ),
        )
    } else {
        Err(DecodeError::BufferTooShort)
    }
}

/// The bytes that stand for a pool's state.
pub open spec fn pool_state_bytes(v: PoolStateRecord) -> Seq<u8> {
    u64_le(v.epoch) + seq![v.status, v.base_decimals, v.quote_decimals, v.migrate_type] + u64_le(
        v.supply,
    ) + u64_le(v.total_base_sell) + u64_le(v.virtual_base) + u64_le(v.virtual_quote) + u64_le(
        v.real_base,
    ) + u64_le(v.real_quote) + u64_le(v.total_quote_fund_raising) + v.reserved + v.global_config
        + v.other_keys + v.quote_mint
}

/// A global configuration at `pos`: the epoch and the curve type.
pub open spec fn global_config_at(buf: Seq<u8>, pos: int) -> Result<
    (GlobalConfigRecord, int),
    DecodeError,
> {
    if available(buf, pos, GLOBAL_CONFIG_LEN as int) {
        Ok(
            (
                GlobalConfigRecord { epoch: u64_in(buf, pos), curve_type: buf[pos + 8] },
                pos + GLOBAL_CONFIG_LEN,
            ),
        )
    } else {
        Err(DecodeError::BufferTooShort)
    }
}

/// The bytes that stand for a global configuration.
pub open spec fn global_config_bytes(v: GlobalConfigRecord) -> Seq<u8> {
    u64_le(v.epoch) + seq![v.curve_type]
}

/// Name and symbol at `pos`.
pub open spec fn name_and_symbol_at(buf: Seq<u8>, pos: int) -> Result<
    ((Seq<char>, Seq<char>), int),
    DecodeError,
> {
    match text_at(buf, pos) {
        Ok((name, at_symbol)) => match text_at(buf, at_symbol) {
            Ok((symbol, next)) => Ok(((name, symbol), next)),
            Err(e) => Err(e),
        },
        Err(e) => Err(e),
    }
}

/// The bytes that stand for a name and a symbol.
pub open spec fn name_and_symbol_bytes(v: (Seq<char>, Seq<char>)) -> Seq<u8> {
    text_bytes(v.0) + text_bytes(v.1)
}

/// The record of a read that must end where the buffer ends.
pub open spec fn filling<T>(read: Result<(T, int), DecodeError>, buf: Seq<u8>) -> Result<
    T,
    DecodeError,
> {
    match read {
        Ok((v, next)) => if next == buf.len() {
            Ok(v)
        } else {
            Err(DecodeError::SchemaMismatch)
        },
        Err(e) => Err(e),
    }
}

/// The record of a read, whatever follows it.
pub open spec fn leading<T>(read: Result<(T, int), DecodeError>) -> Result<T, DecodeError> {
    match read {
        Ok((v, _)) => Ok(v),
        Err(e) => Err(e),
    }
}

/// What a payload of a create-token instruction with a salt holds: behind
/// the discriminator the arguments and nothing more.
pub open spec fn boop_create_token(data: Seq<u8>) -> Result<CreateTokenBoopArgsView, DecodeError> {
    match body_of(data) {
        Ok(body) => filling(boop_args_at(body, 0), body),
        Err(e) => Err(e),
    }
}

/// What a payload of a pool-initialize instruction holds: behind the
/// discriminator the arguments and nothing more.
pub open spec fn raydium_initialize(data: Seq<u8>) -> Result<InitializeDataView, DecodeError> {
    match body_of(data) {
        Ok(body) => filling(initialize_data_at(body, 0), body),
        Err(e) => Err(e),
    }
}

/// What a payload of a token-mint instruction holds, as far as it is read:
/// behind the discriminator a name and a symbol.
pub open spec fn moonshot_token_mint(data: Seq<u8>) -> Result<(Seq<char>, Seq<char>), DecodeError> {
    match body_of(data) {
        Ok(body) => leading(name_and_symbol_at(body, 0)),
        Err(e) => Err(e),
    }
}

/// What a payload of a create instruction holds.
pub open spec fn pump_fun_create(data: Seq<u8>) -> Result<CreateRecord, DecodeError> {
    match body_of(data) {
        Ok(body) => leading(create_at(body, 0)),
        Err(e) => Err(e),
    }
}

/// What a bonding curve's account holds.
pub open spec fn pump_fun_curve_state(data: Seq<u8>) -> Result<CurveState, DecodeError> {
    match body_of(data) {
        Ok(body) => leading(curve_state_at(body, 0)),
        Err(e) => Err(e),
    }
}

/// What a pool's account holds.
pub open spec fn launchpad_pool_state(data: Seq<u8>) -> Result<PoolStateRecord, DecodeError> {
    match body_of(data) {
        Ok(body) => leading(pool_state_at(body, 0)),
        Err(e) => Err(e),
    }
}

/// What a global configuration's account holds, as far as it is read.
pub open spec fn launchpad_global_config(data: Seq<u8>) -> Result<GlobalConfigRecord, DecodeError> {
    match body_of(data) {
        Ok(body) => leading(global_config_at(body, 0)),
        Err(e) => Err(e),
    }
}

/// The texts of a pool-initialize instruction whose payload may or may not
/// begin with a discriminator: what stands behind the first eight bytes
/// where that is three texts, else what the payload holds from its start.
pub open spec fn meteora_parameters(data: Seq<u8>) -> Result<
    InitializePoolParametersView,
    DecodeError,
> {
    match body_of(data) {
        Ok(body) => match pool_parameters_at(body, 0) {
            Ok((t, _)) => Ok(t),
            Err(_) => leading(pool_parameters_at(data, 0)),
        },
        Err(_) => leading(pool_parameters_at(data, 0)),
    }
}

/// Place of the creator in the account list of a pool-initialize instruction.
pub const ACCOUNT_CREATOR: usize = 2;

/// Place of the base mint in that list.
pub const ACCOUNT_BASE_MINT: usize = 3;

/// Place of the pool in that list.
pub const ACCOUNT_POOL: usize = 5;

/// The text at place `i` of an account list.
pub open spec fn account_at(accounts: Seq<Option<Seq<char>>>, i: int) -> Result<
    Seq<char>,
    DecodeError,
> {
    if 0 <= i < accounts.len() && accounts[i] is Some {
        Ok(accounts[i]->Some_0)
    } else {
        Err(DecodeError::MissingAccount)
    }
}

/// What a pool-initialize instruction and its account list say together.
pub ghost struct MeteoraRecord {
    pub name: Seq<char>,
    pub symbol: Seq<char>,
    pub uri: Seq<char>,
    pub mint: Seq<char>,
    pub bonding_curve: Seq<char>,
    pub developer: Seq<char>,
}

/// The texts of the payload together with the creator, the base mint and the
/// pool from the account list. A payload that does not decode is reported
/// before a gap in the list.
pub open spec fn meteora_initialize(data: Seq<u8>, accounts: Seq<Option<Seq<char>>>) -> Result<
    MeteoraRecord,
    DecodeError,
> {
    match meteora_parameters(data) {
        Ok(t) => match (
            account_at(accounts, ACCOUNT_CREATOR as int),
            account_at(accounts, ACCOUNT_BASE_MINT as int),
            account_at(accounts, ACCOUNT_POOL as int),
        ) {
            (Ok(developer), Ok(mint), Ok(bonding_curve)) => Ok(
                MeteoraRecord {
                    name: t.name,
                    symbol: t.symbol,
                    uri: t.uri,
                    mint,
                    bonding_curve,
                    developer,
                },
            ),
            _ => Err(DecodeError::MissingAccount),
        },
        Err(e) => Err(e),
    }
}

} // verus!
