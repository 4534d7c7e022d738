//! The decoders, one for each kind of payload.
//!
//! A decoder strips the discriminator, reads the fields in the order of the
//! layout and gives up at the first read that fails. What it returns is
//! stated by the layout of the same name.

use vstd::prelude::*;
use vstd::slice::slice_subrange;
use crate::address::base58_text;
use crate::cursor::Cursor;
use crate::error::DecodeError;
use crate::layout::{
    account_at, boop_args_at, boop_create_token, constant_curve_at, curve_params_at, filling,
    fixed_curve_at, initialize_data_at, launchpad_global_config, launchpad_pool_state,
    linear_curve_at, meteora_initialize, meteora_parameters, mint_params_at, moonshot_token_mint,
    pool_parameters_at, pump_fun_create, pump_fun_curve_state, raydium_initialize, vesting_param_at,
    CreateRecord, MeteoraRecord, PoolStateRecord, ACCOUNT_BASE_MINT, ACCOUNT_CREATOR, ACCOUNT_POOL,
    POOL_RESERVED_LEN, TAG_CONSTANT, TAG_FIXED, TAG_LINEAR,
};
use crate::records::{
    ComputedTokenMetaData, ConstantCurve, CreateTokenBoopArgs, CurveParams, CurveState, FixedCurve,
    GlobalConfig, InitializeData, InitializePoolParameters, InitializeSimple, LinearCurve,
    MeteoraInitializeOut, MintParams, PoolState, VestingParam,
};
use crate::wire::{body_of, DISCRIMINATOR_LEN};

verus! {

/// Strips the discriminator: returns what follows the first eight bytes.
pub fn payload(data: &[u8]) -> (r: Result<&[u8], DecodeError>)
    ensures
        body_of(data@) == (match r {
            Ok(body) => Ok(body@),
            Err(e) => Err(e),
        }),
{
    if data.len() < DISCRIMINATOR_LEN {
        Err(DecodeError::BufferTooShort)
    } else {
        Ok(slice_subrange(data, DISCRIMINATOR_LEN, data.len()))
    }
}

impl PoolState {
    /// True when this record shows what `rec` holds, each key as base-58
    /// text.
    pub open spec fn shows(&self, rec: PoolStateRecord) -> bool {
        &&& self.epoch == rec.epoch
        &&& self.status == rec.status
        &&& self.base_decimals == rec.base_decimals
        &&& self.quote_decimals == rec.quote_decimals
        &&& self.migrate_type == rec.migrate_type
        &&& self.supply == rec.supply
        &&& self.total_base_sell == rec.total_base_sell
        &&& self.virtual_base == rec.virtual_base
        &&& self.virtual_quote == rec.virtual_quote
        &&& self.real_base == rec.real_base
        &&& self.real_quote == rec.real_quote
        &&& self.total_quote_fund_raising == rec.total_quote_fund_raising
        &&& self.global_config@ == base58_text(rec.global_config)
        &&& self.quote_mint@ == base58_text(rec.quote_mint)
    }
}

/// Decodes the account of a launchpad pool.
pub fn parse_launchpad_pool_state(data: &[u8]) -> (r: Result<PoolState, DecodeError>)
    ensures
        match r {
            Ok(state) => launchpad_pool_state(data@) matches Ok(rec) && state.shows(rec),
            Err(e) => launchpad_pool_state(data@) matches Err(err) && err == e,
        },
{
    let buf = payload(data)?;
    let mut cur = Cursor::new(buf);
    let epoch: u64 = cur.read_u64()?;
    let status: u8 = cur.read_u8()?;
    let base_decimals: u8 = cur.read_u8()?;
    let quote_decimals: u8 = cur.read_u8()?;
    let migrate_type: u8 = cur.read_u8()?;
    let supply: u64 = cur.read_u64()?;
    let total_base_sell: u64 = cur.read_u64()?;
    let virtual_base: u64 = cur.read_u64()?;
    let virtual_quote: u64 = cur.read_u64()?;
    let real_base: u64 = cur.read_u64()?;
    let real_quote: u64 = cur.read_u64()?;
    let total_quote_fund_raising: u64 = cur.read_u64()?;
    cur.skip(POOL_RESERVED_LEN)?;
    let global_config = cur.read_pubkey()?;
    cur.skip(POOL_RESERVED_LEN)?;
    let quote_mint = cur.read_pubkey()?;
    Ok(
        PoolState {
            epoch,
            status,
            base_decimals,
            quote_decimals,
            migrate_type,
            supply,
            total_base_sell,
            virtual_base,
            virtual_quote,
            real_base,
            real_quote,
            total_quote_fund_raising,
            global_config,
            quote_mint,
        },
    )
}

/// Decodes the account of a bonding curve.
pub fn parse_pump_fun_curve_state(data: &[u8]) -> (r: Result<CurveState, DecodeError>)
    ensures
        pump_fun_curve_state(data@) == r,
{
    let buf = payload(data)?;
    let mut cur = Cursor::new(buf);
    let virtual_token_reserves: u64 = cur.read_u64()?;
    let virtual_sol_reserves: u64 = cur.read_u64()?;
    let real_token_reserves: u64 = cur.read_u64()?;
    let real_sol_reserves: u64 = cur.read_u64()?;
    let token_total_supply: u64 = cur.read_u64()?;
    let complete = cur.read_bool()?;
    Ok(
        CurveState {
            virtual_token_reserves,
            virtual_sol_reserves,
            real_token_reserves,
            real_sol_reserves,
            token_total_supply,
            complete,
        },
    )
}

impl InitializePoolParameters {
    /// Reads name, symbol and uri.
    pub fn deserialize(cur: &mut Cursor) -> (r: Result<Self, DecodeError>)
        ensures
            final(cur).bytes() == old(cur).bytes(),
            pool_parameters_at(old(cur).bytes(), old(cur).position()) == (match r {
                Ok(v) => Ok((v@, final(cur).position())),
                Err(e) => Err(e),
            }),
            r is Err ==> final(cur).position() == old(cur).position(),
    {
        let mut ahead = *cur;
        let name = ahead.read_string()?;
        let symbol = ahead.read_string()?;
        let uri = ahead.read_string()?;
        *cur = ahead;
        Ok(InitializePoolParameters { name, symbol, uri })
    }
}

/// The texts of an account list, place by place; a place that holds no text
/// holds none here.
pub open spec fn account_texts(accounts: Seq<Option<String>>) -> Seq<Option<Seq<char>>> {
    Seq::new(
        accounts.len(),
        |i: int|
            match accounts[i] {
                Some(text) => Some(text@),
                None => None,
            },
    )
}

/// Looks up the text at place `i` of an account list.
pub fn account(accounts: &[Option<String>], i: usize) -> (r: Result<String, DecodeError>)
    ensures
        account_at(account_texts(accounts@), i as int) == (match r {
            Ok(text) => Ok(text@),
            Err(e) => Err(e),
        }),
{
    if i < accounts.len() {
        match &accounts[i] {
            Some(text) => Ok(text.clone()),
            None => Err(DecodeError::MissingAccount),
        }
    } else {
        Err(DecodeError::MissingAccount)
    }
}

/// Decodes the texts of a pool-initialize instruction whose payload may or
/// may not begin with a discriminator. The layout with one is tried first;
/// where it does not fit, the payload is read from its start, and what that
/// read reports is returned.
pub fn decode_pool_parameters(ix_data: &[u8]) -> (r: Result<InitializePoolParameters, DecodeError>)
    ensures
        meteora_parameters(ix_data@) == (match r {
            Ok(v) => Ok(v@),
            Err(e) => Err(e),
        }),
{
    match payload(ix_data) {
        Ok(body) => {
            let mut cur = Cursor::new(body);
            match InitializePoolParameters::deserialize(&mut cur) {
                Ok(args) => {
                    return Ok(args);
                },
                Err(_) => {},
            }
        },
        Err(_) => {},
    }
    let mut cur = Cursor::new(ix_data);
    InitializePoolParameters::deserialize(&mut cur)
}

impl MeteoraInitializeOut {
    /// True when this record shows what `rec` holds.
    pub open spec fn shows(&self, rec: MeteoraRecord) -> bool {
        &&& self.name@ == rec.name
        &&& self.symbol@ == rec.symbol
        &&& self.uri@ == rec.uri
        &&& self.mint@ == rec.mint
        &&& self.bonding_curve@ == rec.bonding_curve
        &&& self.developer@ == rec.developer
    }
}

/// Decodes a pool-initialize instruction together with its account list,
/// which supplies the creator, the base mint and the pool at places 2, 3
/// and 5.
pub fn parse_meteora_initialize(ix_data: &[u8], accounts: &[Option<String>]) -> (r: Result<
    MeteoraInitializeOut,
    DecodeError,
>)
    ensures
        match r {
            Ok(out) => meteora_initialize(ix_data@, account_texts(accounts@)) matches Ok(rec)
                && out.shows(rec),
            Err(e) => meteora_initialize(ix_data@, account_texts(accounts@)) matches Err(err)
                && err == e,
        },
{
    let args = decode_pool_parameters(ix_data)?;
    let developer = account(accounts, ACCOUNT_CREATOR)?;
    let mint = account(accounts, ACCOUNT_BASE_MINT)?;
    let bonding_curve = account(accounts, ACCOUNT_POOL)?;
    Ok(
        MeteoraInitializeOut {
            name: args.name,
            symbol: args.symbol,
            uri: args.uri,
            mint,
            bonding_curve,
            developer,
        },
    )
}

impl ComputedTokenMetaData {
    /// True when this record shows what `rec` holds, each key as base-58
    /// text.
    pub open spec fn shows(&self, rec: CreateRecord) -> bool {
        &&& self.name@ == rec.name
        &&& self.symbol@ == rec.symbol
        &&& self.uri@ == rec.uri
        &&& self.mint@ == base58_text(rec.mint)
        &&& self.bonding_curve@ == base58_text(rec.bonding_curve)
        &&& self.developer@ == base58_text(rec.developer)
    }
}

/// Decodes a create instruction.
pub fn parse_pump_fun_create(data: &[u8]) -> (r: Result<ComputedTokenMetaData, DecodeError>)
    ensures
        match r {
            Ok(meta) => pump_fun_create(data@) matches Ok(rec) && meta.shows(rec),
            Err(e) => pump_fun_create(data@) matches Err(err) && err == e,
        },
{
    let buf = payload(data)?;
    let mut cur = Cursor::new(buf);
    let name = cur.read_string()?;
    let symbol = cur.read_string()?;
    let uri = cur.read_string()?;
    let mint = cur.read_pubkey()?;
    let bonding_curve = cur.read_pubkey()?;
    let developer = cur.read_pubkey()?;
    Ok(ComputedTokenMetaData { name, symbol, uri, mint, bonding_curve, developer })
}

/// Decodes name and symbol of a token-mint instruction.
pub fn parse_moonshot_token_mint(data: &[u8]) -> (r: Result<InitializeSimple, DecodeError>)
    ensures
        moonshot_token_mint(data@) == (match r {
            Ok(token) => Ok((token.name@, token.symbol@)),
            Err(e) => Err(e),
        }),
{
    let buf = payload(data)?;
    let mut cur = Cursor::new(buf);
    let name = cur.read_string()?;
    let symbol = cur.read_string()?;
    Ok(InitializeSimple { name, symbol })
}

/// Decodes the curve type of a launchpad's global configuration.
pub fn parse_launchpad_global_config(data: &[u8]) -> (r: Result<GlobalConfig, DecodeError>)
    ensures
        match r {
            Ok(config) => launchpad_global_config(data@) matches Ok(rec) && config.curve_type
                == rec.curve_type,
            Err(e) => launchpad_global_config(data@) matches Err(err) && err == e,
        },
{
    let buf = payload(data)?;
    let mut cur = Cursor::new(buf);
    let _epoch: u64 = cur.read_u64()?;
    let curve_type: u8 = cur.read_u8()?;
    Ok(GlobalConfig { curve_type })
}

impl CreateTokenBoopArgs {
    /// Reads the salt and the three texts.
    pub fn deserialize(cur: &mut Cursor) -> (r: Result<Self, DecodeError>)
        ensures
            final(cur).bytes() == old(cur).bytes(),
            boop_args_at(old(cur).bytes(), old(cur).position()) == (match r {
                Ok(v) => Ok((v@, final(cur).position())),
                Err(e) => Err(e),
            }),
            r is Err ==> final(cur).position() == old(cur).position(),
    {
        let mut ahead = *cur;
        let salt: u64 = ahead.read_u64()?;
        let name = ahead.read_string()?;
        let symbol = ahead.read_string()?;
        let uri = ahead.read_string()?;
        *cur = ahead;
        Ok(CreateTokenBoopArgs { salt, name, symbol, uri })
    }

    /// Decodes a buffer that holds the arguments and nothing more.
    pub fn try_from_slice(buf: &[u8]) -> (r: Result<Self, DecodeError>)
        ensures
            filling(boop_args_at(buf@, 0), buf@) == (match r {
                Ok(v) => Ok(v@),
                Err(e) => Err(e),
            }),
    {
        let mut cur = Cursor::new(buf);
        let args = CreateTokenBoopArgs::deserialize(&mut cur)?;
        if cur.remaining() != 0 {
            return Err(DecodeError::SchemaMismatch);
        }
        Ok(args)
    }
}

/// Decodes name and symbol of a create-token instruction that carries a
/// salt.
pub fn parse_boop_create_token(data: &[u8]) -> (r: Result<InitializeSimple, DecodeError>)
    ensures
        match r {
            Ok(token) => boop_create_token(data@) matches Ok(args) && token.name@ == args.name
                && token.symbol@ == args.symbol,
            Err(e) => boop_create_token(data@) matches Err(err) && err == e,
        },
{
    let buf = payload(data)?;
    let args = CreateTokenBoopArgs::try_from_slice(buf)?;
    Ok(InitializeSimple { name: args.name, symbol: args.symbol })
}

impl MintParams {
    /// Reads the number of decimals and the three texts.
    pub fn deserialize(cur: &mut Cursor) -> (r: Result<Self, DecodeError>)
        ensures
            final(cur).bytes() == old(cur).bytes(),
            mint_params_at(old(cur).bytes(), old(cur).position()) == (match r {
                Ok(v) => Ok((v@, final(cur).position())),
                Err(e) => Err(e),
            }),
            r is Err ==> final(cur).position() == old(cur).position(),
    {
        let mut ahead = *cur;
        let decimals: u8 = ahead.read_u8()?;
        let name = ahead.read_string()?;
        let symbol = ahead.read_string()?;
        let uri = ahead.read_string()?;
        *cur = ahead;
        Ok(MintParams { decimals, name, symbol, uri })
    }
}

impl ConstantCurve {
    /// Reads a constant-product curve.
    pub fn deserialize(cur: &mut Cursor) -> (r: Result<Self, DecodeError>)
        ensures
            final(cur).bytes() == old(cur).bytes(),
            constant_curve_at(old(cur).bytes(), old(cur).position()) == (match r {
                Ok(v) => Ok((v, final(cur).position())),
                Err(e) => Err(e),
            }),
            r is Err ==> final(cur).position() == old(cur).position(),
    {
        let mut ahead = *cur;
        let supply: u64 = ahead.read_u64()?;
        let total_base_sell: u64 = ahead.read_u64()?;
        let total_quote_fund_raising: u64 = ahead.read_u64()?;
        let migrate_type: u8 = ahead.read_u8()?;
        *cur = ahead;
        Ok(ConstantCurve { supply, total_base_sell, total_quote_fund_raising, migrate_type })
    }
}

impl FixedCurve {
    /// Reads a fixed-price curve.
    pub fn deserialize(cur: &mut Cursor) -> (r: Result<Self, DecodeError>)
        ensures
            final(cur).bytes() == old(cur).bytes(),
            fixed_curve_at(old(cur).bytes(), old(cur).position()) == (match r {
                Ok(v) => Ok((v, final(cur).position())),
                Err(e) => Err(e),
            }),
            r is Err ==> final(cur).position() == old(cur).position(),
    {
        let mut ahead = *cur;
        let supply: u64 = ahead.read_u64()?;
        let total_quote_fund_raising: u64 = ahead.read_u64()?;
        let migrate_type: u8 = ahead.read_u8()?;
        *cur = ahead;
        Ok(FixedCurve { supply, total_quote_fund_raising, migrate_type })
    }
}

impl LinearCurve {
    /// Reads a linear-price curve.
    pub fn deserialize(cur: &mut Cursor) -> (r: Result<Self, DecodeError>)
        ensures
            final(cur).bytes() == old(cur).bytes(),
            linear_curve_at(old(cur).bytes(), old(cur).position()) == (match r {
                Ok(v) => Ok((v, final(cur).position())),
                Err(e) => Err(e),
            }),
            r is Err ==> final(cur).position() == old(cur).position(),
    {
        let mut ahead = *cur;
        let supply: u64 = ahead.read_u64()?;
        let total_quote_fund_raising: u64 = ahead.read_u64()?;
        let migrate_type: u8 = ahead.read_u8()?;
        *cur = ahead;
        Ok(LinearCurve { supply, total_quote_fund_raising, migrate_type })
    }
}

impl CurveParams {
    /// Reads the tag byte and the curve that it names.
    pub fn deserialize(cur: &mut Cursor) -> (r: Result<Self, DecodeError>)
        ensures
            final(cur).bytes() == old(cur).bytes(),
            curve_params_at(old(cur).bytes(), old(cur).position()) == (match r {
                Ok(v) => Ok((v, final(cur).position())),
                Err(e) => Err(e),
            }),
            r is Err ==> final(cur).position() == old(cur).position(),
    {
        let mut ahead = *cur;
        let tag: u8 = ahead.read_u8()?;
        let curve = if tag == TAG_CONSTANT {
            CurveParams::Constant { data: ConstantCurve::deserialize(&mut ahead)? }
        } else if tag == TAG_FIXED {
            CurveParams::Fixed { data: FixedCurve::deserialize(&mut ahead)? }
        } else if tag == TAG_LINEAR {
            CurveParams::Linear { data: LinearCurve::deserialize(&mut ahead)? }
        } else {
            return Err(DecodeError::UnknownVariant);
        };
        *cur = ahead;
        Ok(curve)
    }
}

impl VestingParam {
    /// Reads a vesting record.
    pub fn deserialize(cur: &mut Cursor) -> (r: Result<Self, DecodeError>)
        ensures
            final(cur).bytes() == old(cur).bytes(),
            vesting_param_at(old(cur).bytes(), old(cur).position()) == (match r {
                Ok(v) => Ok((v, final(cur).position())),
                Err(e) => Err(e),
            }),
            r is Err ==> final(cur).position() == old(cur).position(),
    {
        let mut ahead = *cur;
        let total_locked_amount: u64 = ahead.read_u64()?;
        let cliff_period: u64 = ahead.read_u64()?;
        let unlock_period: u64 = ahead.read_u64()?;
        *cur = ahead;
        Ok(VestingParam { total_locked_amount, cliff_period, unlock_period })
    }
}

impl InitializeData {
    /// Reads the base mint, the curve and the vesting record.
    pub fn deserialize(cur: &mut Cursor) -> (r: Result<Self, DecodeError>)
        ensures
            final(cur).bytes() == old(cur).bytes(),
            initialize_data_at(old(cur).bytes(), old(cur).position()) == (match r {
                Ok(v) => Ok((v@, final(cur).position())),
                Err(e) => Err(e),
            }),
            r is Err ==> final(cur).position() == old(cur).position(),
    {
        let mut ahead = *cur;
        let base_mint_param = MintParams::deserialize(&mut ahead)?;
        let curve_param = CurveParams::deserialize(&mut ahead)?;
        let vesting_param = VestingParam::deserialize(&mut ahead)?;
        *cur = ahead;
        Ok(InitializeData { base_mint_param, curve_param, vesting_param })
    }

    /// Decodes a buffer that holds the arguments and nothing more.
    pub fn try_from_slice(buf: &[u8]) -> (r: Result<Self, DecodeError>)
        ensures
            filling(initialize_data_at(buf@, 0), buf@) == (match r {
                Ok(v) => Ok(v@),
                Err(e) => Err(e),
            }),
    {
        let mut cur = Cursor::new(buf);
        let init = InitializeData::deserialize(&mut cur)?;
        if cur.remaining() != 0 {
            return Err(DecodeError::SchemaMismatch);
        }
        Ok(init)
    }
}

/// Decodes name and symbol of the base mint of a pool-initialize
/// instruction.
pub fn parse_raydium_initialize(data: &[u8]) -> (r: Result<InitializeSimple, DecodeError>)
    ensures
        match r {
            Ok(token) => raydium_initialize(data@) matches Ok(init) && token.name@
                == init.base_mint_param.name && token.symbol@ == init.base_mint_param.symbol,
            Err(e) => raydium_initialize(data@) matches Err(err) && err == e,
        },
{
    let buf = payload(data)?;
    let init = InitializeData::try_from_slice(buf)?;
    Ok(InitializeSimple { name: init.base_mint_param.name, symbol: init.base_mint_param.symbol })
}

} // verus!
