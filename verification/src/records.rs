//! The records that the decoders return.
//!
//! A record with text fields has a view in which each text is its sequence
//! of characters; the layouts are stated over those views.

use vstd::prelude::*;

verus! {

/// Name and symbol of a token: what a caller needs to identify it.
#[derive(Debug, Clone, PartialEq, Eq)]
pub struct InitializeSimple {
    pub name: String,
    pub symbol: String,
}

/// The arguments of a create-token instruction that carries a salt.
#[derive(Debug, Clone, PartialEq, Eq)]
pub struct CreateTokenBoopArgs {
    pub salt: u64,
    pub name: String,
    pub symbol: String,
    pub uri: String,
}

/// The view of [`CreateTokenBoopArgs`].
pub ghost struct CreateTokenBoopArgsView {
    pub salt: u64,
    pub name: Seq<char>,
    pub symbol: Seq<char>,
    pub uri: Seq<char>,
}

impl CreateTokenBoopArgsView {
    /// The three texts.
    pub open spec fn texts(self) -> InitializePoolParametersView {
        InitializePoolParametersView { name: self.name, symbol: self.symbol, uri: self.uri }
    }
}

impl View for CreateTokenBoopArgs {
    type V = CreateTokenBoopArgsView;

    open spec fn view(&self) -> CreateTokenBoopArgsView {
        CreateTokenBoopArgsView {
            salt: self.salt,
            name: self.name@,
            symbol: self.symbol@,
            uri: self.uri@,
        }
    }
}

/// The texts of a token: name, symbol and the address of its metadata.
#[derive(Debug, Clone, PartialEq, Eq)]
pub struct InitializePoolParameters {
    pub name: String,
    pub symbol: String,
    pub uri: String,
}

/// The view of [`InitializePoolParameters`].
pub ghost struct InitializePoolParametersView {
    pub name: Seq<char>,
    pub symbol: Seq<char>,
    pub uri: Seq<char>,
}

impl View for InitializePoolParameters {
    type V = InitializePoolParametersView;

    open spec fn view(&self) -> InitializePoolParametersView {
        InitializePoolParametersView { name: self.name@, symbol: self.symbol@, uri: self.uri@ }
    }
}

/// A curve with a constant product.
#[derive(Debug, Clone, Copy, PartialEq, Eq)]
pub struct ConstantCurve {
    pub supply: u64,
    pub total_base_sell: u64,
    pub total_quote_fund_raising: u64,
    pub migrate_type: u8,
}

/// A curve with a fixed price.
#[derive(Debug, Clone, Copy, PartialEq, Eq)]
pub struct FixedCurve {
    pub supply: u64,
    pub total_quote_fund_raising: u64,
    pub migrate_type: u8,
}

/// A curve with a linear price.
#[derive(Debug, Clone, Copy, PartialEq, Eq)]
pub struct LinearCurve {
    pub supply: u64,
    pub total_quote_fund_raising: u64,
    pub migrate_type: u8,
}

/// The curve of a pool: one of three shapes, told apart by a tag byte.
#[allow(inconsistent_fields)]
#[derive(Debug, Clone, Copy, PartialEq, Eq)]
pub enum CurveParams {
    Constant { data: ConstantCurve },
    Fixed { data: FixedCurve },
    Linear { data: LinearCurve },
}

/// How the locked tokens of a pool are released.
#[derive(Debug, Clone, Copy, PartialEq, Eq)]
pub struct VestingParam {
    /// Number of tokens locked.
    pub total_locked_amount: u64,
    /// Time before the first release.
    pub cliff_period: u64,
    /// Time over which the tokens are released.
    pub unlock_period: u64,
}

/// The base mint of a pool.
#[derive(Debug, Clone, PartialEq, Eq)]
pub struct MintParams {
    pub decimals: u8,
    pub name: String,
    pub symbol: String,
    pub uri: String,
}

/// The view of [`MintParams`].
pub ghost struct MintParamsView {
    pub decimals: u8,
    pub name: Seq<char>,
    pub symbol: Seq<char>,
    pub uri: Seq<char>,
}

impl MintParamsView {
    /// The three texts.
    pub open spec fn texts(self) -> InitializePoolParametersView {
        InitializePoolParametersView { name: self.name, symbol: self.symbol, uri: self.uri }
    }
}

impl View for MintParams {
    type V = MintParamsView;

    open spec fn view(&self) -> MintParamsView {
        MintParamsView {
            decimals: self.decimals,
            name: self.name@,
            symbol: self.symbol@,
            uri: self.uri@,
        }
    }
}

/// The arguments of a pool-initialize instruction.
#[derive(Debug, Clone, PartialEq, Eq)]
pub struct InitializeData {
    pub base_mint_param: MintParams,
    pub curve_param: CurveParams,
    pub vesting_param: VestingParam,
}

/// The view of [`InitializeData`].
pub ghost struct InitializeDataView {
    pub base_mint_param: MintParamsView,
    pub curve_param: CurveParams,
    pub vesting_param: VestingParam,
}

impl View for InitializeData {
    type V = InitializeDataView;

    open spec fn view(&self) -> InitializeDataView {
        InitializeDataView {
            base_mint_param: self.base_mint_param@,
            curve_param: self.curve_param,
            vesting_param: self.vesting_param,
        }
    }
}

/// What a create instruction says of a new token. The three addresses are
/// base-58 text.
#[derive(Debug, Clone, PartialEq, Eq)]
pub struct ComputedTokenMetaData {
    pub name: String,
    pub symbol: String,
    pub uri: String,
    pub mint: String,
    pub bonding_curve: String,
    pub developer: String,
}

/// What a pool-initialize instruction and its account list say of a new
/// token. The texts come from the instruction, the addresses from the list.
#[derive(Debug, Clone, PartialEq, Eq)]
pub struct MeteoraInitializeOut {
    pub name: String,
    pub symbol: String,
    pub uri: String,
    /// The base mint.
    pub mint: String,
    /// The pool.
    pub bonding_curve: String,
    /// The creator.
    pub developer: String,
}

/// The state of a bonding curve.
#[derive(Debug, Clone, Copy, PartialEq, Eq)]
pub struct CurveState {
    pub virtual_token_reserves: u64,
    pub virtual_sol_reserves: u64,
    pub real_token_reserves: u64,
    pub real_sol_reserves: u64,
    pub token_total_supply: u64,
    pub complete: bool,
}

/// The state of a launchpad pool. The two addresses are base-58 text.
#[derive(Debug, Clone, PartialEq, Eq)]
pub struct PoolState {
    pub epoch: u64,
    pub status: u8,
    pub base_decimals: u8,
    pub quote_decimals: u8,
    pub migrate_type: u8,
    pub supply: u64,
    pub total_base_sell: u64,
    pub virtual_base: u64,
    pub virtual_quote: u64,
    pub real_base: u64,
    pub real_quote: u64,
    pub total_quote_fund_raising: u64,
    pub global_config: String,
    pub quote_mint: String,
}

/// What is read of a launchpad's global configuration.
#[derive(Debug, Clone, Copy, PartialEq, Eq)]
pub struct GlobalConfig {
    pub curve_type: u8,
}

} // verus!
