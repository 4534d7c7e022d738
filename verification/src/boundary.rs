//! Records as they are handed over the boundary to the caller.
//!
//! A record is handed over as a list of named values. A 64-bit number stays
//! a 64-bit number, so that the caller can deliver it in a representation
//! that loses none of it; a key is handed over as its base-58 text.

use vstd::prelude::*;
use crate::records::{CurveState, GlobalConfig, PoolState};

verus! {

/// A value at the boundary.
#[derive(Debug, Clone, PartialEq, Eq)]
pub enum BoundaryValue {
    /// A text, such as a key in base 58.
    Text(String),
    /// A number that needs all of 64 bits.
    Wide(u64),
    /// A number that fits in a byte.
    Small(u8),
    /// A flag.
    Flag(bool),
}

/// The view of [`BoundaryValue`].
pub ghost enum BoundaryValueView {
    Text(Seq<char>),
    Wide(u64),
    Small(u8),
    Flag(bool),
}

impl View for BoundaryValue {
    type V = BoundaryValueView;

    open spec fn view(&self) -> BoundaryValueView {
        match *self {
            BoundaryValue::Text(text) => BoundaryValueView::Text(text@),
            BoundaryValue::Wide(v) => BoundaryValueView::Wide(v),
            BoundaryValue::Small(v) => BoundaryValueView::Small(v),
            BoundaryValue::Flag(v) => BoundaryValueView::Flag(v),
        }
    }
}

/// A value at the boundary and the name under which it is handed over.
#[derive(Debug, Clone, PartialEq, Eq)]
pub struct BoundaryField {
    pub key: &'static str,
    pub value: BoundaryValue,
}

impl View for BoundaryField {
    type V = (Seq<char>, BoundaryValueView);

    open spec fn view(&self) -> (Seq<char>, BoundaryValueView) {
        (self.key@, self.value@)
    }
}

/// The views of a list of fields.
pub open spec fn field_views(fields: Seq<BoundaryField>) -> Seq<(Seq<char>, BoundaryValueView)> {
    Seq::new(fields.len(), |i: int| fields[i]@)
}

/// The fields of a bonding curve's state.
pub open spec fn curve_state_fields(s: CurveState) -> Seq<(Seq<char>, BoundaryValueView)> {
    seq![
        ("virtual_token_reserves"@, BoundaryValueView::Wide(s.virtual_token_reserves)),
        ("virtual_sol_reserves"@, BoundaryValueView::Wide(s.virtual_sol_reserves)),
        ("real_token_reserves"@, BoundaryValueView::Wide(s.real_token_reserves)),
        ("real_sol_reserves"@, BoundaryValueView::Wide(s.real_sol_reserves)),
        ("token_total_supply"@, BoundaryValueView::Wide(s.token_total_supply)),
        ("complete"@, BoundaryValueView::Flag(s.complete)),
    ]
}

/// The fields of a pool's state.
pub open spec fn pool_state_fields(s: PoolState) -> Seq<(Seq<char>, BoundaryValueView)> {
    seq![
        ("status"@, BoundaryValueView::Small(s.status)),
        ("virtualBase"@, BoundaryValueView::Wide(s.virtual_base)),
        ("globalConfig"@, BoundaryValueView::Text(s.global_config@)),
        ("quoteMint"@, BoundaryValueView::Text(s.quote_mint@)),
        ("virtualQuote"@, BoundaryValueView::Wide(s.virtual_quote)),
        ("realBase"@, BoundaryValueView::Wide(s.real_base)),
        ("realQuote"@, BoundaryValueView::Wide(s.real_quote)),
        ("supply"@, BoundaryValueView::Wide(s.supply)),
        ("totalBaseSell"@, BoundaryValueView::Wide(s.total_base_sell)),
        ("totalQuoteFundRaising"@, BoundaryValueView::Wide(s.total_quote_fund_raising)),
        ("baseDecimals"@, BoundaryValueView::Small(s.base_decimals)),
        ("quoteDecimals"@, BoundaryValueView::Small(s.quote_decimals)),
        ("migrateType"@, BoundaryValueView::Small(s.migrate_type)),
        ("epoch"@, BoundaryValueView::Wide(s.epoch)),
    ]
}

/// The fields of a global configuration.
pub open spec fn global_config_fields(s: GlobalConfig) -> Seq<(Seq<char>, BoundaryValueView)> {
    seq![("curveType"@, BoundaryValueView::Small(s.curve_type))]
}

fn wide(key: &'static str, v: u64) -> (field: BoundaryField)
    ensures
        field@ == (key@, BoundaryValueView::Wide(v)),
{
    BoundaryField { key, value: BoundaryValue::Wide(v) }
}

fn small(key: &'static str, v: u8) -> (field: BoundaryField)
    ensures
        field@ == (key@, BoundaryValueView::Small(v)),
{
    BoundaryField { key, value: BoundaryValue::Small(v) }
}

fn text(key: &'static str, v: &String) -> (field: BoundaryField)
    ensures
        field@ == (key@, BoundaryValueView::Text(v@)),
{
    BoundaryField { key, value: BoundaryValue::Text(v.clone()) }
}

impl CurveState {
    /// The fields of this state, in the order in which they are handed over.
    pub fn project(&self) -> (fields: Vec<BoundaryField>)
        ensures
            field_views(fields@) == curve_state_fields(*self),
    {
        let mut fields: Vec<BoundaryField> = Vec::new();
        fields.push(wide("virtual_token_reserves", self.virtual_token_reserves));
        fields.push(wide("virtual_sol_reserves", self.virtual_sol_reserves));
        fields.push(wide("real_token_reserves", self.real_token_reserves));
        fields.push(wide("real_sol_reserves", self.real_sol_reserves));
        fields.push(wide("token_total_supply", self.token_total_supply));
        fields.push(BoundaryField { key: "complete", value: BoundaryValue::Flag(self.complete) });
        assert(field_views(fields@) =~= curve_state_fields(*self));
        fields
    }
}

impl PoolState {
    /// The fields of this state, in the order in which they are handed over.
    pub fn project(&self) -> (fields: Vec<BoundaryField>)
        ensures
            field_views(fields@) == pool_state_fields(*self),
    {
        let mut fields: Vec<BoundaryField> = Vec::new();
        fields.push(small("status", self.status));
        fields.push(wide("virtualBase", self.virtual_base));
        fields.push(text("globalConfig", &self.global_config));
        fields.push(text("quoteMint", &self.quote_mint));
        fields.push(wide("virtualQuote", self.virtual_quote));
        fields.push(wide("realBase", self.real_base));
        fields.push(wide("realQuote", self.real_quote));
        fields.push(wide("supply", self.supply));
        fields.push(wide("totalBaseSell", self.total_base_sell));
        fields.push(wide("totalQuoteFundRaising", self.total_quote_fund_raising));
        fields.push(small("baseDecimals", self.base_decimals));
        fields.push(small("quoteDecimals", self.quote_decimals));
        fields.push(small("migrateType", self.migrate_type));
        fields.push(wide("epoch", self.epoch));
        assert(field_views(fields@) =~= pool_state_fields(*self));
        fields
    }
}

impl GlobalConfig {
    /// The fields of this configuration.
    pub fn project(&self) -> (fields: Vec<BoundaryField>)
        ensures
            field_views(fields@) == global_config_fields(*self),
    {
        let mut fields: Vec<BoundaryField> = Vec::new();
        fields.push(small("curveType", self.curve_type));
        assert(field_views(fields@) =~= global_config_fields(*self));
        fields
    }
}

} // verus!
