//! From a subaccount as the chain sends it to one whose quantities are
//! decoded integers.

use crate::bigint::bigint_value;
use crate::bytes_helper::{bytes_to_bigint, decoded_value};
use crate::subaccounts::{AssetPosition, PerpetualPosition, Subaccount, SubaccountId};
use num_bigint::BigInt;
use vstd::prelude::*;

verus! {

#[derive(Clone, Debug, PartialEq)]
pub struct AssetPositionBigInt {
    pub asset_id: u32,
    pub quantums: BigInt,
    pub index: u64,
}

#[derive(Clone, Debug, PartialEq)]
pub struct PerpetualPositionBigInt {
    pub perpetual_id: u32,
    pub quantums: BigInt,
    pub funding_index: BigInt,
}

#[derive(Clone, Debug, PartialEq)]
pub struct SubaccountBigInt {
    pub id: Option<SubaccountId>,
    pub asset_positions: Vec<AssetPositionBigInt>,
    pub perpetual_positions: Vec<PerpetualPositionBigInt>,
    pub margin_enabled: bool,
}

impl AssetPositionBigInt {
    /// Whether this is `raw` with its size decoded and the rest untouched.
    pub open spec fn decodes(self, raw: AssetPosition) -> bool {
        &&& self.asset_id == raw.asset_id
        &&& bigint_value(self.quantums) == decoded_value(raw.quantums@)
        &&& self.index == raw.index
    }
}

impl PerpetualPositionBigInt {
    /// Whether this is `raw` with its size and funding index decoded and the
    /// rest untouched.
    pub open spec fn decodes(self, raw: PerpetualPosition) -> bool {
        &&& self.perpetual_id == raw.perpetual_id
        &&& bigint_value(self.quantums) == decoded_value(raw.quantums@)
        &&& bigint_value(self.funding_index) == decoded_value(raw.funding_index@)
    }
}

impl SubaccountBigInt {
    /// Whether this is `raw` with every position decoded in its place:
    /// as many positions, in the same order, and the identifier and the
    /// margin flag as they were.
    pub open spec fn decodes(self, raw: Subaccount) -> bool {
        &&& self.id == raw.id
        &&& self.margin_enabled == raw.margin_enabled
        &&& self.asset_positions@.len() == raw.asset_positions@.len()
        &&& forall|k: int|
            0 <= k < raw.asset_positions@.len() ==> (#[trigger] self.asset_positions@[k]).decodes(
                raw.asset_positions@[k],
            )
        &&& self.perpetual_positions@.len() == raw.perpetual_positions@.len()
        &&& forall|k: int|
            0 <= k < raw.perpetual_positions@.len() ==> (
            #[trigger] self.perpetual_positions@[k]).decodes(raw.perpetual_positions@[k])
    }
}

/// Decodes the quantities of one asset position.
pub fn transform_asset_position(raw: AssetPosition) -> (decoded: AssetPositionBigInt)
    ensures
        decoded.decodes(raw),
{
    AssetPositionBigInt {
        asset_id: raw.asset_id,
        quantums: bytes_to_bigint(raw.quantums),
        index: raw.index,
    }
}

/// Decodes the quantities of one perpetual position.
pub fn transform_perpetual_position(raw: PerpetualPosition) -> (decoded: PerpetualPositionBigInt)
    ensures
        decoded.decodes(raw),
{
    PerpetualPositionBigInt {
        perpetual_id: raw.perpetual_id,
        quantums: bytes_to_bigint(raw.quantums),
        funding_index: bytes_to_bigint(raw.funding_index),
    }
}

/// Replaces every byte quantity of a subaccount by the integer it stands
/// for. Nothing is reordered, dropped or checked, and nothing can fail.
pub fn transform_subaccount(subaccount: Subaccount) -> (decoded: SubaccountBigInt)
    ensures
        decoded.decodes(subaccount),
{
    let Subaccount { id, asset_positions, perpetual_positions, margin_enabled } = subaccount;
    let ghost raw_assets = asset_positions@;
    let ghost raw_perpetuals = perpetual_positions@;

    let mut assets: Vec<AssetPositionBigInt> = Vec::new();
    for ap in it: asset_positions
        invariant
            it.seq() == raw_assets,
            assets@.len() == it.index(),
            forall|k: int| 0 <= k < assets@.len() ==> (#[trigger] assets@[k]).decodes(raw_assets[k]),
    {
        assets.push(transform_asset_position(ap));
    }

    let mut perpetuals: Vec<PerpetualPositionBigInt> = Vec::new();
    for pp in it: perpetual_positions
        invariant
            it.seq() == raw_perpetuals,
            perpetuals@.len() == it.index(),
            forall|k: int|
                0 <= k < perpetuals@.len() ==> (#[trigger] perpetuals@[k]).decodes(
                    raw_perpetuals[k],
                ),
    {
        perpetuals.push(transform_perpetual_position(pp));
    }

    SubaccountBigInt { id, asset_positions: assets, perpetual_positions: perpetuals, margin_enabled }
}

} // verus!
