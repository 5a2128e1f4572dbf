//! Subaccounts as the chain keeps them: every quantity is a signed byte
//! quantity, a sign marker followed by a big-endian magnitude.

use vstd::prelude::*;

verus! {

/// A position in an asset. `quantums` is its size.
#[derive(Clone, Debug, PartialEq, Eq)]
pub struct AssetPosition {
    pub asset_id: u32,
    pub quantums: Vec<u8>,
    pub index: u64,
}

/// A position in a perpetual. `quantums` is its size, `funding_index` the
/// funding index of the perpetual when the position was last settled.
#[derive(Clone, Debug, PartialEq, Eq)]
pub struct PerpetualPosition {
    pub perpetual_id: u32,
    pub quantums: Vec<u8>,
    pub funding_index: Vec<u8>,
}

/// What tells one subaccount from another: its owner and a number.
#[derive(Clone, Debug, PartialEq, Eq)]
pub struct SubaccountId {
    pub owner: String,
    pub number: u32,
}

/// One subaccount with all its positions.
#[derive(Clone, Debug, PartialEq, Eq)]
pub struct Subaccount {
    pub id: Option<SubaccountId>,
    pub asset_positions: Vec<AssetPosition>,
    pub perpetual_positions: Vec<PerpetualPosition>,
    pub margin_enabled: bool,
}

} // verus!
