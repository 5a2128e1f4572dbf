//! The records that the chain's custom queries answer with, as they stand
//! in JSON.

use crate::serializable_int::SerializableInt;
use vstd::prelude::*;

verus! {

#[derive(Clone, Debug, PartialEq, Eq)]
pub struct MarketPrice {
    pub id: u32,
    pub exponent: i32,
    pub price: u64,
}

/// A position in an asset, its size as a decimal-string integer.
#[derive(Clone, Debug, PartialEq, Eq)]
pub struct AssetPosition {
    pub asset_id: u32,
    pub quantums: SerializableInt,
    pub index: u64,
}

/// A position in a perpetual, its size and funding index as decimal-string
/// integers.
#[derive(Clone, Debug, PartialEq, Eq)]
pub struct PerpetualPosition {
    pub perpetual_id: u32,
    pub quantums: SerializableInt,
    pub funding_index: SerializableInt,
}

#[derive(Clone, Debug, PartialEq, Eq)]
pub struct SubaccountId {
    pub owner: String,
    pub number: u32,
}

#[derive(Clone, Debug, PartialEq, Eq)]
pub struct Subaccount {
    pub id: Option<SubaccountId>,
    pub asset_positions: Vec<AssetPosition>,
    pub perpetual_positions: Vec<PerpetualPosition>,
    pub margin_enabled: bool,
}

#[derive(Clone, Debug, PartialEq, Eq)]
pub struct ClobPair {
    pub id: u32,
    pub metadata: Metadata,
    pub step_base_quantums: u64,
    pub subticks_per_tick: u32,
    pub quantum_conversion_exponent: i32,
    pub status: Status,
}

#[derive(Clone, Debug, PartialEq, Eq)]
pub enum Metadata {
    PerpetualClobMetadata(PerpetualClobMetadata),
    SpotClobMetadata(SpotClobMetadata),
}

#[derive(Clone, Debug, PartialEq, Eq)]
pub struct PerpetualClobMetadata {
    pub perpetual_id: u32,
}

#[derive(Clone, Debug, PartialEq, Eq)]
pub struct SpotClobMetadata {
    pub base_asset_id: u32,
    pub quote_asset_id: u32,
}

/// The state of a CLOB pair. On the wire it is the number that `repr` gives.
#[derive(Clone, Copy, Debug, PartialEq, Eq)]
pub enum Status {
    Unspecified,
    Active,
    Paused,
    CancelOnly,
    PostOnly,
    Initializing,
    FinalSettlement,
}

impl Status {
    /// The wire number of each variant.
    pub open spec fn spec_repr(self) -> u8 {
        match self {
            Status::Unspecified => 0,
            Status::Active => 1,
            Status::Paused => 2,
            Status::CancelOnly => 3,
            Status::PostOnly => 4,
            Status::Initializing => 5,
            Status::FinalSettlement => 6,
        }
    }

    /// The variant of each wire number that has one.
    pub open spec fn spec_from_repr(code: u8) -> Option<Status> {
        match code {
            0 => Some(Status::Unspecified),
            1 => Some(Status::Active),
            2 => Some(Status::Paused),
            3 => Some(Status::CancelOnly),
            4 => Some(Status::PostOnly),
            5 => Some(Status::Initializing),
            6 => Some(Status::FinalSettlement),
            _ => None,
        }
    }

    /// The number that stands for the status on the wire.
    pub fn repr(&self) -> (code: u8)
        ensures
            code == self.spec_repr(),
    {
        match self {
            Status::Unspecified => 0,
            Status::Active => 1,
            Status::Paused => 2,
            Status::CancelOnly => 3,
            Status::PostOnly => 4,
            Status::Initializing => 5,
            Status::FinalSettlement => 6,
        }
    }

    /// The status that a wire number stands for, if it stands for one.
    pub fn from_repr(code: u8) -> (status: Option<Status>)
        ensures
            status == Status::spec_from_repr(code),
            status is Some <==> code <= 6,
    {
        match code {
            0 => Some(Status::Unspecified),
            1 => Some(Status::Active),
            2 => Some(Status::Paused),
            3 => Some(Status::CancelOnly),
            4 => Some(Status::PostOnly),
            5 => Some(Status::Initializing),
            6 => Some(Status::FinalSettlement),
            _ => None,
        }
    }

    /// Every status comes back from its wire number, and every wire number
    /// that stands for a status is the number of that status.
    pub proof fn lemma_repr_round_trip(status: Status, code: u8)
        ensures
            Status::spec_from_repr(status.spec_repr()) == Some(status),
            Status::spec_from_repr(code) matches Some(s) ==> s.spec_repr() == code,
    {
    }
}

#[derive(Clone, Debug, PartialEq, Eq)]
pub struct Perpetual {
    pub params: PerpetualParams,
    pub funding_index: SerializableInt,
    pub open_interest: SerializableInt,
}

#[derive(Clone, Debug, PartialEq, Eq)]
pub struct PerpetualParams {
    pub id: u32,
    pub ticker: String,
    pub market_id: u32,
    pub atomic_resolution: i32,
    pub default_funding_ppm: i32,
    pub liquidity_tier: u32,
    pub market_type: PerpetualMarketType,
}

/// Whether a perpetual is margined across markets or alone. On the wire it
/// is the number that `repr` gives.
#[derive(Clone, Copy, Debug, PartialEq, Eq)]
pub enum PerpetualMarketType {
    Unspecified,
    Cross,
    Isolated,
}

impl PerpetualMarketType {
    /// The wire number of each variant.
    pub open spec fn spec_repr(self) -> u8 {
        match self {
            PerpetualMarketType::Unspecified => 0,
            PerpetualMarketType::Cross => 1,
            PerpetualMarketType::Isolated => 2,
        }
    }

    /// The variant of each wire number that has one.
    pub open spec fn spec_from_repr(code: u8) -> Option<PerpetualMarketType> {
        match code {
            0 => Some(PerpetualMarketType::Unspecified),
            1 => Some(PerpetualMarketType::Cross),
            2 => Some(PerpetualMarketType::Isolated),
            _ => None,
        }
    }

    /// The number that stands for the market type on the wire.
    pub fn repr(&self) -> (code: u8)
        ensures
            code == self.spec_repr(),
    {
        match self {
            PerpetualMarketType::Unspecified => 0,
            PerpetualMarketType::Cross => 1,
            PerpetualMarketType::Isolated => 2,
        }
    }

    /// The market type that a wire number stands for, if it stands for one.
    pub fn from_repr(code: u8) -> (market_type: Option<PerpetualMarketType>)
        ensures
            market_type == PerpetualMarketType::spec_from_repr(code),
            market_type is Some <==> code <= 2,
    {
        match code {
            0 => Some(PerpetualMarketType::Unspecified),
            1 => Some(PerpetualMarketType::Cross),
            2 => Some(PerpetualMarketType::Isolated),
            _ => None,
        }
    }

    /// Every market type comes back from its wire number, and every wire
    /// number that stands for a market type is the number of that type.
    pub proof fn lemma_repr_round_trip(market_type: PerpetualMarketType, code: u8)
        ensures
            PerpetualMarketType::spec_from_repr(market_type.spec_repr()) == Some(market_type),
            PerpetualMarketType::spec_from_repr(code) matches Some(m) ==> m.spec_repr() == code,
    {
    }
}

#[derive(Clone, Debug, PartialEq, Eq)]
pub struct PerpetualClobDetails {
    pub perpetual: Perpetual,
    pub clob_pair: ClobPair,
}

/// LiquidityTier stores margin information.
#[derive(Clone, Debug, PartialEq, Eq)]
pub struct LiquidityTier {
    /// Unique id.
    pub id: u32,
    /// The name of the tier purely for mnemonic purposes, e.g. "Gold".
    pub name: String,
    /// The margin fraction needed to open a position.
    /// In parts-per-million.
    pub initial_margin_ppm: u32,
    /// The fraction of the initial-margin that the maintenance-margin is,
    /// e.g. 50%. In parts-per-million.
    pub maintenance_fraction_ppm: u32,
    /// The impact notional amount (in quote quantums) is used to determine
    /// impact bid/ask prices and its recommended value is 500 USDC / initial
    /// margin fraction.
    pub impact_notional: u64,
    /// Lower cap for Open Interest Margin Fraction (OIMF), in quote quantums.
    /// IMF is not affected when OI <= open_interest_lower_cap.
    pub open_interest_lower_cap: u64,
    /// Upper cap for Open Interest Margin Fraction (OIMF), in quote quantums.
    /// IMF scales linearly to 100% as OI approaches open_interest_upper_cap.
    /// If zero, then the IMF does not scale with OI.
    pub open_interest_upper_cap: u64,
}

} // verus!
