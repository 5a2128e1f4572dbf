//! The requests behind the querier's four questions. Sending them is the
//! host's business; what is sent is decided here.

use crate::proto_structs::{LiquidityTier, MarketPrice, PerpetualClobDetails, Subaccount};
use crate::query::{
    DydxQuery, DydxQueryWrapper, LiquidityTiersResponse, MarketPriceResponse,
    PerpetualClobDetailsResponse, SubaccountResponse,
};
use crate::route::DydxRoute;
use vstd::prelude::*;

verus! {

/// The request for the price of a market.
pub fn market_price_request(market_id: u32) -> (request: DydxQueryWrapper)
    ensures
        request == (DydxQueryWrapper {
            route: DydxRoute::MarketPrice,
            query_data: DydxQuery::MarketPrice { id: market_id },
        }),
        request.well_routed(),
{
    DydxQueryWrapper {
        route: DydxRoute::MarketPrice,
        query_data: DydxQuery::MarketPrice { id: market_id },
    }
}

/// The request for a subaccount of an owner.
pub fn subaccount_request(owner: String, number: u32) -> (request: DydxQueryWrapper)
    ensures
        request == (DydxQueryWrapper {
            route: DydxRoute::Subaccount,
            query_data: DydxQuery::Subaccount { owner, number },
        }),
        request.well_routed(),
{
    DydxQueryWrapper {
        route: DydxRoute::Subaccount,
        query_data: DydxQuery::Subaccount { owner, number },
    }
}

/// The request for a perpetual and its CLOB pair.
pub fn perpetual_clob_details_request(perpetual_id: u32) -> (request: DydxQueryWrapper)
    ensures
        request == (DydxQueryWrapper {
            route: DydxRoute::PerpetualClobDetails,
            query_data: DydxQuery::PerpetualClobDetails { id: perpetual_id },
        }),
        request.well_routed(),
{
    DydxQueryWrapper {
        route: DydxRoute::PerpetualClobDetails,
        query_data: DydxQuery::PerpetualClobDetails { id: perpetual_id },
    }
}

/// The request for all liquidity tiers.
pub fn liquidity_tiers_request() -> (request: DydxQueryWrapper)
    ensures
        request == (DydxQueryWrapper {
            route: DydxRoute::LiquidityTiers,
            query_data: DydxQuery::LiquidityTiers,
        }),
        request.well_routed(),
{
    DydxQueryWrapper { route: DydxRoute::LiquidityTiers, query_data: DydxQuery::LiquidityTiers }
}

/// The answer to a market-price question, around what the host returned.
pub fn market_price_response(market_price: MarketPrice) -> (response: MarketPriceResponse)
    ensures
        response.market_price == market_price,
{
    MarketPriceResponse { market_price }
}

/// The answer to a subaccount question, around what the host returned.
pub fn subaccount_response(subaccount: Subaccount) -> (response: SubaccountResponse)
    ensures
        response.subaccount == subaccount,
{
    SubaccountResponse { subaccount }
}

/// The answer to a perpetual question, around what the host returned.
pub fn perpetual_clob_details_response(perpetual_clob_details: PerpetualClobDetails) -> (response:
    PerpetualClobDetailsResponse)
    ensures
        response.perpetual_clob_details == perpetual_clob_details,
{
    PerpetualClobDetailsResponse { perpetual_clob_details }
}

/// The answer to a liquidity-tier question, around what the host returned.
pub fn liquidity_tiers_response(liquidity_tiers: Vec<LiquidityTier>) -> (response:
    LiquidityTiersResponse)
    ensures
        response.liquidity_tiers == liquidity_tiers,
{
    LiquidityTiersResponse { liquidity_tiers }
}

} // verus!
