//! Custom queries, the wrapper that routes them, and their answers.

use crate::proto_structs::{LiquidityTier, MarketPrice, PerpetualClobDetails, Subaccount};
use crate::route::DydxRoute;
use vstd::prelude::*;

verus! {

/// A custom query together with the route it takes.
#[derive(Clone, Debug, PartialEq)]
pub struct DydxQueryWrapper {
    pub route: DydxRoute,
    pub query_data: DydxQuery,
}

/// The queries that the chain answers.
#[derive(Clone, Debug, PartialEq)]
pub enum DydxQuery {
    MarketPrice { id: u32 },
    Subaccount { owner: String, number: u32 },
    PerpetualClobDetails { id: u32 },
    LiquidityTiers,
}

#[derive(Clone, Debug, PartialEq)]
pub struct SubaccountResponse {
    pub subaccount: Subaccount,
}

#[derive(Clone, Debug, PartialEq)]
pub struct MarketPriceResponse {
    pub market_price: MarketPrice,
}

#[derive(Clone, Debug, PartialEq)]
pub struct PerpetualClobDetailsResponse {
    pub perpetual_clob_details: PerpetualClobDetails,
}

#[derive(Clone, Debug, PartialEq)]
pub struct LiquidityTiersResponse {
    pub liquidity_tiers: Vec<LiquidityTier>,
}

impl DydxQuery {
    /// The route of each query: the module named like it.
    pub open spec fn spec_route(self) -> DydxRoute {
        match self {
            DydxQuery::MarketPrice { .. } => DydxRoute::MarketPrice,
            DydxQuery::Subaccount { .. } => DydxRoute::Subaccount,
            DydxQuery::PerpetualClobDetails { .. } => DydxRoute::PerpetualClobDetails,
            DydxQuery::LiquidityTiers => DydxRoute::LiquidityTiers,
        }
    }

    /// The route that this query takes.
    pub fn route(&self) -> (route: DydxRoute)
        ensures
            route == self.spec_route(),
    {
        match self {
            DydxQuery::MarketPrice { .. } => DydxRoute::MarketPrice,
            DydxQuery::Subaccount { .. } => DydxRoute::Subaccount,
            DydxQuery::PerpetualClobDetails { .. } => DydxRoute::PerpetualClobDetails,
            DydxQuery::LiquidityTiers => DydxRoute::LiquidityTiers,
        }
    }
}

impl DydxQueryWrapper {
    /// Whether the wrapper sends its query where the query belongs.
    pub open spec fn well_routed(self) -> bool {
        self.route == self.query_data.spec_route()
    }

    /// Wraps a query with its route.
    pub fn new(query_data: DydxQuery) -> (request: DydxQueryWrapper)
        ensures
            request.query_data == query_data,
            request.well_routed(),
    {
        let route = query_data.route();
        DydxQueryWrapper { route, query_data }
    }
}

} // verus!
