//! The modules of the chain that answer custom queries.

use vstd::prelude::*;

verus! {

/// The route of a custom query: the module that answers it.
#[derive(Clone, Copy, Debug, PartialEq, Eq)]
pub enum DydxRoute {
    Oracle,
    MarketPrice,
    Subaccount,
    PerpetualClobDetails,
    LiquidityTiers,
}

} // verus!
