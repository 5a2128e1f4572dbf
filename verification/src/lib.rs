//! Big-integer interchange for dYdX position data: decoding the chain's
//! sign-and-magnitude byte quantities, the decimal-string form that such
//! integers take in JSON, and the mapping from raw subaccount records to
//! decoded ones. The message and query types of the chain's custom module
//! are here too, each query with the route it takes.

pub mod bigint;
pub mod bytes_helper;
pub mod decimal;
pub mod msg;
pub mod proto_structs;
pub mod querier;
pub mod query;
pub mod response_helper;
pub mod route;
pub mod serializable_int;
pub mod subaccounts;

pub use decimal::ParseError;
pub use msg::{DydxMsg, OrderConditionType, OrderSide, OrderTimeInForce};
pub use proto_structs::{
    AssetPosition, ClobPair, LiquidityTier, MarketPrice, Metadata, Perpetual,
    PerpetualClobDetails, PerpetualClobMetadata, PerpetualMarketType, PerpetualParams,
    PerpetualPosition, SpotClobMetadata, Status, Subaccount, SubaccountId,
};
pub use query::{
    DydxQuery, DydxQueryWrapper, LiquidityTiersResponse, MarketPriceResponse,
    PerpetualClobDetailsResponse, SubaccountResponse,
};
pub use response_helper::{AssetPositionBigInt, PerpetualPositionBigInt, SubaccountBigInt};
pub use route::DydxRoute;
pub use serializable_int::{InstanceType, SchemaDescription, SerializableInt};
