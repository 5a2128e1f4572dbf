use dydx_cosmwasm::msg::{DydxMsg, OrderConditionType, OrderSide, OrderTimeInForce};
use dydx_cosmwasm::proto_structs::{
    AssetPosition, LiquidityTier, MarketPrice, PerpetualMarketType, Status, Subaccount,
    SubaccountId,
};
use dydx_cosmwasm::querier::{
    liquidity_tiers_request, liquidity_tiers_response, market_price_request,
    market_price_response, perpetual_clob_details_request, subaccount_request,
    subaccount_response,
};
use dydx_cosmwasm::query::{DydxQuery, DydxQueryWrapper};
use dydx_cosmwasm::route::DydxRoute;
use dydx_cosmwasm::serializable_int::SerializableInt;

#[test]
fn status_wire_numbers() {
    let all = [
        (Status::Unspecified, 0u8),
        (Status::Active, 1),
        (Status::Paused, 2),
        (Status::CancelOnly, 3),
        (Status::PostOnly, 4),
        (Status::Initializing, 5),
        (Status::FinalSettlement, 6),
    ];
    for (status, code) in all {
        assert_eq!(status.repr(), code);
        assert_eq!(Status::from_repr(code), Some(status));
    }
    assert_eq!(Status::from_repr(7), None);
    assert_eq!(Status::from_repr(255), None);
}

#[test]
fn market_type_wire_numbers() {
    let all = [
        (PerpetualMarketType::Unspecified, 0u8),
        (PerpetualMarketType::Cross, 1),
        (PerpetualMarketType::Isolated, 2),
    ];
    for (market_type, code) in all {
        assert_eq!(market_type.repr(), code);
        assert_eq!(PerpetualMarketType::from_repr(code), Some(market_type));
    }
    assert_eq!(PerpetualMarketType::from_repr(3), None);
}

#[test]
fn order_wire_numbers() {
    assert_eq!(OrderSide::Unspecified.repr(), 0);
    assert_eq!(OrderSide::Buy.repr(), 1);
    assert_eq!(OrderSide::Sell.repr(), 2);
    assert_eq!(OrderSide::from_repr(2), Some(OrderSide::Sell));
    assert_eq!(OrderSide::from_repr(3), None);
    assert_eq!(OrderTimeInForce::Unspecified.repr(), 0);
    assert_eq!(OrderTimeInForce::Ioc.repr(), 1);
    assert_eq!(OrderTimeInForce::PostOnly.repr(), 2);
    assert_eq!(OrderTimeInForce::FillOrKill.repr(), 3);
    assert_eq!(OrderTimeInForce::from_repr(3), Some(OrderTimeInForce::FillOrKill));
    assert_eq!(OrderTimeInForce::from_repr(4), None);
    assert_eq!(OrderConditionType::Unspecified.repr(), 0);
    assert_eq!(OrderConditionType::StopLoss.repr(), 1);
    assert_eq!(OrderConditionType::TakeProfit.repr(), 2);
    assert_eq!(OrderConditionType::from_repr(1), Some(OrderConditionType::StopLoss));
    assert_eq!(OrderConditionType::from_repr(u32::MAX), None);
}

#[test]
fn each_query_takes_its_route() {
    assert_eq!(DydxQuery::MarketPrice { id: 3 }.route(), DydxRoute::MarketPrice);
    assert_eq!(
        DydxQuery::Subaccount { owner: "a".to_string(), number: 0 }.route(),
        DydxRoute::Subaccount
    );
    assert_eq!(DydxQuery::PerpetualClobDetails { id: 1 }.route(), DydxRoute::PerpetualClobDetails);
    assert_eq!(DydxQuery::LiquidityTiers.route(), DydxRoute::LiquidityTiers);
    let wrapped = DydxQueryWrapper::new(DydxQuery::MarketPrice { id: 3 });
    assert_eq!(wrapped.route, DydxRoute::MarketPrice);
    assert_eq!(wrapped.query_data, DydxQuery::MarketPrice { id: 3 });
}

#[test]
fn requests_of_the_querier() {
    assert_eq!(
        market_price_request(5),
        DydxQueryWrapper {
            route: DydxRoute::MarketPrice,
            query_data: DydxQuery::MarketPrice { id: 5 }
        }
    );
    assert_eq!(
        subaccount_request("owner".to_string(), 2),
        DydxQueryWrapper {
            route: DydxRoute::Subaccount,
            query_data: DydxQuery::Subaccount { owner: "owner".to_string(), number: 2 }
        }
    );
    assert_eq!(
        perpetual_clob_details_request(8),
        DydxQueryWrapper {
            route: DydxRoute::PerpetualClobDetails,
            query_data: DydxQuery::PerpetualClobDetails { id: 8 }
        }
    );
    assert_eq!(
        liquidity_tiers_request(),
        DydxQueryWrapper {
            route: DydxRoute::LiquidityTiers,
            query_data: DydxQuery::LiquidityTiers
        }
    );
}

#[test]
fn responses_of_the_querier() {
    let price = MarketPrice { id: 1, exponent: -5, price: 2_000_000 };
    assert_eq!(market_price_response(price.clone()).market_price, price);
    let subaccount = Subaccount {
        id: Some(SubaccountId { owner: "o".to_string(), number: 1 }),
        asset_positions: vec![AssetPosition {
            asset_id: 0,
            quantums: SerializableInt::from_text("-255").unwrap(),
            index: 0,
        }],
        perpetual_positions: vec![],
        margin_enabled: true,
    };
    assert_eq!(subaccount_response(subaccount.clone()).subaccount, subaccount);
    let tier = LiquidityTier {
        id: 0,
        name: "Gold".to_string(),
        initial_margin_ppm: 50_000,
        maintenance_fraction_ppm: 600_000,
        impact_notional: 10_000_000_000,
        open_interest_lower_cap: 0,
        open_interest_upper_cap: 0,
    };
    assert_eq!(liquidity_tiers_response(vec![tier.clone()]).liquidity_tiers, vec![tier]);
}

#[test]
fn messages_compare_by_their_fields() {
    let a = DydxMsg::DepositToSubaccountV1 {
        recipient: SubaccountId { owner: "b".to_string(), number: 0 },
        asset_id: 0,
        quantums: 10000000000,
    };
    let b = DydxMsg::WithdrawFromSubaccountV1 {
        subaccount_number: 0,
        recipient: "b".to_string(),
        asset_id: 0,
        quantums: 10000000000,
    };
    assert_eq!(a.clone(), a);
    assert_ne!(a, b);
}
