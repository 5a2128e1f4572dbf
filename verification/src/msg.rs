//! The messages that a contract can hand to the chain.

use crate::proto_structs::SubaccountId;
use vstd::prelude::*;

verus! {

/// The side of an order. On the wire it is the number that `repr` gives.
#[derive(Clone, Copy, Debug, PartialEq, Eq)]
pub enum OrderSide {
    Unspecified,
    Buy,
    Sell,
}

impl OrderSide {
    /// The wire number of each variant.
    pub open spec fn spec_repr(self) -> u32 {
        match self {
            OrderSide::Unspecified => 0,
            OrderSide::Buy => 1,
            OrderSide::Sell => 2,
        }
    }

    /// The variant of each wire number that has one.
    pub open spec fn spec_from_repr(code: u32) -> Option<OrderSide> {
        match code {
            0 => Some(OrderSide::Unspecified),
            1 => Some(OrderSide::Buy),
            2 => Some(OrderSide::Sell),
            _ => None,
        }
    }

    /// The number that stands for the side on the wire.
    pub fn repr(&self) -> (code: u32)
        ensures
            code == self.spec_repr(),
    {
        match self {
            OrderSide::Unspecified => 0,
            OrderSide::Buy => 1,
            OrderSide::Sell => 2,
        }
    }

    /// The side that a wire number stands for, if it stands for one.
    pub fn from_repr(code: u32) -> (value: Option<OrderSide>)
        ensures
            value == OrderSide::spec_from_repr(code),
            value is Some <==> code <= 2,
    {
        match code {
            0 => Some(OrderSide::Unspecified),
            1 => Some(OrderSide::Buy),
            2 => Some(OrderSide::Sell),
            _ => None,
        }
    }

    /// Every side comes back from its wire number, and every wire number
    /// that stands for one is the number of that side.
    pub proof fn lemma_repr_round_trip(value: OrderSide, code: u32)
        ensures
            OrderSide::spec_from_repr(value.spec_repr()) == Some(value),
            OrderSide::spec_from_repr(code) matches Some(v) ==> v.spec_repr() == code,
    {
    }
}

/// How long an order stays in force. On the wire it is the number that
/// `repr` gives.
#[derive(Clone, Copy, Debug, PartialEq, Eq)]
pub enum OrderTimeInForce {
    Unspecified,
    Ioc,
    PostOnly,
    FillOrKill,
}

impl OrderTimeInForce {
    /// The wire number of each variant.
    pub open spec fn spec_repr(self) -> u32 {
        match self {
            OrderTimeInForce::Unspecified => 0,
            OrderTimeInForce::Ioc => 1,
            OrderTimeInForce::PostOnly => 2,
            OrderTimeInForce::FillOrKill => 3,
        }
    }

    /// The variant of each wire number that has one.
    pub open spec fn spec_from_repr(code: u32) -> Option<OrderTimeInForce> {
        match code {
            0 => Some(OrderTimeInForce::Unspecified),
            1 => Some(OrderTimeInForce::Ioc),
            2 => Some(OrderTimeInForce::PostOnly),
            3 => Some(OrderTimeInForce::FillOrKill),
            _ => None,
        }
    }

    /// The number that stands for the time in force on the wire.
    pub fn repr(&self) -> (code: u32)
        ensures
            code == self.spec_repr(),
    {
        match self {
            OrderTimeInForce::Unspecified => 0,
            OrderTimeInForce::Ioc => 1,
            OrderTimeInForce::PostOnly => 2,
            OrderTimeInForce::FillOrKill => 3,
        }
    }

    /// The time in force that a wire number stands for, if it stands for one.
    pub fn from_repr(code: u32) -> (value: Option<OrderTimeInForce>)
        ensures
            value == OrderTimeInForce::spec_from_repr(code),
            value is Some <==> code <= 3,
    {
        match code {
            0 => Some(OrderTimeInForce::Unspecified),
            1 => Some(OrderTimeInForce::Ioc),
            2 => Some(OrderTimeInForce::PostOnly),
            3 => Some(OrderTimeInForce::FillOrKill),
            _ => None,
        }
    }

    /// Every time in force comes back from its wire number, and every wire number
    /// that stands for one is the number of that time in force.
    pub proof fn lemma_repr_round_trip(value: OrderTimeInForce, code: u32)
        ensures
            OrderTimeInForce::spec_from_repr(value.spec_repr()) == Some(value),
            OrderTimeInForce::spec_from_repr(code) matches Some(v) ==> v.spec_repr() == code,
    {
    }
}

/// What triggers a conditional order. On the wire it is the number that
/// `repr` gives.
#[derive(Clone, Copy, Debug, PartialEq, Eq)]
pub enum OrderConditionType {
    Unspecified,
    StopLoss,
    TakeProfit,
}

impl OrderConditionType {
    /// The wire number of each variant.
    pub open spec fn spec_repr(self) -> u32 {
        match self {
            OrderConditionType::Unspecified => 0,
            OrderConditionType::StopLoss => 1,
            OrderConditionType::TakeProfit => 2,
        }
    }

    /// The variant of each wire number that has one.
    pub open spec fn spec_from_repr(code: u32) -> Option<OrderConditionType> {
        match code {
            0 => Some(OrderConditionType::Unspecified),
            1 => Some(OrderConditionType::StopLoss),
            2 => Some(OrderConditionType::TakeProfit),
            _ => None,
        }
    }

    /// The number that stands for the condition type on the wire.
    pub fn repr(&self) -> (code: u32)
        ensures
            code == self.spec_repr(),
    {
        match self {
            OrderConditionType::Unspecified => 0,
            OrderConditionType::StopLoss => 1,
            OrderConditionType::TakeProfit => 2,
        }
    }

    /// The condition type that a wire number stands for, if it stands for one.
    pub fn from_repr(code: u32) -> (value: Option<OrderConditionType>)
        ensures
            value == OrderConditionType::spec_from_repr(code),
            value is Some <==> code <= 2,
    {
        match code {
            0 => Some(OrderConditionType::Unspecified),
            1 => Some(OrderConditionType::StopLoss),
            2 => Some(OrderConditionType::TakeProfit),
            _ => None,
        }
    }

    /// Every condition type comes back from its wire number, and every wire number
    /// that stands for one is the number of that condition type.
    pub proof fn lemma_repr_round_trip(value: OrderConditionType, code: u32)
        ensures
            OrderConditionType::spec_from_repr(value.spec_repr()) == Some(value),
            OrderConditionType::spec_from_repr(code) matches Some(v) ==> v.spec_repr() == code,
    {
    }
}

#[derive(Clone, Debug, PartialEq, Eq)]
pub enum DydxMsg {
    /// Deposits from the contract's balance into a subaccount.
    DepositToSubaccountV1 { recipient: SubaccountId, asset_id: u32, quantums: u64 },
    /// Withdraws from one of the contract's subaccounts to an address.
    WithdrawFromSubaccountV1 {
        subaccount_number: u32,
        recipient: String,
        asset_id: u32,
        quantums: u64,
    },
    /// Places an order for one of the contract's subaccounts.
    PlaceOrderV1 {
        subaccount_number: u32,
        client_id: u32,
        order_flags: u32,
        clob_pair_id: u32,
        side: OrderSide,
        quantums: u64,
        subticks: u64,
        good_til_block_time: u32,
        time_in_force: OrderTimeInForce,
        reduce_only: bool,
        client_metadata: u32,
        condition_type: OrderConditionType,
        conditional_order_trigger_subticks: u64,
    },
    /// Cancels an order of one of the contract's subaccounts.
    CancelOrderV1 {
        subaccount_number: u32,
        client_id: u32,
        order_flags: u32,
        clob_pair_id: u32,
        good_til_block_time: u32,
    },
}

} // verus!
