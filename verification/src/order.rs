//! Order-side data model: the request types consumed by a `Gateway` and the
//! enumerations they are built from.

use vstd::prelude::*;

verus! {

/// Direction of an order as seen by the execution backend.
#[derive(Clone, Copy, Debug, PartialEq, Eq, Structural)]
pub enum OrderSide {
    Buy,
    Sell,
}

/// Kind of order the backend is asked to work.
#[derive(Clone, Copy, Debug, PartialEq, Eq, Structural)]
pub enum OrderType {
    Limit,
    Market,
    IOC,
    FOK,
}

/// How long an order rests at the backend before it lapses.
#[derive(Clone, Copy, Debug, PartialEq, Eq, Structural)]
pub enum TimeInForce {
    GTC,
    IOC,
    FOK,
}

/// An order submission, constructed by the engine from a strategy's trade
/// intent and consumed exactly once by a gateway's `send_order`.
///
/// `price`, `volume` and `stop_price` are in hundredths of the quoted unit.
#[derive(Debug, PartialEq)]
pub struct OrderRequest {
    pub symbol: String,
    pub price: u64,
    pub volume: u64,
    pub side: OrderSide,
    pub order_type: OrderType,
    pub gateway: Option<String>,
    pub time_in_force: Option<TimeInForce>,
    pub stop_price: Option<u64>,
}

/// Mathematical value of an `OrderRequest`.
pub struct OrderRequestModel {
    pub symbol: Seq<char>,
    pub price: int,
    pub volume: int,
    pub side: OrderSide,
    pub order_type: OrderType,
    pub gateway: Option<Seq<char>>,
    pub time_in_force: Option<TimeInForce>,
    pub stop_price: Option<int>,
}

/// View of an optional owned string as an optional sequence of characters.
pub open spec fn opt_string_view(o: Option<String>) -> Option<Seq<char>> {
    match o {
        Option::Some(s) => Option::Some(s@),
        Option::None => Option::None,
    }
}

/// View of an optional count of hundredths as an optional integer.
pub open spec fn opt_u64_view(o: Option<u64>) -> Option<int> {
    match o {
        Option::Some(v) => Option::Some(v as int),
        Option::None => Option::None,
    }
}

impl View for OrderRequest {
    type V = OrderRequestModel;

    open spec fn view(&self) -> OrderRequestModel {
        OrderRequestModel {
            symbol: self.symbol@,
            price: self.price as int,
            volume: self.volume as int,
            side: self.side,
            order_type: self.order_type,
            gateway: opt_string_view(self.gateway),
            time_in_force: self.time_in_force,
            stop_price: opt_u64_view(self.stop_price),
        }
    }
}

/// A request to cancel a resting order, addressed by the backend-assigned
/// order identifier.
#[derive(Debug, PartialEq)]
pub struct CancelRequest {
    pub symbol: Option<String>,
    pub client_order_id: Option<String>,
    pub order_id: u64,
    pub gateway: Option<String>,
}

/// Mathematical value of a `CancelRequest`.
pub struct CancelRequestModel {
    pub symbol: Option<Seq<char>>,
    pub client_order_id: Option<Seq<char>>,
    pub order_id: int,
    pub gateway: Option<Seq<char>>,
}

impl View for CancelRequest {
    type V = CancelRequestModel;

    open spec fn view(&self) -> CancelRequestModel {
        CancelRequestModel {
            symbol: opt_string_view(self.symbol),
            client_order_id: opt_string_view(self.client_order_id),
            order_id: self.order_id as int,
            gateway: opt_string_view(self.gateway),
        }
    }
}

/// Clone an optional owned string, preserving its value.
fn clone_opt_string(o: &Option<String>) -> (r: Option<String>)
    ensures
        r == *o,
{
    match o {
        Option::Some(s) => Option::Some(s.clone()),
        Option::None => Option::None,
    }
}

impl Clone for OrderRequest {
    fn clone(&self) -> (r: Self)
        ensures
            r == *self,
    {
        OrderRequest {
            symbol: self.symbol.clone(),
            price: self.price,
            volume: self.volume,
            side: self.side,
            order_type: self.order_type,
            gateway: clone_opt_string(&self.gateway),
            time_in_force: self.time_in_force,
            stop_price: self.stop_price,
        }
    }
}

impl Clone for CancelRequest {
    fn clone(&self) -> (r: Self)
        ensures
            r == *self,
    {
        CancelRequest {
            symbol: clone_opt_string(&self.symbol),
            client_order_id: clone_opt_string(&self.client_order_id),
            order_id: self.order_id,
            gateway: clone_opt_string(&self.gateway),
        }
    }
}

} // verus!
