//! Request and response shapes of the service boundary, and the
//! validation that turns an order-intake request into an order.

use vstd::prelude::*;
use vstd::string::StringExecFns;

use crate::models::{Order, OrderSide, OrderType, Symbol};
use crate::util::{lower_of, upper_of};

verus! {

/// Uniform envelope of the service's responses.
pub struct ApiResponse<T> {
    pub success: bool,
    pub data: Option<T>,
    pub error: Option<String>,
}

impl<T> ApiResponse<T> {
    pub fn success(data: T) -> (r: ApiResponse<T>)
        ensures
            r.success == true,
            r.data == Some(data),
            r.error is None,
    {
        ApiResponse { success: true, data: Some(data), error: None }
    }

    pub fn error(msg: &str) -> (r: ApiResponse<T>)
        ensures
            r.success == false,
            r.data is None,
            r.error matches Some(m) && m@ == msg@,
    {
        ApiResponse { success: false, data: None, error: Some(msg.to_owned()) }
    }
}

/// Health-check payload.
#[derive(Debug)]
pub struct HealthResponse {
    pub status: String,
    pub version: String,
}

/// Request for one symbol's ticker.
#[derive(Debug)]
pub struct TickerRequest {
    pub base: String,
    pub quote: String,
    pub exchange: String,
}

/// Request for a symbol's candle history.
#[derive(Debug)]
pub struct CandlesRequest {
    pub base: String,
    pub quote: String,
    pub exchange: String,
    pub interval: Option<String>,
    pub limit: Option<u32>,
}

/// Query for a cached or live price.
#[derive(Debug)]
pub struct PriceQuery {
    pub symbol: Option<String>,
}

/// Order-intake request; the price is in ticks and present only for
/// orders that need one.
#[derive(Debug)]
pub struct CreateOrderRequest {
    pub base: String,
    pub quote: String,
    pub exchange: String,
    pub side: String,
    pub order_type: String,
    pub price: Option<u64>,
    pub quantity: u64,
}

/// Validates an intake request and builds the order: the side and
/// order-type strings are matched case-insensitively, and the request
/// becomes a limit order exactly when it carries a price.
pub fn build_order(req: &CreateOrderRequest) -> (r: Result<Order, String>)
    ensures
        OrderSide::spec_parse(req.side@) is None ==> (r matches Err(m) && m@ == "Invalid side"@),
        OrderSide::spec_parse(req.side@) is Some && OrderType::spec_parse(req.order_type@) is None
            ==> (r matches Err(m) && m@ == "Invalid order type"@),
        OrderSide::spec_parse(req.side@) is Some && OrderType::spec_parse(req.order_type@) is Some
            <==> r is Ok,
        r matches Ok(o) ==> {
            &&& o.wf()
            &&& o.side == OrderSide::spec_parse(req.side@)->Some_0
            &&& o.symbol.base@ == upper_of(req.base@)
            &&& o.symbol.quote@ == upper_of(req.quote@)
            &&& o.symbol.exchange@ == lower_of(req.exchange@)
            &&& o.quantity == req.quantity
            &&& o.price == req.price
            &&& (o.order_type == OrderType::Limit <==> req.price is Some)
            &&& (o.order_type == OrderType::Market <==> req.price is None)
        },
{
    let side = match OrderSide::parse(req.side.as_str()) {
        Some(s) => s,
        None => {
            return Err(String::from_str("Invalid side"));
        },
    };
    match OrderType::parse(req.order_type.as_str()) {
        Some(_) => {},
        None => {
            return Err(String::from_str("Invalid order type"));
        },
    };
    let symbol = Symbol::new(req.base.as_str(), req.quote.as_str(), req.exchange.as_str());
    if let Some(price) = req.price {
        Ok(Order::new_limit(symbol, side, price, req.quantity))
    } else {
        Ok(Order::new_market(symbol, side, req.quantity))
    }
}

} // verus!
