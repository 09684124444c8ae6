//! Order execution against a pluggable exchange adapter.

use vstd::prelude::*;

use crate::models::{Order, OrderStatus, OrderType};
use crate::util::now_millis;

verus! {

/// Failures of order placement and cancellation. Transport failures
/// are retryable; business rejections are terminal.
#[derive(Debug, PartialEq)]
pub enum OrderError {
    Http(String),
    InsufficientBalance,
    Rejected(String),
}

/// Venue integration: places and cancels orders and reports status.
pub trait ExchangeAdapter: Sized {
    /// Submits an order to the venue. On success the identity of the
    /// order is preserved, the result is well-formed, and a market
    /// order is filled completely; adapters that cannot fill a
    /// non-market order immediately report its status verbatim.
    fn place_order(&self, order: &Order) -> (r: Result<Order, OrderError>)
        requires
            order.wf(),
        ensures
            r matches Ok(o) ==> {
                &&& o.wf()
                &&& o.id == order.id
                &&& o.symbol == order.symbol
                &&& o.side == order.side
                &&& o.order_type == order.order_type
                &&& o.price == order.price
                &&& o.quantity == order.quantity
                &&& o.created_at == order.created_at
                &&& (order.order_type == OrderType::Market ==> o.status == OrderStatus::Filled
                    && o.filled_quantity == o.quantity)
            },
    ;

    /// Cancels the order with the given id; cancelling an order that
    /// has already reached a terminal state reports success.
    fn cancel_order(&self, order_id: &str) -> (r: Result<(), OrderError>);

    /// Fetches the venue's view of the order with the given id.
    fn get_order_status(&self, order_id: &str) -> (r: Result<Order, OrderError>);
}

/// Most placement attempts made for one order: the first try and its
/// retries together.
pub const MAX_PLACEMENT_ATTEMPTS: u32 = 3;

/// Propagation policy for a failed placement attempt: transport
/// failures are retried while attempts remain; business rejections
/// surface immediately and are never retried.
pub fn should_retry(error: &OrderError, attempts_made: u32) -> (r: bool)
    ensures
        r == ((error matches OrderError::Http(_)) && attempts_made < MAX_PLACEMENT_ATTEMPTS),
{
    match error {
        OrderError::Http(_) => attempts_made < MAX_PLACEMENT_ATTEMPTS,
        OrderError::InsufficientBalance => false,
        OrderError::Rejected(_) => false,
    }
}

/// Pause before the retry that follows `attempts_made` failed
/// attempts, in milliseconds: 100, then doubling, capped at 400.
pub fn backoff_millis(attempts_made: u32) -> (r: u64)
    ensures
        r == if attempts_made == 0 {
            100int
        } else if attempts_made == 1 {
            200int
        } else {
            400int
        },
{
    if attempts_made == 0 {
        100
    } else if attempts_made == 1 {
        200
    } else {
        400
    }
}

/// Pre-submission step of the executor: the order transitioned to
/// Open with the update time stamped; every other field is preserved.
pub fn open_for_placement(order: Order) -> (r: Order)
    ensures
        r.status == OrderStatus::Open,
        r.id == order.id,
        r.symbol == order.symbol,
        r.side == order.side,
        r.order_type == order.order_type,
        r.price == order.price,
        r.quantity == order.quantity,
        r.filled_quantity == order.filled_quantity,
        r.created_at == order.created_at,
        order.wf() ==> r.wf(),
{
    let mut submitted = order;
    submitted.status = OrderStatus::Open;
    submitted.updated_at = now_millis();
    submitted
}

/// Owns the order lifecycle: transitions orders to Open and delegates
/// placement and cancellation to the active adapter.
pub struct OrderExecutor<A: ExchangeAdapter> {
    pub adapter: A,
}

impl<A: ExchangeAdapter> OrderExecutor<A> {
    pub fn new(adapter: A) -> (r: OrderExecutor<A>)
        ensures
            r.adapter == adapter,
    {
        OrderExecutor { adapter }
    }

    /// Swaps the active adapter.
    pub fn set_adapter(&mut self, adapter: A)
        ensures
            final(self).adapter == adapter,
    {
        self.adapter = adapter;
    }

    /// Transitions the order to Open, stamps the update time, and
    /// delegates placement. On success the returned order keeps the
    /// submitted identity, and a market order comes back Filled at its
    /// full quantity; other statuses are propagated verbatim.
    pub fn execute(&self, order: Order) -> (r: Result<Order, OrderError>)
        requires
            order.wf(),
            order.status == OrderStatus::Pending,
        ensures
            r matches Ok(o) ==> {
                &&& o.wf()
                &&& o.id == order.id
                &&& o.symbol == order.symbol
                &&& o.side == order.side
                &&& o.order_type == order.order_type
                &&& o.price == order.price
                &&& o.quantity == order.quantity
                &&& o.created_at == order.created_at
                &&& (order.order_type == OrderType::Market ==> o.status == OrderStatus::Filled
                    && o.filled_quantity == o.quantity)
            },
    {
        let submitted = open_for_placement(order);
        self.adapter.place_order(&submitted)
    }

    /// Delegates cancellation to the active adapter; safe to call even
    /// when the order is already terminal.
    pub fn cancel(&self, order_id: &str) -> (r: Result<(), OrderError>) {
        self.adapter.cancel_order(order_id)
    }
}

/// Reference venue adapter: fills market orders immediately at their
/// requested quantity and accepts other orders as submitted, without
/// certainty of fill.
pub struct BinanceAdapter {
    pub api_key: Option<String>,
}

impl BinanceAdapter {
    pub fn new() -> (r: BinanceAdapter)
        ensures
            r.api_key is None,
    {
        BinanceAdapter { api_key: None }
    }

    pub fn with_api_key(api_key: String) -> (r: BinanceAdapter)
        ensures
            r.api_key == Some(api_key),
    {
        BinanceAdapter { api_key: Some(api_key) }
    }
}

impl Default for BinanceAdapter {
    /// An adapter without an API key.
    fn default() -> (r: BinanceAdapter)
        ensures
            r.api_key is None,
    {
        BinanceAdapter::new()
    }
}

impl ExchangeAdapter for BinanceAdapter {
    fn place_order(&self, order: &Order) -> (r: Result<Order, OrderError>)
        ensures
            r is Ok,
            r matches Ok(o) ==> order.order_type != OrderType::Market ==> o.status == order.status
                && o.filled_quantity == order.filled_quantity,
    {
        let mut placed = order.duplicate();
        if placed.order_type == OrderType::Market {
            placed.status = OrderStatus::Filled;
            placed.filled_quantity = placed.quantity;
        }
        placed.updated_at = now_millis();
        Ok(placed)
    }

    fn cancel_order(&self, order_id: &str) -> (r: Result<(), OrderError>)
        ensures
            r is Ok,
    {
        Ok(())
    }

    fn get_order_status(&self, order_id: &str) -> (r: Result<Order, OrderError>)
        ensures
            r matches Err(OrderError::Rejected(m)) && m@ == "Not implemented"@,
    {
        Err(OrderError::Rejected("Not implemented".to_owned()))
    }
}

} // verus!
