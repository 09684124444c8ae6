//! Shared data model: symbols, market data, signals, orders, positions.

use vstd::prelude::*;
use vstd::string::StringExecFns;

use crate::fixed::{AMOUNT_MAX, SCALE};
use crate::util::{fresh_uuid, lower_of, now_millis, to_lower_string, to_upper_string, upper_of};

verus! {

/// Instantaneous market data for one symbol. Price and volume are
/// fixed-point ticks, the timestamp is milliseconds since the epoch.
#[derive(Debug)]
pub struct Ticker {
    pub symbol: String,
    pub price: u64,
    pub volume: u64,
    pub timestamp: i64,
}

/// One OHLCV bar. In a candle window handed to a strategy, index 0 is
/// the most recent bar.
#[derive(Debug)]
pub struct Candle {
    pub symbol: Symbol,
    pub open: u64,
    pub high: u64,
    pub low: u64,
    pub close: u64,
    pub volume: u64,
    pub timestamp: i64,
}

/// Trading pair, normalized on construction: base and quote are
/// upper-cased, the exchange name is lower-cased.
#[derive(Debug)]
pub struct Symbol {
    pub base: String,
    pub quote: String,
    pub exchange: String,
}

impl Symbol {
    pub fn new(base: &str, quote: &str, exchange: &str) -> (r: Symbol)
        ensures
            r.base@ == upper_of(base@),
            r.quote@ == upper_of(quote@),
            r.exchange@ == lower_of(exchange@),
    {
        Symbol {
            base: to_upper_string(base),
            quote: to_upper_string(quote),
            exchange: to_lower_string(exchange),
        }
    }

    /// Renders the pair as `BASE/QUOTE`.
    pub fn to_string(&self) -> (r: String)
        ensures
            r@ == self.base@ + "/"@ + self.quote@,
    {
        let mut s = self.base.clone();
        s.append("/");
        s.append(self.quote.as_str());
        s
    }

    /// Field-for-field copy.
    pub fn duplicate(&self) -> (r: Symbol)
        ensures
            r == *self,
    {
        Symbol {
            base: self.base.clone(),
            quote: self.quote.clone(),
            exchange: self.exchange.clone(),
        }
    }
}

#[derive(Clone, Copy, PartialEq, Eq, Structural, Debug)]
pub enum OrderSide {
    Buy,
    Sell,
}

impl OrderSide {
    /// The wire name that `parse` accepts for this side.
    pub open spec fn spec_name(self) -> Seq<char> {
        match self {
            OrderSide::Buy => "buy"@,
            OrderSide::Sell => "sell"@,
        }
    }

    /// Lower-case wire name, as stored by the persistence layer.
    pub fn as_str(&self) -> (r: &'static str)
        ensures
            r@ == self.spec_name(),
    {
        match self {
            OrderSide::Buy => "buy",
            OrderSide::Sell => "sell",
        }
    }

    /// Side denoted by `s`, compared case-insensitively.
    pub open spec fn spec_parse(s: Seq<char>) -> Option<OrderSide> {
        if lower_of(s) == "buy"@ {
            Some(OrderSide::Buy)
        } else if lower_of(s) == "sell"@ {
            Some(OrderSide::Sell)
        } else {
            None
        }
    }

    pub fn parse(s: &str) -> (r: Option<OrderSide>)
        ensures
            r == OrderSide::spec_parse(s@),
    {
        let lower = to_lower_string(s);
        if lower == String::from_str("buy") {
            Some(OrderSide::Buy)
        } else if lower == String::from_str("sell") {
            Some(OrderSide::Sell)
        } else {
            None
        }
    }
}

#[derive(Clone, Copy, PartialEq, Eq, Structural, Debug)]
pub enum OrderType {
    Market,
    Limit,
    Stop,
    StopLimit,
}

impl OrderType {
    /// Order type denoted by `s`, compared case-insensitively. Only the
    /// two types the order intake accepts are recognized.
    pub open spec fn spec_parse(s: Seq<char>) -> Option<OrderType> {
        if lower_of(s) == "market"@ {
            Some(OrderType::Market)
        } else if lower_of(s) == "limit"@ {
            Some(OrderType::Limit)
        } else {
            None
        }
    }

    pub fn parse(s: &str) -> (r: Option<OrderType>)
        ensures
            r == OrderType::spec_parse(s@),
    {
        let lower = to_lower_string(s);
        if lower == String::from_str("market") {
            Some(OrderType::Market)
        } else if lower == String::from_str("limit") {
            Some(OrderType::Limit)
        } else {
            None
        }
    }
}

#[derive(Clone, Copy, PartialEq, Eq, Structural, Debug)]
pub enum OrderStatus {
    Pending,
    Open,
    Filled,
    PartiallyFilled,
    Cancelled,
    Rejected,
}

impl OrderStatus {
    /// Filled, Cancelled and Rejected are the terminal lifecycle states.
    pub open spec fn spec_is_terminal(self) -> bool {
        match self {
            OrderStatus::Filled => true,
            OrderStatus::Cancelled => true,
            OrderStatus::Rejected => true,
            OrderStatus::Pending => false,
            OrderStatus::Open => false,
            OrderStatus::PartiallyFilled => false,
        }
    }

    pub fn is_terminal(&self) -> (r: bool)
        ensures
            r == self.spec_is_terminal(),
    {
        match self {
            OrderStatus::Filled => true,
            OrderStatus::Cancelled => true,
            OrderStatus::Rejected => true,
            OrderStatus::Pending => false,
            OrderStatus::Open => false,
            OrderStatus::PartiallyFilled => false,
        }
    }

    /// One step of the order lifecycle:
    /// Pending -> Open -> {Filled, PartiallyFilled, Cancelled, Rejected},
    /// PartiallyFilled -> {Filled, Cancelled}; terminal states move nowhere.
    pub open spec fn can_transition(self, to: OrderStatus) -> bool {
        match self {
            OrderStatus::Pending => to == OrderStatus::Open,
            OrderStatus::Open => to == OrderStatus::Filled || to == OrderStatus::PartiallyFilled
                || to == OrderStatus::Cancelled || to == OrderStatus::Rejected,
            OrderStatus::PartiallyFilled => to == OrderStatus::Filled || to
                == OrderStatus::Cancelled,
            OrderStatus::Filled => false,
            OrderStatus::Cancelled => false,
            OrderStatus::Rejected => false,
        }
    }
}

/// A venue-bound instruction to buy or sell, tracked through the
/// status lifecycle.
#[derive(Debug)]
pub struct Order {
    pub id: String,
    pub symbol: Symbol,
    pub side: OrderSide,
    pub order_type: OrderType,
    pub price: Option<u64>,
    pub quantity: u64,
    pub filled_quantity: u64,
    pub status: OrderStatus,
    pub created_at: i64,
    pub updated_at: i64,
}

impl Order {
    /// Structural invariant: the fill never exceeds the quantity, and a
    /// price is present exactly when the order type requires one.
    pub open spec fn wf(&self) -> bool {
        &&& self.filled_quantity <= self.quantity
        &&& (self.price is Some <==> self.order_type != OrderType::Market)
    }

    pub fn new_market(symbol: Symbol, side: OrderSide, quantity: u64) -> (r: Order)
        ensures
            r.wf(),
            r.symbol == symbol,
            r.side == side,
            r.order_type == OrderType::Market,
            r.price is None,
            r.quantity == quantity,
            r.filled_quantity == 0,
            r.status == OrderStatus::Pending,
            r.created_at == r.updated_at,
            r.id@.len() == 36,
    {
        let now: i64 = now_millis();
        Order {
            id: fresh_uuid(),
            symbol,
            side,
            order_type: OrderType::Market,
            price: None,
            quantity,
            filled_quantity: 0,
            status: OrderStatus::Pending,
            created_at: now,
            updated_at: now,
        }
    }

    pub fn new_limit(symbol: Symbol, side: OrderSide, price: u64, quantity: u64) -> (r: Order)
        ensures
            r.wf(),
            r.symbol == symbol,
            r.side == side,
            r.order_type == OrderType::Limit,
            r.price == Some(price),
            r.quantity == quantity,
            r.filled_quantity == 0,
            r.status == OrderStatus::Pending,
            r.created_at == r.updated_at,
            r.id@.len() == 36,
    {
        let now: i64 = now_millis();
        Order {
            id: fresh_uuid(),
            symbol,
            side,
            order_type: OrderType::Limit,
            price: Some(price),
            quantity,
            filled_quantity: 0,
            status: OrderStatus::Pending,
            created_at: now,
            updated_at: now,
        }
    }

    /// Field-for-field copy.
    pub fn duplicate(&self) -> (r: Order)
        ensures
            r == *self,
    {
        Order {
            id: self.id.clone(),
            symbol: self.symbol.duplicate(),
            side: self.side,
            order_type: self.order_type,
            price: self.price,
            quantity: self.quantity,
            filled_quantity: self.filled_quantity,
            status: self.status,
            created_at: self.created_at,
            updated_at: self.updated_at,
        }
    }
}

/// Net holding and P&L state for one symbol; at most one Position
/// exists per symbol.
#[derive(Debug)]
pub struct Position {
    pub symbol: Symbol,
    pub quantity: u64,
    pub avg_price: u64,
    pub current_price: u64,
    pub unrealized_pnl: i64,
    pub realized_pnl: i64,
    pub updated_at: i64,
}

impl Position {
    /// Prices, quantity and the position's notional value stay within
    /// the representable amount range.
    pub open spec fn wf(&self) -> bool {
        &&& self.quantity <= AMOUNT_MAX
        &&& self.avg_price <= AMOUNT_MAX
        &&& self.current_price <= AMOUNT_MAX
        &&& self.current_price * self.quantity <= AMOUNT_MAX * SCALE
    }
}

/// Mark-to-market value of the positions: the sum of each position's
/// `current_price * quantity / SCALE`.
pub open spec fn spec_positions_value(ps: Seq<Position>) -> int
    decreases ps.len(),
{
    if ps.len() == 0 {
        0
    } else {
        spec_positions_value(ps.drop_last()) + ps.last().current_price * ps.last().quantity
            / SCALE as int
    }
}

/// Sum of the positions' unrealized P&L.
pub open spec fn spec_positions_pnl(ps: Seq<Position>) -> int
    decreases ps.len(),
{
    if ps.len() == 0 {
        0
    } else {
        spec_positions_pnl(ps.drop_last()) + ps.last().unrealized_pnl
    }
}

/// Totals backing a portfolio view: mark-to-market value and aggregate
/// unrealized P&L of the given positions.
pub fn portfolio_totals(positions: &Vec<Position>) -> (r: (u128, i128))
    requires
        forall|i: int| 0 <= i < positions@.len() ==> positions@[i].wf(),
    ensures
        r.0 == spec_positions_value(positions@),
        r.1 == spec_positions_pnl(positions@),
{
    let mut total_value: u128 = 0;
    let mut total_pnl: i128 = 0;
    let mut i: usize = 0;
    while i < positions.len()
        invariant
            i <= positions@.len(),
            forall|j: int| 0 <= j < positions@.len() ==> positions@[j].wf(),
            total_value == spec_positions_value(positions@.take(i as int)),
            total_pnl == spec_positions_pnl(positions@.take(i as int)),
            total_value <= i * (AMOUNT_MAX as int),
            -(i * (i64::MAX as int + 1)) <= total_pnl <= i * (i64::MAX as int),
        decreases positions@.len() - i,
    {
        let p = &positions[i];
        let value: u128 = (p.current_price as u128) * (p.quantity as u128) / (SCALE as u128);
        proof {
            assert(positions@[i as int].wf());
            assert(value <= AMOUNT_MAX) by {
                assert(p.current_price * p.quantity <= AMOUNT_MAX * SCALE);
            }
            assert(positions@.take(i + 1).drop_last() =~= positions@.take(i as int));
            assert(positions@.take(i + 1).last() == positions@[i as int]);
        }
        total_value = total_value + value;
        total_pnl = total_pnl + (p.unrealized_pnl as i128);
        i = i + 1;
    }
    proof {
        assert(positions@.take(positions@.len() as int) =~= positions@);
    }
    (total_value, total_pnl)
}

/// Snapshot of all positions with their aggregate totals.
#[derive(Debug)]
pub struct Portfolio {
    pub positions: Vec<Position>,
    pub total_value: u128,
    pub total_pnl: i128,
    pub updated_at: i64,
}

/// A strategy's directional recommendation with a confidence strength
/// in `[0, SCALE]` ticks.
#[derive(Debug)]
pub struct Signal {
    pub id: String,
    pub symbol: Symbol,
    pub side: OrderSide,
    pub strength: u64,
    pub reason: String,
    pub timestamp: i64,
}

impl Signal {
    /// The strength a constructed signal carries: the given strength
    /// clamped into `[0, SCALE]`.
    pub open spec fn clamped_strength(strength: u64) -> u64 {
        if strength <= SCALE {
            strength
        } else {
            SCALE
        }
    }

    /// Builds a signal; the strength is clamped into `[0, SCALE]`
    /// whatever value is passed in.
    pub fn new(symbol: Symbol, side: OrderSide, strength: u64, reason: &str) -> (r: Signal)
        ensures
            r.symbol == symbol,
            r.side == side,
            r.strength == Signal::clamped_strength(strength),
            r.strength <= SCALE,
            r.reason@ == reason@,
            r.id@.len() == 36,
    {
        let clamped: u64 = if strength > SCALE {
            SCALE
        } else {
            strength
        };
        Signal {
            id: fresh_uuid(),
            symbol,
            side,
            strength: clamped,
            reason: reason.to_owned(),
            timestamp: now_millis(),
        }
    }
}

#[derive(Clone, Copy, PartialEq, Eq, Structural, Debug)]
pub enum Exchange {
    Binance,
    Coinbase,
    Kraken,
    Alpaca,
}

impl Exchange {
    /// Exchange denoted by `s`, compared case-insensitively.
    pub open spec fn spec_from_str(s: Seq<char>) -> Option<Exchange> {
        if lower_of(s) == "binance"@ {
            Some(Exchange::Binance)
        } else if lower_of(s) == "coinbase"@ {
            Some(Exchange::Coinbase)
        } else if lower_of(s) == "kraken"@ {
            Some(Exchange::Kraken)
        } else if lower_of(s) == "alpaca"@ {
            Some(Exchange::Alpaca)
        } else {
            None
        }
    }

    pub fn from_str(s: &str) -> (r: Option<Exchange>)
        ensures
            r == Exchange::spec_from_str(s@),
    {
        let lower = to_lower_string(s);
        if lower == String::from_str("binance") {
            Some(Exchange::Binance)
        } else if lower == String::from_str("coinbase") {
            Some(Exchange::Coinbase)
        } else if lower == String::from_str("kraken") {
            Some(Exchange::Kraken)
        } else if lower == String::from_str("alpaca") {
            Some(Exchange::Alpaca)
        } else {
            None
        }
    }
}

} // verus!
