use trading_core::api::{build_order, ApiResponse, CreateOrderRequest};
use trading_core::auth::Claims;
use trading_core::fixed::SCALE;
use trading_core::models::{
    portfolio_totals, Exchange, OrderSide, OrderType, Position, Signal, Symbol,
};

#[test]
fn test_symbol_normalization() {
    // Upper- and lower-casing run through the real case mapping, so a
    // mixed-case input must come back changed.
    let symbol = Symbol::new("btc", "usdt", "BINANCE");
    assert_eq!(symbol.base, "BTC");
    assert_eq!(symbol.quote, "USDT");
    assert_eq!(symbol.exchange, "binance");
    assert_eq!(symbol.to_string(), "BTC/USDT");
}

#[test]
fn test_exchange_from_str() {
    assert_eq!(Exchange::from_str("Binance"), Some(Exchange::Binance));
    assert_eq!(Exchange::from_str("COINBASE"), Some(Exchange::Coinbase));
    assert_eq!(Exchange::from_str("kraken"), Some(Exchange::Kraken));
    assert_eq!(Exchange::from_str("alpaca"), Some(Exchange::Alpaca));
    assert_eq!(Exchange::from_str("nyse"), None);
}

#[test]
fn test_order_side_parse_and_name() {
    assert_eq!(OrderSide::parse("BUY"), Some(OrderSide::Buy));
    assert_eq!(OrderSide::parse("sell"), Some(OrderSide::Sell));
    assert_eq!(OrderSide::parse("hold"), None);
    assert_eq!(OrderSide::Buy.as_str(), "buy");
    assert_eq!(OrderSide::Sell.as_str(), "sell");
}

#[test]
fn test_order_type_parse() {
    assert_eq!(OrderType::parse("Market"), Some(OrderType::Market));
    assert_eq!(OrderType::parse("LIMIT"), Some(OrderType::Limit));
    assert_eq!(OrderType::parse("stop"), None);
}

#[test]
fn test_signal_strength_is_clamped() {
    let symbol = Symbol::new("BTC", "USDT", "binance");
    let over = Signal::new(symbol.duplicate(), OrderSide::Buy, 5 * SCALE, "x");
    assert_eq!(over.strength, SCALE);
    let zero = Signal::new(symbol.duplicate(), OrderSide::Buy, 0, "x");
    assert_eq!(zero.strength, 0);
    let inside = Signal::new(symbol, OrderSide::Buy, 123_456, "x");
    assert_eq!(inside.strength, 123_456);
}

#[test]
fn test_signal_carries_reason_and_id() {
    let signal = Signal::new(
        Symbol::new("BTC", "USDT", "binance"),
        OrderSide::Sell,
        800_000,
        "Death cross",
    );
    assert_eq!(signal.reason, "Death cross");
    assert_eq!(signal.id.len(), 36);
}

#[test]
fn test_portfolio_totals() {
    let positions = vec![
        Position {
            symbol: Symbol::new("BTC", "USDT", "binance"),
            quantity: 500_000,
            avg_price: 45_000 * SCALE,
            current_price: 50_000 * SCALE,
            unrealized_pnl: 2_500 * SCALE as i64,
            realized_pnl: 0,
            updated_at: 0,
        },
        Position {
            symbol: Symbol::new("ETH", "USDT", "binance"),
            quantity: 5 * SCALE,
            avg_price: 2_500 * SCALE,
            current_price: 2_756 * SCALE,
            unrealized_pnl: 1_280 * SCALE as i64,
            realized_pnl: 0,
            updated_at: 0,
        },
    ];
    let (total_value, total_pnl) = portfolio_totals(&positions);
    // 0.5 * 50000 + 5 * 2756 = 25000 + 13780.
    assert_eq!(total_value, (38_780u128 * SCALE as u128));
    assert_eq!(total_pnl, (3_780i128 * SCALE as i128));
}

#[test]
fn test_portfolio_totals_empty() {
    let positions: Vec<Position> = Vec::new();
    assert_eq!(portfolio_totals(&positions), (0, 0));
}

#[test]
fn test_api_response_envelope() {
    let ok: ApiResponse<u64> = ApiResponse::success(7);
    assert!(ok.success);
    assert_eq!(ok.data, Some(7));
    assert!(ok.error.is_none());

    let err: ApiResponse<u64> = ApiResponse::error("Strategy not found");
    assert!(!err.success);
    assert!(err.data.is_none());
    assert_eq!(err.error, Some("Strategy not found".to_string()));
}

#[test]
fn test_build_order_market_and_limit() {
    let market_req = CreateOrderRequest {
        base: "btc".to_string(),
        quote: "usdt".to_string(),
        exchange: "Binance".to_string(),
        side: "Buy".to_string(),
        order_type: "market".to_string(),
        price: None,
        quantity: 2 * SCALE,
    };
    let order = build_order(&market_req).expect("order");
    assert_eq!(order.side, OrderSide::Buy);
    assert_eq!(order.order_type, OrderType::Market);
    assert_eq!(order.symbol.base, "BTC");
    assert!(order.price.is_none());

    let limit_req = CreateOrderRequest {
        side: "sell".to_string(),
        order_type: "limit".to_string(),
        price: Some(100 * SCALE),
        ..market_req
    };
    let limit = build_order(&limit_req).expect("order");
    assert_eq!(limit.order_type, OrderType::Limit);
    assert_eq!(limit.price, Some(100 * SCALE));
}

#[test]
fn test_build_order_rejects_bad_fields() {
    let req = CreateOrderRequest {
        base: "btc".to_string(),
        quote: "usdt".to_string(),
        exchange: "binance".to_string(),
        side: "hold".to_string(),
        order_type: "market".to_string(),
        price: None,
        quantity: SCALE,
    };
    assert_eq!(build_order(&req).unwrap_err(), "Invalid side");

    let req2 = CreateOrderRequest { side: "buy".to_string(), order_type: "stop".to_string(), ..req };
    assert_eq!(build_order(&req2).unwrap_err(), "Invalid order type");
}

#[test]
fn test_claims_expiry() {
    let claims = Claims::new("alice".to_string(), 7, 1_000_000);
    assert_eq!(claims.exp, 1_000_000 + 86_400);
    assert!(!claims.is_expired(1_000_000));
    assert!(!claims.is_expired(1_086_399));
    assert!(claims.is_expired(1_086_400));
}
