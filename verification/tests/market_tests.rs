use trading_core::fixed::{AMOUNT_MAX, SCALE};
use trading_core::market::{
    candle_from_fields, parse_price, ticker_from_fields, BinanceTicker, MarketError,
};
use trading_core::models::Symbol;

#[test]
fn test_parse_price_exact() {
    assert_eq!(parse_price("50123.50").unwrap(), 50_123_500_000);
    assert_eq!(parse_price("1").unwrap(), SCALE);
    assert_eq!(parse_price("0.000001").unwrap(), 1);
    assert_eq!(parse_price("0.5").unwrap(), 500_000);
}

#[test]
fn test_parse_price_truncates_extra_digits() {
    assert_eq!(parse_price("1.1234567").unwrap(), 1_123_456);
    assert_eq!(parse_price("0.00000099").unwrap(), 0);
}

#[test]
fn test_parse_price_rejects_malformed() {
    for bad in ["", "abc", "1.", ".5", "1.2.3", "1,5", "-1", " 1", "1 "] {
        assert_eq!(
            parse_price(bad).unwrap_err(),
            MarketError::Parse("invalid price".to_string()),
            "input {:?}",
            bad
        );
    }
}

#[test]
fn test_parse_price_range() {
    // The largest representable amount parses exactly; one tick more
    // is out of range.
    assert_eq!(parse_price("1000000000000").unwrap(), AMOUNT_MAX);
    assert_eq!(
        parse_price("1000000000000.000001").unwrap_err(),
        MarketError::Parse("price out of range".to_string())
    );
    assert_eq!(
        parse_price("10000000000000").unwrap_err(),
        MarketError::Parse("price out of range".to_string())
    );
}

#[test]
fn test_candle_from_fields() {
    let symbol = Symbol::new("BTC", "USDT", "binance");
    let candle = candle_from_fields(symbol, "100.5", "101", "99.25", "100", "12.75", 1_700_000)
        .expect("candle");
    assert_eq!(candle.open, 100_500_000);
    assert_eq!(candle.high, 101_000_000);
    assert_eq!(candle.low, 99_250_000);
    assert_eq!(candle.close, 100_000_000);
    assert_eq!(candle.volume, 12_750_000);
    assert_eq!(candle.timestamp, 1_700_000);
    assert_eq!(candle.symbol.base, "BTC");
}

#[test]
fn test_candle_from_fields_surfaces_parse_error() {
    let symbol = Symbol::new("BTC", "USDT", "binance");
    let result = candle_from_fields(symbol, "100.5", "oops", "99.25", "100", "12.75", 0);
    assert_eq!(result.unwrap_err(), MarketError::Parse("invalid price".to_string()));
}

#[test]
fn test_ticker_from_fields() {
    let ticker =
        ticker_from_fields("BTCUSDT".to_string(), "50000.25", "123.5", 42).expect("ticker");
    assert_eq!(ticker.symbol, "BTCUSDT");
    assert_eq!(ticker.price, 50_000_250_000);
    assert_eq!(ticker.volume, 123_500_000);
    assert_eq!(ticker.timestamp, 42);

    let bad = ticker_from_fields("BTCUSDT".to_string(), "", "123.5", 42);
    assert_eq!(bad.unwrap_err(), MarketError::Parse("invalid price".to_string()));
}

#[test]
fn test_binance_ticker_price_ticks() {
    let event = BinanceTicker {
        symbol: "BTCUSDT".to_string(),
        price: "64250.10".to_string(),
        quantity: "0.5".to_string(),
        event_time: 7,
    };
    assert_eq!(event.price_ticks().unwrap(), 64_250_100_000);

    let broken = BinanceTicker {
        symbol: "BTCUSDT".to_string(),
        price: "n/a".to_string(),
        quantity: "0.5".to_string(),
        event_time: 7,
    };
    assert_eq!(
        broken.price_ticks().unwrap_err(),
        MarketError::Parse("invalid price".to_string())
    );
}

#[test]
fn test_select_provider() {
    let symbol = Symbol::new("BTC", "USDT", "kraken");
    assert_eq!(trading_core::market::select_provider(2, &symbol), Ok(0));
    assert_eq!(
        trading_core::market::select_provider(0, &symbol),
        Err(MarketError::UnsupportedExchange("kraken".to_string()))
    );
}

#[test]
fn test_add_subscription_deduplicates() {
    let mut symbols: Vec<String> = Vec::new();
    trading_core::market::add_subscription(&mut symbols, "btcusdt");
    trading_core::market::add_subscription(&mut symbols, "ethusdt");
    trading_core::market::add_subscription(&mut symbols, "btcusdt");
    assert_eq!(symbols, vec!["btcusdt".to_string(), "ethusdt".to_string()]);
}

#[test]
fn test_market_error_variants() {
    let http = MarketError::Http("connection reset".to_string());
    let unsupported = MarketError::UnsupportedExchange("kraken".to_string());
    assert_ne!(http, unsupported);
}
