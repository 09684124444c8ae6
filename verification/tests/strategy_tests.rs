use trading_core::fixed::SCALE;
use trading_core::models::{Candle, OrderSide, Symbol};
use trading_core::strategy::{
    AnyStrategy, RsiStrategy, SmaCrossoverStrategy, Strategy, StrategyEngine, StrategyParams,
};

fn candle(close: u64) -> Candle {
    Candle {
        symbol: Symbol::new("BTC", "USDT", "binance"),
        open: close,
        high: close,
        low: close,
        close,
        volume: 0,
        timestamp: 0,
    }
}

/// Newest-first closes: index 0 spikes to 200 while the 50 older bars
/// sit at 100, so the short mean crosses above the long mean now and
/// the previous window was flat.
fn golden_cross_window() -> Vec<Candle> {
    let mut candles: Vec<Candle> = Vec::new();
    candles.push(candle(200 * SCALE));
    for _ in 0..50 {
        candles.push(candle(100 * SCALE));
    }
    candles
}

#[test]
fn test_sma_golden_cross() {
    let strategy = SmaCrossoverStrategy::new(20, 50);
    let signal = strategy.analyze(&golden_cross_window()).expect("signal");
    assert_eq!(signal.side, OrderSide::Buy);
    assert_eq!(signal.strength, 800_000);
    assert_eq!(signal.reason, "Golden cross");
}

#[test]
fn test_sma_death_cross() {
    // Index 0 drops to 50 under a flat history of 100.
    let mut candles: Vec<Candle> = Vec::new();
    candles.push(candle(50 * SCALE));
    for _ in 0..50 {
        candles.push(candle(100 * SCALE));
    }
    let strategy = SmaCrossoverStrategy::new(20, 50);
    let signal = strategy.analyze(&candles).expect("signal");
    assert_eq!(signal.side, OrderSide::Sell);
    assert_eq!(signal.strength, 800_000);
    assert_eq!(signal.reason, "Death cross");
}

#[test]
fn test_sma_window_too_short() {
    let strategy = SmaCrossoverStrategy::new(20, 50);
    let mut candles: Vec<Candle> = Vec::new();
    for _ in 0..50 {
        candles.push(candle(100 * SCALE));
    }
    assert!(strategy.analyze(&candles).is_none());
}

#[test]
fn test_sma_flat_series_no_signal() {
    let strategy = SmaCrossoverStrategy::new(20, 50);
    let mut candles: Vec<Candle> = Vec::new();
    for _ in 0..60 {
        candles.push(candle(100 * SCALE));
    }
    // Flat means both crossing tests compare equal sums; only the
    // strict side fails, so no signal fires.
    assert!(strategy.analyze(&candles).is_none());
}

/// 15 closes, newest first, whose 14 deltas sum to 25 of gain and 75
/// of loss: RSI = 100 * 25 / 100 = 25.
fn rsi_25_window() -> Vec<Candle> {
    let mut candles: Vec<Candle> = Vec::new();
    candles.push(candle(950 * SCALE));
    candles.push(candle(925 * SCALE));
    for _ in 0..13 {
        candles.push(candle(1_000 * SCALE));
    }
    candles
}

#[test]
fn test_rsi_oversold_buy() {
    // RSI 25 with oversold 30: Buy with strength (30 - 25) / 30.
    let strategy = RsiStrategy::new(14, 30 * SCALE, 70 * SCALE);
    let signal = strategy.analyze(&rsi_25_window()).expect("signal");
    assert_eq!(signal.side, OrderSide::Buy);
    assert_eq!(signal.strength, 166_666);
    assert_eq!(signal.reason, "RSI oversold");
}

#[test]
fn test_rsi_overbought_sell() {
    // All gains: RSI 100 > 70, strength (100 - 70) / (100 - 70) = 1.
    let mut candles: Vec<Candle> = Vec::new();
    for i in 0..15u64 {
        candles.push(candle((1_000 - i) * SCALE));
    }
    let strategy = RsiStrategy::new(14, 30 * SCALE, 70 * SCALE);
    let signal = strategy.analyze(&candles).expect("signal");
    assert_eq!(signal.side, OrderSide::Sell);
    assert_eq!(signal.strength, SCALE);
    assert_eq!(signal.reason, "RSI overbought");
}

#[test]
fn test_rsi_window_too_short() {
    let strategy = RsiStrategy::new(14, 30 * SCALE, 70 * SCALE);
    let mut candles: Vec<Candle> = Vec::new();
    for _ in 0..14 {
        candles.push(candle(100 * SCALE));
    }
    assert!(strategy.analyze(&candles).is_none());
}

#[test]
fn test_engine_runs_registered_strategies() {
    let mut engine = StrategyEngine::new();
    engine.register(AnyStrategy::SmaCrossover(SmaCrossoverStrategy::new(20, 50)));
    engine.register(AnyStrategy::Rsi(RsiStrategy::new(14, 30 * SCALE, 70 * SCALE)));
    let names = engine.list_strategies();
    assert_eq!(names, vec!["sma_crossover".to_string(), "rsi".to_string()]);

    let symbol = Symbol::new("BTC", "USDT", "binance");
    let signals = engine.run(&symbol, &golden_cross_window());
    // The crossover fires a Buy; the spike is all gain over the RSI
    // window, so the RSI of 100 fires an overbought Sell. Conflict
    // resolution is deferred to the risk layer, not done here.
    assert_eq!(signals.len(), 2);
    assert_eq!(signals[0].side, OrderSide::Buy);
    assert_eq!(signals[0].reason, "Golden cross");
    assert_eq!(signals[0].symbol.base, "BTC");
    assert_eq!(signals[1].side, OrderSide::Sell);
    assert_eq!(signals[1].reason, "RSI overbought");
}

#[test]
fn test_engine_register_replaces_by_name() {
    let mut engine = StrategyEngine::new();
    engine.register(AnyStrategy::SmaCrossover(SmaCrossoverStrategy::new(20, 50)));
    engine.register(AnyStrategy::SmaCrossover(SmaCrossoverStrategy::new(5, 10)));
    assert_eq!(engine.list_strategies().len(), 1);

    // An 11-bar window crosses for (5, 10) but is too short for (20, 50),
    // so a signal proves the replacement took effect.
    let mut candles: Vec<Candle> = Vec::new();
    candles.push(candle(200 * SCALE));
    for _ in 0..10 {
        candles.push(candle(100 * SCALE));
    }
    let symbol = Symbol::new("BTC", "USDT", "binance");
    let signals = engine.run(&symbol, &candles);
    assert_eq!(signals.len(), 1);
    assert_eq!(signals[0].side, OrderSide::Buy);
}

#[test]
fn test_set_params_updates_in_range_values() {
    let mut sma = SmaCrossoverStrategy::new(20, 50);
    let params = StrategyParams {
        short_period: Some(5),
        long_period: Some(10),
        period: None,
        oversold: None,
        overbought: None,
    };
    sma.set_params(&params);
    assert_eq!(sma.short_period, 5);
    assert_eq!(sma.long_period, 10);

    // Only one of the pair given: both stay.
    let partial = StrategyParams {
        short_period: Some(7),
        long_period: None,
        period: None,
        oversold: None,
        overbought: None,
    };
    sma.set_params(&partial);
    assert_eq!(sma.short_period, 5);
    assert_eq!(sma.long_period, 10);

    let mut rsi = RsiStrategy::new(14, 30 * SCALE, 70 * SCALE);
    let rsi_params = StrategyParams {
        short_period: None,
        long_period: None,
        period: Some(7),
        oversold: Some(20 * SCALE),
        overbought: None,
    };
    rsi.set_params(&rsi_params);
    assert_eq!(rsi.period, 7);
    assert_eq!(rsi.oversold, 20 * SCALE);
    assert_eq!(rsi.overbought, 70 * SCALE);
}
