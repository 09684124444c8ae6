use trading_core::fixed::SCALE;
use trading_core::models::{OrderSide, Position, Signal, Symbol};
use trading_core::risk::{RiskCheckResult, RiskConfig, RiskManager};

fn position(avg_price: u64, current_price: u64) -> Position {
    Position {
        symbol: Symbol::new("BTC", "USDT", "binance"),
        quantity: SCALE,
        avg_price,
        current_price,
        unrealized_pnl: 0,
        realized_pnl: 0,
        updated_at: 0,
    }
}

#[test]
fn test_position_sizing() {
    let risk_manager = RiskManager::with_default_config();
    let signal = Signal::new(
        Symbol::new("BTC", "USDT", "binance"),
        OrderSide::Buy,
        800_000,
        "Test signal",
    );

    let position_size =
        risk_manager.calculate_position_size(&signal, 10_000 * SCALE, 50_000 * SCALE);

    // Should be positive
    assert!(position_size > 0);
}

#[test]
fn test_position_sizing_exact_value() {
    // Portfolio 10000, entry 50000, defaults: the 10% portfolio cap
    // (1000) is smaller than the risk-derived notional (10000), so
    // quantity = 1000 / 50000 = 0.02 units.
    let rm = RiskManager::with_default_config();
    let signal = Signal::new(Symbol::new("BTC", "USDT", "binance"), OrderSide::Buy, 800_000, "x");
    let size = rm.calculate_position_size(&signal, 10_000 * SCALE, 50_000 * SCALE);
    assert_eq!(size, 20_000);
}

#[test]
fn test_position_sizing_is_pure() {
    let rm = RiskManager::with_default_config();
    let signal = Signal::new(Symbol::new("ETH", "USDT", "binance"), OrderSide::Buy, 900_000, "x");
    let a = rm.calculate_position_size(&signal, 12_345 * SCALE, 2_345 * SCALE);
    let b = rm.calculate_position_size(&signal, 12_345 * SCALE, 2_345 * SCALE);
    assert_eq!(a, b);
}

#[test]
fn test_check_signal_strength_gate() {
    let rm = RiskManager::with_default_config();
    let weak = Signal::new(Symbol::new("BTC", "USDT", "binance"), OrderSide::Buy, 400_000, "x");
    let strong = Signal::new(Symbol::new("BTC", "USDT", "binance"), OrderSide::Buy, 500_000, "x");
    assert_eq!(
        rm.check_signal(&weak, 10_000 * SCALE),
        RiskCheckResult::Rejected("Signal strength too low".to_string())
    );
    assert_eq!(rm.check_signal(&strong, 10_000 * SCALE), RiskCheckResult::Approved);
}

#[test]
fn test_check_order_max_positions() {
    let rm = RiskManager::with_default_config();
    let order = trading_core::models::Order::new_market(
        Symbol::new("BTC", "USDT", "binance"),
        OrderSide::Buy,
        SCALE,
    );
    let four: Vec<Position> = (0..4).map(|_| position(100 * SCALE, 100 * SCALE)).collect();
    let five: Vec<Position> = (0..5).map(|_| position(100 * SCALE, 100 * SCALE)).collect();
    assert_eq!(rm.check_order(&order, &four), RiskCheckResult::Approved);
    assert_eq!(
        rm.check_order(&order, &five),
        RiskCheckResult::Rejected("Max open positions reached".to_string())
    );
}

#[test]
fn test_check_exit_stop_loss() {
    // avg 100, current 97.9: pnl fraction -0.021 <= -0.02, so Sell.
    let rm = RiskManager::with_default_config();
    let p = position(100 * SCALE, 97_900_000);
    assert_eq!(rm.check_exit_conditions(&p), Some(OrderSide::Sell));
}

#[test]
fn test_check_exit_take_profit() {
    // avg 100, current 104.1: pnl fraction 0.041 >= 0.04, so Sell.
    let rm = RiskManager::with_default_config();
    let p = position(100 * SCALE, 104_100_000);
    assert_eq!(rm.check_exit_conditions(&p), Some(OrderSide::Sell));
}

#[test]
fn test_check_exit_inside_band() {
    let rm = RiskManager::with_default_config();
    let p = position(100 * SCALE, 99 * SCALE);
    assert_eq!(rm.check_exit_conditions(&p), None);
}

#[test]
fn test_daily_pnl_accumulation_and_reset() {
    let mut rm = RiskManager::with_default_config();
    rm.update_daily_pnl(-(300 * SCALE as i64));
    rm.update_daily_pnl(-(300 * SCALE as i64));
    assert_eq!(rm.daily_pnl, -(600 * SCALE as i128));
    assert_eq!(rm.daily_trades, 2);
    // 600 lost out of 10000 is beyond the 5% daily limit.
    assert!(rm.daily_loss_limit_reached(10_000 * SCALE));
    rm.reset_daily();
    assert_eq!(rm.daily_pnl, 0);
    assert_eq!(rm.daily_trades, 0);
    assert!(!rm.daily_loss_limit_reached(10_000 * SCALE));
}

#[test]
fn test_daily_loss_limit_not_reached() {
    let mut rm = RiskManager::with_default_config();
    rm.update_daily_pnl(-(400 * SCALE as i64));
    assert!(!rm.daily_loss_limit_reached(10_000 * SCALE));
    // Exactly 5% of 10000 reaches the limit.
    rm.update_daily_pnl(-(100 * SCALE as i64));
    assert!(rm.daily_loss_limit_reached(10_000 * SCALE));
}

#[test]
fn test_default_config_values() {
    let cfg = RiskConfig::default();
    assert_eq!(cfg.max_position_size, 100_000);
    assert_eq!(cfg.max_loss_per_trade, 20_000);
    assert_eq!(cfg.max_daily_loss, 50_000);
    assert_eq!(cfg.max_open_positions, 5);
    assert_eq!(cfg.stop_loss_pct, 20_000);
    assert_eq!(cfg.take_profit_pct, 40_000);
}
