use trading_core::fixed::SCALE;
use trading_core::models::{Order, OrderSide, OrderStatus, Position, Symbol};
use trading_core::repo::MemoryRepository;

fn position(base: &str, current_price: u64) -> Position {
    Position {
        symbol: Symbol::new(base, "USDT", "binance"),
        quantity: SCALE,
        avg_price: current_price,
        current_price,
        unrealized_pnl: 0,
        realized_pnl: 0,
        updated_at: 0,
    }
}

#[test]
fn test_repository_order_upsert() {
    let mut repo = MemoryRepository::new();
    let mut order =
        Order::new_market(Symbol::new("BTC", "USDT", "binance"), OrderSide::Buy, SCALE);
    let id = order.id.clone();
    repo.save_order(order.duplicate());

    // Saving the same id again replaces the stored order.
    order.status = OrderStatus::Filled;
    order.filled_quantity = order.quantity;
    repo.save_order(order);
    assert_eq!(repo.orders.len(), 1);

    let fetched = repo.get_order(&id).expect("stored order");
    assert_eq!(fetched.status, OrderStatus::Filled);
    assert_eq!(fetched.filled_quantity, SCALE);
    assert!(repo.get_order("no-such-id").is_none());
}

#[test]
fn test_repository_orders_with_distinct_ids_accumulate() {
    let mut repo = MemoryRepository::new();
    let a = Order::new_market(Symbol::new("BTC", "USDT", "binance"), OrderSide::Buy, SCALE);
    let b = Order::new_market(Symbol::new("ETH", "USDT", "binance"), OrderSide::Sell, SCALE);
    let id_a = a.id.clone();
    let id_b = b.id.clone();
    repo.save_order(a);
    repo.save_order(b);
    assert_eq!(repo.orders.len(), 2);
    assert_eq!(repo.get_order(&id_a).expect("a").symbol.base, "BTC");
    assert_eq!(repo.get_order(&id_b).expect("b").symbol.base, "ETH");
}

#[test]
fn test_repository_position_upsert_by_symbol() {
    let mut repo = MemoryRepository::new();
    repo.save_position(position("BTC", 50_000 * SCALE));
    repo.save_position(position("ETH", 2_000 * SCALE));
    // A second save for the same symbol replaces, keeping one
    // position per symbol.
    repo.save_position(position("BTC", 51_000 * SCALE));

    let all = repo.get_positions();
    assert_eq!(all.len(), 2);
    assert_eq!(all[0].symbol.base, "BTC");
    assert_eq!(all[0].current_price, 51_000 * SCALE);
    assert_eq!(all[1].symbol.base, "ETH");
}
