use autohedge::decimal::parse_decimal;
use autohedge::fixed::SCALE;
use autohedge::services::position_monitor::{PendingOrder, PositionInfo, PositionTracker};

fn d_tracker(text: &str) -> i64 {
    parse_decimal(text).unwrap()
}

// ============= PositionTracker Basic Tests =============

#[test]
fn test_position_tracker_new() {
    let tracker = PositionTracker::new();
    assert!(tracker.get_all_positions().is_empty());
    assert!(tracker.get_all_pending_orders().is_empty());
}

// ============= Position Tests =============

#[test]
fn test_add_position() {
    let mut tracker = PositionTracker::new();

    let pos = PositionInfo {
        symbol: "BTC/USD".to_string(),
        entry_price: d_tracker("50000.0"),
        qty: d_tracker("0.1"),
        stop_loss: d_tracker("49000.0"),
        take_profit: d_tracker("51000.0"),
        entry_time: "2025-01-01T00:00:00Z".to_string(),
        side: "buy".to_string(),
        is_closing: false,
        open_order_id: None,
        last_recreate_attempt: None,
        recreate_attempts: 0,
        highest_price: 0,
        trailing_stop_active: false,
        trailing_stop_price: 0,
    };

    tracker.add_position(pos);

    assert!(tracker.has_position("BTC/USD"));
    assert!(!tracker.has_position("ETH/USD"));
}

#[test]
fn test_get_position() {
    let mut tracker = PositionTracker::new();

    let pos = PositionInfo {
        symbol: "ETH/USD".to_string(),
        entry_price: d_tracker("3000.0"),
        qty: d_tracker("1.0"),
        stop_loss: d_tracker("2900.0"),
        take_profit: d_tracker("3100.0"),
        entry_time: "2025-01-01T00:00:00Z".to_string(),
        side: "buy".to_string(),
        is_closing: false,
        open_order_id: Some("order123".to_string()),
        last_recreate_attempt: None,
        recreate_attempts: 0,
        highest_price: 0,
        trailing_stop_active: false,
        trailing_stop_price: 0,
    };

    tracker.add_position(pos);

    let retrieved = tracker.get_position("ETH/USD");
    assert!(retrieved.is_some());
    let retrieved = retrieved.unwrap();
    assert_eq!(retrieved.entry_price, d_tracker("3000.0"));
    assert_eq!(retrieved.qty, d_tracker("1.0"));
    assert_eq!(retrieved.open_order_id, Some("order123".to_string()));
}

#[test]
fn test_get_nonexistent_position() {
    let tracker = PositionTracker::new();
    let pos = tracker.get_position("NONEXISTENT/USD");
    assert!(pos.is_none());
}

#[test]
fn test_remove_position() {
    let mut tracker = PositionTracker::new();

    let pos = PositionInfo {
        symbol: "SOL/USD".to_string(),
        entry_price: d_tracker("100.0"),
        qty: d_tracker("10.0"),
        stop_loss: d_tracker("95.0"),
        take_profit: d_tracker("110.0"),
        entry_time: "2025-01-01T00:00:00Z".to_string(),
        side: "buy".to_string(),
        is_closing: false,
        open_order_id: None,
        last_recreate_attempt: None,
        recreate_attempts: 0,
        highest_price: 0,
        trailing_stop_active: false,
        trailing_stop_price: 0,
    };

    tracker.add_position(pos);
    assert!(tracker.has_position("SOL/USD"));

    let removed = tracker.remove_position("SOL/USD");
    assert!(removed.is_some());
    assert!(!tracker.has_position("SOL/USD"));
}

#[test]
fn test_remove_nonexistent_position() {
    let mut tracker = PositionTracker::new();
    let removed = tracker.remove_position("NONEXISTENT/USD");
    assert!(removed.is_none());
}

#[test]
fn test_get_all_positions() {
    let mut tracker = PositionTracker::new();

    for symbol in &["BTC/USD", "ETH/USD", "SOL/USD"] {
        let pos = PositionInfo {
            symbol: symbol.to_string(),
            entry_price: d_tracker("100.0"),
            qty: d_tracker("1.0"),
            stop_loss: d_tracker("95.0"),
            take_profit: d_tracker("105.0"),
            entry_time: "2025-01-01T00:00:00Z".to_string(),
            side: "buy".to_string(),
            is_closing: false,
            open_order_id: None,
            last_recreate_attempt: None,
            recreate_attempts: 0,
            highest_price: 0,
            trailing_stop_active: false,
            trailing_stop_price: 0,
        };
        tracker.add_position(pos);
    }

    let positions = tracker.get_all_positions();
    assert_eq!(positions.len(), 3);
}

#[test]
fn test_mark_closing() {
    let mut tracker = PositionTracker::new();

    let pos = PositionInfo {
        symbol: "DOGE/USD".to_string(),
        entry_price: d_tracker("0.08"),
        qty: d_tracker("10000.0"),
        stop_loss: d_tracker("0.07"),
        take_profit: d_tracker("0.09"),
        entry_time: "2025-01-01T00:00:00Z".to_string(),
        side: "buy".to_string(),
        is_closing: false,
        open_order_id: None,
        last_recreate_attempt: None,
        recreate_attempts: 0,
        highest_price: 0,
        trailing_stop_active: false,
        trailing_stop_price: 0,
    };

    tracker.add_position(pos);

    // Verify not closing initially
    let before = tracker.get_position("DOGE/USD").unwrap();
    assert!(!before.is_closing);

    // Mark as closing
    tracker.mark_closing("DOGE/USD");

    let after = tracker.get_position("DOGE/USD").unwrap();
    assert!(after.is_closing);
}

#[test]
fn test_position_overwrite() {
    let mut tracker = PositionTracker::new();

    let pos1 = PositionInfo {
        symbol: "XRP/USD".to_string(),
        entry_price: d_tracker("0.50"),
        qty: d_tracker("1000.0"),
        stop_loss: d_tracker("0.45"),
        take_profit: d_tracker("0.55"),
        entry_time: "2025-01-01T00:00:00Z".to_string(),
        side: "buy".to_string(),
        is_closing: false,
        open_order_id: None,
        last_recreate_attempt: None,
        recreate_attempts: 0,
        highest_price: 0,
        trailing_stop_active: false,
        trailing_stop_price: 0,
    };

    let pos2 = PositionInfo {
        symbol: "XRP/USD".to_string(),
        entry_price: d_tracker("0.55"),
        qty: d_tracker("2000.0"),
        stop_loss: d_tracker("0.50"),
        take_profit: d_tracker("0.60"),
        entry_time: "2025-01-01T01:00:00Z".to_string(),
        side: "buy".to_string(),
        is_closing: false,
        open_order_id: None,
        last_recreate_attempt: None,
        recreate_attempts: 0,
        highest_price: 0,
        trailing_stop_active: false,
        trailing_stop_price: 0,
    };

    tracker.add_position(pos1);
    tracker.add_position(pos2);

    // Should have the second position
    let pos = tracker.get_position("XRP/USD").unwrap();
    assert_eq!(pos.entry_price, d_tracker("0.55"));
    assert_eq!(pos.qty, d_tracker("2000.0"));
}

// ============= Pending Order Tests =============

#[test]
fn test_add_pending_order() {
    let mut tracker = PositionTracker::new();

    let order = PendingOrder {
        order_id: "order123".to_string(),
        symbol: "BTC/USD".to_string(),
        side: "buy".to_string(),
        limit_price: d_tracker("50000.0"),
        qty: d_tracker("0.1"),
        created_at: "2025-01-01T00:00:00Z".to_string(),
        stop_loss: Some(d_tracker("49000.0")),
        take_profit: Some(d_tracker("51000.0")),
        last_check_time: None,
    };

    tracker.add_pending_order(order);

    let orders = tracker.get_all_pending_orders();
    assert_eq!(orders.len(), 1);
    assert_eq!(orders[0].order_id, "order123");
}

#[test]
fn test_remove_pending_order() {
    let mut tracker = PositionTracker::new();

    let order = PendingOrder {
        order_id: "order456".to_string(),
        symbol: "ETH/USD".to_string(),
        side: "sell".to_string(),
        limit_price: d_tracker("3100.0"),
        qty: d_tracker("1.0"),
        created_at: "2025-01-01T00:00:00Z".to_string(),
        stop_loss: None,
        take_profit: None,
        last_check_time: None,
    };

    tracker.add_pending_order(order);
    assert_eq!(tracker.get_all_pending_orders().len(), 1);

    let removed = tracker.remove_pending_order("order456");
    assert!(removed.is_some());
    assert_eq!(tracker.get_all_pending_orders().len(), 0);
}

#[test]
fn test_remove_nonexistent_pending_order() {
    let mut tracker = PositionTracker::new();
    let removed = tracker.remove_pending_order("nonexistent");
    assert!(removed.is_none());
}

#[test]
fn test_multiple_pending_orders() {
    let mut tracker = PositionTracker::new();

    for i in 0..5 {
        let order = PendingOrder {
            order_id: format!("order{}", i),
            symbol: format!("SYM{}/USD", i),
            side: "buy".to_string(),
            limit_price: d_tracker("100.0") + i as i64 * SCALE,
            qty: d_tracker("1.0"),
            created_at: "2025-01-01T00:00:00Z".to_string(),
            stop_loss: None,
            take_profit: None,
            last_check_time: None,
        };
        tracker.add_pending_order(order);
    }

    let orders = tracker.get_all_pending_orders();
    assert_eq!(orders.len(), 5);
}

#[test]
fn test_update_pending_order_check_time() {
    let mut tracker = PositionTracker::new();

    let order = PendingOrder {
        order_id: "order789".to_string(),
        symbol: "SOL/USD".to_string(),
        side: "buy".to_string(),
        limit_price: d_tracker("100.0"),
        qty: d_tracker("10.0"),
        created_at: "2025-01-01T00:00:00Z".to_string(),
        stop_loss: None,
        take_profit: None,
        last_check_time: None,
    };

    tracker.add_pending_order(order);

    // Update check time
    tracker.update_pending_order_check_time("order789");

    let orders = tracker.get_all_pending_orders();
    assert!(orders[0].last_check_time.is_some());
}

// ============= PositionInfo Struct Tests =============

#[test]
fn test_position_info_fields() {
    let pos = PositionInfo {
        symbol: "LTC/USD".to_string(),
        entry_price: d_tracker("80.0"),
        qty: d_tracker("5.0"),
        stop_loss: d_tracker("75.0"),
        take_profit: d_tracker("88.0"),
        entry_time: "2025-01-01T00:00:00Z".to_string(),
        side: "buy".to_string(),
        is_closing: true,
        open_order_id: Some("tp_order".to_string()),
        last_recreate_attempt: None,
        recreate_attempts: 0,
        highest_price: 0,
        trailing_stop_active: false,
        trailing_stop_price: 0,
    };

    assert_eq!(pos.symbol, "LTC/USD");
    assert_eq!(pos.entry_price, d_tracker("80.0"));
    assert_eq!(pos.stop_loss, d_tracker("75.0"));
    assert_eq!(pos.take_profit, d_tracker("88.0"));
    assert!(pos.is_closing);
}

#[test]
fn test_position_info_clone() {
    let pos = PositionInfo {
        symbol: "DOT/USD".to_string(),
        entry_price: d_tracker("5.0"),
        qty: d_tracker("100.0"),
        stop_loss: d_tracker("4.5"),
        take_profit: d_tracker("5.5"),
        entry_time: "2025-01-01T00:00:00Z".to_string(),
        side: "buy".to_string(),
        is_closing: false,
        open_order_id: None,
        last_recreate_attempt: None,
        recreate_attempts: 0,
        highest_price: 0,
        trailing_stop_active: false,
        trailing_stop_price: 0,
    };

    let cloned = pos.clone();
    assert_eq!(cloned.symbol, "DOT/USD");
    assert_eq!(cloned.qty, d_tracker("100.0"));
}

// ============= PendingOrder Struct Tests =============

#[test]
fn test_pending_order_fields() {
    let order = PendingOrder {
        order_id: "test_order".to_string(),
        symbol: "SHIB/USD".to_string(),
        side: "sell".to_string(),
        limit_price: d_tracker("0.00001"),
        qty: d_tracker("1000000.0"),
        created_at: "2025-01-01T00:00:00Z".to_string(),
        stop_loss: Some(d_tracker("0.000009")),
        take_profit: Some(d_tracker("0.000011")),
        last_check_time: None,
    };

    assert_eq!(order.order_id, "test_order");
    assert_eq!(order.side, "sell");
    assert_eq!(order.stop_loss, Some(d_tracker("0.000009")));
}

#[test]
fn test_pending_order_clone() {
    let order = PendingOrder {
        order_id: "clone_test".to_string(),
        symbol: "ADA/USD".to_string(),
        side: "buy".to_string(),
        limit_price: d_tracker("0.35"),
        qty: d_tracker("500.0"),
        created_at: "2025-01-01T00:00:00Z".to_string(),
        stop_loss: None,
        take_profit: None,
        last_check_time: None,
    };

    let cloned = order.clone();
    assert_eq!(cloned.order_id, "clone_test");
}

// ============= Explicit clock =============

fn sample_pending(id: &str, symbol: &str, side: &str) -> PendingOrder {
    PendingOrder {
        order_id: id.to_string(),
        symbol: symbol.to_string(),
        side: side.to_string(),
        limit_price: d_tracker("100"),
        qty: SCALE,
        created_at: "2025-01-01T00:00:00Z".to_string(),
        stop_loss: None,
        take_profit: None,
        last_check_time: None,
    }
}

#[test]
fn pending_order_is_stamped_on_entry_and_on_check() {
    let mut tracker = PositionTracker::new();
    tracker.add_pending_order_at(sample_pending("o1", "BTC/USD", "buy"), 1_000);
    assert_eq!(tracker.get_all_pending_orders()[0].last_check_time, Some(1_000));
    tracker.update_pending_order_check_time_at("o1", 5_000);
    assert_eq!(tracker.get_all_pending_orders()[0].last_check_time, Some(5_000));
    tracker.update_pending_order_check_time_at("missing", 9_000);
    assert_eq!(tracker.get_all_pending_orders().len(), 1);
    assert_eq!(tracker.get_all_pending_orders()[0].last_check_time, Some(5_000));
}

#[test]
fn pending_order_of_same_id_is_replaced() {
    let mut tracker = PositionTracker::new();
    tracker.add_pending_order_at(sample_pending("o1", "BTC/USD", "buy"), 1);
    tracker.add_pending_order_at(sample_pending("o1", "ETH/USD", "sell"), 2);
    let orders = tracker.get_all_pending_orders();
    assert_eq!(orders.len(), 1);
    assert_eq!(orders[0].symbol, "ETH/USD");
}

#[test]
fn find_pending_matches_symbol_and_side() {
    let mut tracker = PositionTracker::new();
    tracker.add_pending_order_at(sample_pending("b1", "BTC/USD", "buy"), 1);
    tracker.add_pending_order_at(sample_pending("s1", "BTC/USD", "sell"), 1);
    tracker.add_pending_order_at(sample_pending("s2", "ETH/USD", "sell"), 1);
    assert_eq!(tracker.find_pending("BTC/USD", "sell"), Some("s1".to_string()));
    assert_eq!(tracker.find_pending("BTC/USD", "buy"), Some("b1".to_string()));
    assert_eq!(tracker.find_pending("ETH/USD", "buy"), None);
    assert_eq!(tracker.find_pending("SOL/USD", "sell"), None);
}

#[test]
fn add_position_always_starts_not_closing() {
    let mut tracker = PositionTracker::new();
    let pos = PositionInfo {
        symbol: "BTC/USD".to_string(),
        entry_price: d_tracker("100"),
        qty: SCALE,
        stop_loss: d_tracker("99"),
        take_profit: d_tracker("101"),
        entry_time: String::new(),
        side: "buy".to_string(),
        is_closing: true,
        open_order_id: None,
        last_recreate_attempt: None,
        recreate_attempts: 0,
        highest_price: 0,
        trailing_stop_active: false,
        trailing_stop_price: 0,
    };
    tracker.add_position(pos);
    assert!(!tracker.get_position("BTC/USD").unwrap().is_closing);
    tracker.mark_closing("ETH/USD");
    assert!(!tracker.has_position("ETH/USD"));
}

#[test]
fn tracker_owns_no_market_data() {
    let tracker = PositionTracker::new();
    assert!(tracker.get_quote_history("BTC/USD").is_empty());
    assert_eq!(tracker.get_last_bid("BTC/USD"), None);
}

#[test]
fn set_quantity_and_open_order_touch_one_position() {
    let mut tracker = PositionTracker::new();
    for symbol in ["A/USD", "B/USD"] {
        tracker.add_position(PositionInfo {
            symbol: symbol.to_string(),
            entry_price: d_tracker("100"),
            qty: SCALE,
            stop_loss: d_tracker("99"),
            take_profit: d_tracker("101"),
            entry_time: String::new(),
            side: "buy".to_string(),
            is_closing: false,
            open_order_id: None,
            last_recreate_attempt: None,
            recreate_attempts: 0,
            highest_price: 0,
            trailing_stop_active: false,
            trailing_stop_price: 0,
        });
    }
    tracker.set_quantity("A/USD", 7);
    tracker.set_open_order("A/USD", Some("tp".to_string()));
    tracker.record_recreate_attempt("A/USD", 42);
    let a = tracker.get_position("A/USD").unwrap();
    let b = tracker.get_position("B/USD").unwrap();
    assert_eq!(a.qty, 7);
    assert_eq!(a.open_order_id.as_deref(), Some("tp"));
    assert_eq!(a.recreate_attempts, 1);
    assert_eq!(a.last_recreate_attempt, Some(42));
    assert_eq!(b.qty, SCALE);
    assert_eq!(b.open_order_id, None);
    assert_eq!(b.recreate_attempts, 0);
}
