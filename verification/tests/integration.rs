use autohedge::bus::{EventBus, Received};
use autohedge::data::store::{MarketStore, Quote};
use autohedge::decimal::parse_decimal;
use autohedge::events::{AnalysisSignal, Event, ExecutionReport, MarketEvent, OrderRequest};
use autohedge::fixed::{add_bps, add_pct, bps_above, bps_at_least, midpoint, sub_pct, SCALE};
use autohedge::services::execution_utils::{aggressive_limit_price, compute_order_sizing};
use autohedge::services::position_monitor::{PendingOrder, PositionInfo, PositionTracker};
use autohedge::services::strategy::bps_of;

fn d_flow(text: &str) -> i64 {
    parse_decimal(text).unwrap()
}

fn next_of(rx: &mut autohedge::bus::EventReceiver) -> Option<Event> {
    match EventBus::try_receive(rx) {
        Received::Event(e) => Some(e),
        _ => None,
    }
}



/// Test the complete flow from market data to signal generation
#[test]
fn test_market_data_to_signal_flow() {
    let bus = EventBus::new(100);
    let mut store = MarketStore::new(100);

    // Simulate receiving market data
    let quote = Quote {
        symbol: "BTC/USD".to_string(),
        bid_price: d_flow("50000.0"),
        ask_price: d_flow("50001.0"),
        bid_size: d_flow("1.0"),
        ask_size: d_flow("1.0"),
        timestamp: "2025-01-01T00:00:00Z".to_string(),
    };

    store.update_quote("BTC/USD".to_string(), quote.clone());

    // Publish market event
    let event = Event::Market(MarketEvent::Quote {
        symbol: "BTC/USD".to_string(),
        bid: d_flow("50000.0"),
        ask: d_flow("50001.0"),
        timestamp: "2025-01-01T00:00:00Z".to_string(),
    });

    let mut rx = bus.subscribe();
    bus.publish(event).unwrap();

    // Verify event received
    let received = next_of(&mut rx).unwrap();
    assert!(matches!(received, Event::Market(MarketEvent::Quote { .. })));

    // Verify store has data
    let latest = store.get_latest_quote("BTC/USD").unwrap();
    assert_eq!(latest.bid_price, d_flow("50000.0"));
}

/// Test signal to order flow
#[test]
fn test_signal_to_order_flow() {
    let bus = EventBus::new(100);
    let mut rx = bus.subscribe();

    // Create analysis signal
    let signal = AnalysisSignal {
        symbol: "ETH/USD".to_string(),
        signal: "buy".to_string(),
        confidence: d_flow("0.9"),
        thesis: "HFT momentum: edge_bps=15.0".to_string(),
        market_context: "tp=3100.0, sl=2900.0".to_string(),
    };

    bus.publish(Event::Signal(signal)).unwrap();

    // Verify signal received
    if let Some(Event::Signal(sig)) = next_of(&mut rx) {
        assert_eq!(sig.symbol, "ETH/USD");
        assert_eq!(sig.signal, "buy");

        // Parse TP/SL from market_context
        assert!(sig.market_context.contains("tp="));
        assert!(sig.market_context.contains("sl="));
    }
}

/// Test order to execution flow
#[test]
fn test_order_to_execution_flow() {
    let bus = EventBus::new(100);
    let mut rx = bus.subscribe();

    // Create order request
    let order = OrderRequest {
        symbol: "SOL/USD".to_string(),
        action: "buy".to_string(),
        qty: d_flow("10.0"),
        order_type: "limit".to_string(),
        limit_price: Some(d_flow("100.0")),
        stop_loss: Some(d_flow("95.0")),
        take_profit: Some(d_flow("110.0")),
    };

    bus.publish(Event::Order(order)).unwrap();

    // Verify order received
    if let Some(Event::Order(ord)) = next_of(&mut rx) {
        assert_eq!(ord.symbol, "SOL/USD");
        assert_eq!(ord.action, "buy");
        assert_eq!(ord.limit_price, Some(d_flow("100.0")));
    }

    // Simulate execution report
    let report = ExecutionReport {
        symbol: "SOL/USD".to_string(),
        order_id: "order123".to_string(),
        status: "filled".to_string(),
        side: "buy".to_string(),
        price: Some(d_flow("100.0")),
        qty: Some(d_flow("10.0")),
    };

    bus.publish(Event::Execution(report)).unwrap();

    if let Some(Event::Execution(exec)) = next_of(&mut rx) {
        assert_eq!(exec.status, "filled");
    }
}

/// Test position tracking flow
#[test]
fn test_position_tracking_flow() {
    let mut tracker = PositionTracker::new();

    // Add pending order (buy)
    let pending_order = PendingOrder {
        order_id: "order123".to_string(),
        symbol: "DOGE/USD".to_string(),
        side: "buy".to_string(),
        limit_price: d_flow("0.08"),
        qty: d_flow("10000.0"),
        created_at: "2025-01-01T00:00:00Z".to_string(),
        stop_loss: Some(d_flow("0.075")),
        take_profit: Some(d_flow("0.085")),
        last_check_time: None,
    };

    tracker.add_pending_order(pending_order);
    assert_eq!(tracker.get_all_pending_orders().len(), 1);

    // Simulate order fill - convert to position
    tracker.remove_pending_order("order123");

    let position = PositionInfo {
        symbol: "DOGE/USD".to_string(),
        entry_price: d_flow("0.08"),
        qty: d_flow("10000.0"),
        stop_loss: d_flow("0.075"),
        take_profit: d_flow("0.085"),
        entry_time: "2025-01-01T00:00:00Z".to_string(),
        side: "buy".to_string(),
        is_closing: false,
        open_order_id: None,
        last_recreate_attempt: None,
        recreate_attempts: 0,
        highest_price: d_flow("0.08"),
        trailing_stop_active: false,
        trailing_stop_price: d_flow("0.075"),
    };

    tracker.add_position(position);
    assert!(tracker.has_position("DOGE/USD"));
    assert_eq!(tracker.get_all_pending_orders().len(), 0);
}

/// Test order sizing with position tracker
#[test]
fn test_order_sizing_integration() {
    let mut tracker = PositionTracker::new();

    // Get latest quote (simulated)
    let bid = d_flow("100.0");
    let ask = d_flow("100.1");
    let mid = (bid + ask) / 2;

    // Calculate aggressive limit price
    let limit_price = aggressive_limit_price(bid, ask, "buy", d_flow("10.0"));
    assert!(limit_price > mid);
    assert!(limit_price <= ask);

    // Calculate order sizing
    let sizing = compute_order_sizing(
        limit_price,
        d_flow("10000.0"), // buying power
        d_flow("10.0"),    // min order
        d_flow("100.0"),   // max order
        d_flow("0.05"),    // 5% of balance
    )
    .unwrap();

    assert!(sizing.notional >= d_flow("10.0"));
    assert!(sizing.notional <= d_flow("100.0"));

    // Create position after fill
    let position = PositionInfo {
        symbol: "TEST/USD".to_string(),
        entry_price: limit_price,
        qty: sizing.qty,
        stop_loss: sub_pct(limit_price, d_flow("1")),
        take_profit: add_pct(limit_price, d_flow("1")),
        entry_time: "2025-01-01T00:00:00Z".to_string(),
        side: "buy".to_string(),
        is_closing: false,
        open_order_id: None,
        last_recreate_attempt: None,
        recreate_attempts: 0,
        highest_price: limit_price,
        trailing_stop_active: false,
        trailing_stop_price: sub_pct(limit_price, d_flow("1")),
    };

    tracker.add_position(position);
    assert!(tracker.has_position("TEST/USD"));
}

/// Test multiple symbol handling
#[test]
fn test_multi_symbol_flow() {
    let bus = EventBus::new(100);
    let mut store = MarketStore::new(100);
    let mut tracker = PositionTracker::new();

    let symbols = vec!["BTC/USD", "ETH/USD", "SOL/USD", "DOGE/USD"];

    // Add quotes for each symbol
    for (i, symbol) in symbols.iter().enumerate() {
        let quote = Quote {
            symbol: symbol.to_string(),
            bid_price: (i + 1) as i64 * d_flow("1000.0"),
            ask_price: (i + 1) as i64 * d_flow("1000.0") + d_flow("1.0"),
            bid_size: d_flow("1.0"),
            ask_size: d_flow("1.0"),
            timestamp: "2025-01-01T00:00:00Z".to_string(),
        };
        store.update_quote(symbol.to_string(), quote);
    }

    // Add positions for some symbols
    for symbol in &["BTC/USD", "ETH/USD"] {
        let pos = PositionInfo {
            symbol: symbol.to_string(),
            entry_price: d_flow("1000.0"),
            qty: d_flow("1.0"),
            stop_loss: d_flow("950.0"),
            take_profit: d_flow("1050.0"),
            entry_time: "2025-01-01T00:00:00Z".to_string(),
            side: "buy".to_string(),
            is_closing: false,
            open_order_id: None,
            last_recreate_attempt: None,
            recreate_attempts: 0,
            highest_price: d_flow("1000.0"),
            trailing_stop_active: false,
            trailing_stop_price: d_flow("950.0"),
        };
        tracker.add_position(pos);
    }

    // Verify state
    assert_eq!(store.get_quote_history("BTC/USD").len(), 1);
    assert_eq!(store.get_quote_history("SOL/USD").len(), 1);
    assert!(tracker.has_position("BTC/USD"));
    assert!(tracker.has_position("ETH/USD"));
    assert!(!tracker.has_position("SOL/USD"));
    assert!(!tracker.has_position("DOGE/USD"));
}

/// Test TP/SL calculation from entry price
#[test]
fn test_tp_sl_calculation() {
    let entry_price = 100.0;
    let tp_pct = 1.0; // 1%
    let sl_pct = 0.5; // 0.5%

    let take_profit = entry_price * (1.0 + tp_pct / 100.0);
    let stop_loss = entry_price * (1.0 - sl_pct / 100.0);

    assert_eq!(take_profit, 101.0);
    assert_eq!(stop_loss, 99.5);

    // Verify TP > entry > SL
    assert!(take_profit > entry_price);
    assert!(stop_loss < entry_price);

    // the same through the library
    assert_eq!(add_pct(d_flow("100.0"), d_flow("1.0")), d_flow("101.0"));
    assert_eq!(sub_pct(d_flow("100.0"), d_flow("0.5")), d_flow("99.5"));
}

/// Test HFT edge calculation
#[test]
fn test_hft_edge_calculation() {
    let past_mid: f64 = 100.0;
    let current_mid: f64 = 100.15;

    // Edge in basis points
    let edge_bps = ((current_mid - past_mid) / past_mid) * 10_000.0;

    assert!((edge_bps - 15.0).abs() < 0.1);

    // Should trigger if edge >= min_edge_bps
    let min_edge_bps = 10.0;
    assert!(edge_bps >= min_edge_bps);

    // the same through the library
    let (past, current) = (d_flow("100.0"), d_flow("100.15"));
    assert_eq!(bps_of(current, past, past), d_flow("15.0"));
    assert!(bps_at_least(current, past, past, d_flow("10.0")));
    assert!(bps_at_least(current, past, past, d_flow("15.0")));
    assert!(!bps_at_least(current, past, past, d_flow("15.00000001")));
}

/// Test spread calculation
#[test]
fn test_spread_calculation() {
    let bid: f64 = 100.0;
    let ask: f64 = 100.05;
    let mid = (bid + ask) / 2.0;

    let spread_bps = ((ask - bid) / mid) * 10_000.0;

    assert!((spread_bps - 5.0).abs() < 0.1);

    // Should trade if spread <= max_spread_bps
    let max_spread_bps = 10.0;
    assert!(spread_bps <= max_spread_bps);

    // the same through the library
    let (b, a) = (d_flow("100.0"), d_flow("100.05"));
    let m = midpoint(b, a);
    assert_eq!(m, d_flow("100.025"));
    assert_eq!(bps_of(a, b, m), d_flow("4.99875031"));
    assert!(!bps_above(a, b, m, d_flow("10.0")));
    assert!(bps_above(a, b, m, d_flow("4.9")));
}

/// Test concurrent event publishing
#[test]
fn test_concurrent_event_publishing() {
    let bus = EventBus::new(1000);
    let mut rx = bus.subscribe();

    // Several handles to the same bus publish in turn
    for i in 0..10 {
        let bus_clone = bus.clone();
        for j in 0..10 {
            let event = Event::Market(MarketEvent::Quote {
                symbol: format!("SYM{}/USD", i),
                bid: j as i64 * d_flow("100.0"),
                ask: j as i64 * d_flow("100.0") + d_flow("1.0"),
                timestamp: format!("2025-01-01T00:00:{:02}Z", j),
            });
            let _ = bus_clone.publish(event);
        }
    }

    // Bus should handle all events without panic, and hand them out in order
    for i in 0..10 {
        for j in 0..10 {
            match next_of(&mut rx) {
                Some(Event::Market(MarketEvent::Quote { symbol, bid, .. })) => {
                    assert_eq!(symbol, format!("SYM{}/USD", i));
                    assert_eq!(bid, j as i64 * d_flow("100.0"));
                },
                _ => panic!("Expected Market Quote event"),
            }
        }
    }
    assert!(next_of(&mut rx).is_none());
}

#[test]
fn bps_moves_are_exact() {
    // 100 bps = 1%, 50 bps = 0.5%
    assert_eq!(add_bps(d_flow("100.20"), d_flow("100")), d_flow("101.202"));
    assert_eq!(SCALE, 100_000_000);
}

/// Test position lifecycle
#[test]
fn test_position_lifecycle() {
    let mut tracker = PositionTracker::new();

    // 1. Create pending buy order
    let order = PendingOrder {
        order_id: "buy123".to_string(),
        symbol: "XRP/USD".to_string(),
        side: "buy".to_string(),
        limit_price: d_flow("0.50"),
        qty: d_flow("1000.0"),
        created_at: "2025-01-01T00:00:00Z".to_string(),
        stop_loss: Some(d_flow("0.48")),
        take_profit: Some(d_flow("0.52")),
        last_check_time: None,
    };
    tracker.add_pending_order(order);

    // 2. Order fills, create position
    tracker.remove_pending_order("buy123");
    let position = PositionInfo {
        symbol: "XRP/USD".to_string(),
        entry_price: d_flow("0.50"),
        qty: d_flow("1000.0"),
        stop_loss: d_flow("0.48"),
        take_profit: d_flow("0.52"),
        entry_time: "2025-01-01T00:00:00Z".to_string(),
        side: "buy".to_string(),
        is_closing: false,
        open_order_id: None,
        last_recreate_attempt: None,
        recreate_attempts: 0,
        highest_price: d_flow("0.50"),
        trailing_stop_active: false,
        trailing_stop_price: d_flow("0.48"),
    };
    tracker.add_position(position);

    // 3. Create TP sell order
    let tp_order = PendingOrder {
        order_id: "sell456".to_string(),
        symbol: "XRP/USD".to_string(),
        side: "sell".to_string(),
        limit_price: d_flow("0.52"),
        qty: d_flow("1000.0"),
        created_at: "2025-01-01T00:01:00Z".to_string(),
        stop_loss: None,
        take_profit: None,
        last_check_time: None,
    };
    tracker.add_pending_order(tp_order);

    // 4. TP fills, close position
    tracker.remove_pending_order("sell456");
    tracker.remove_position("XRP/USD");

    // Final state: no positions, no orders
    assert!(!tracker.has_position("XRP/USD"));
    assert!(tracker.get_all_pending_orders().is_empty());
}
