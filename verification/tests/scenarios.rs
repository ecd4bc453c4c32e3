use autohedge::config::{
    AlpacaConfig, AppConfig, Defaults, HftConfig, HybridConfig, LlmConfig, MicroTradeConfig,
};
use autohedge::data::store::{MarketStore, Quote};
use autohedge::decimal::parse_decimal;
use autohedge::events::{AnalysisSignal, Event, MarketEvent, OrderRequest};
use autohedge::exchange::types::{
    AccountSummary, OrderAck, OrderType, PlaceOrderRequest, Position, Side, TimeInForce,
};
use autohedge::fixed::SCALE;
use autohedge::services::execution_fast::{
    BuySizing, BuyStart, ExecutionEngine, LlmRoute, SellStart,
};
use autohedge::services::position_monitor::{
    price_of, BuyOutcome, ExitReason, PendingAction, PendingOrder, PositionAction, PositionInfo,
    PositionMonitor, PositionTracker, RecreateNext, RecreatePlan,
};
use autohedge::services::risk::{RiskEngine, RiskStart};
use autohedge::services::strategy::{HybridStep, StrategyEngine};

fn amt(text: &str) -> i64 {
    parse_decimal(text).unwrap()
}

fn scenario_config() -> AppConfig {
    AppConfig {
        trading_mode: "crypto".to_string(),
        exchange: "alpaca".to_string(),
        symbols: vec!["BTC/USD".to_string()],
        defaults: Defaults {
            take_profit_pct: amt("1"),
            stop_loss_pct: amt("0.5"),
            min_order_amount: amt("10"),
            max_order_amount: amt("100.21"),
            limit_order_expiration_days: None,
        },
        symbol_overrides: None,
        history_limit: 50,
        warmup_count: 2,
        llm_queue_size: 10,
        llm_max_concurrent: 1,
        no_trade_cooldown_quotes: 5,
        strategy_mode: "hft".to_string(),
        chatter_level: "low".to_string(),
        hft: HftConfig {
            evaluate_every_quotes: 5,
            min_edge_bps: amt("10"),
            take_profit_bps: amt("100"),
            stop_loss_bps: amt("50"),
            max_spread_bps: amt("30"),
        },
        hybrid: HybridConfig { gate_refresh_quotes: 3, no_trade_cooldown_quotes: 5 },
        micro_trade: MicroTradeConfig {
            target_balance_pct: amt("1"),
            aggression_bps: amt("5"),
            min_order_interval_ms: 250,
            account_cache_secs: 30,
            use_llm_filter: false,
            limit_orders_expire_daily: true,
            crypto_time_in_force: "gtc".to_string(),
        },
        llm: LlmConfig { api_key: None, base_url: None, model: "m".to_string() },
        alpaca: AlpacaConfig {
            api_key: String::new(),
            secret_key: String::new(),
            base_url: String::new(),
        },
        binance: None,
        coinbase: None,
        kraken: None,
        exit_on_quotes: true,
    }
}

fn quote_event(symbol: &str, bid: i64, ask: i64) -> Event {
    Event::Market(MarketEvent::Quote {
        symbol: symbol.to_string(),
        bid,
        ask,
        timestamp: "2025-01-01T00:00:00Z".to_string(),
    })
}

fn position(symbol: &str, entry: &str, qty: &str, sl: &str, tp: &str, order: Option<&str>) -> PositionInfo {
    PositionInfo {
        symbol: symbol.to_string(),
        entry_price: amt(entry),
        qty: amt(qty),
        stop_loss: amt(sl),
        take_profit: amt(tp),
        entry_time: "2025-01-01T00:00:00Z".to_string(),
        side: "buy".to_string(),
        is_closing: false,
        open_order_id: order.map(|o| o.to_string()),
        last_recreate_attempt: None,
        recreate_attempts: 0,
        highest_price: amt(entry),
        trailing_stop_active: false,
        trailing_stop_price: 0,
    }
}

fn ack(id: &str, status: &str, filled: Option<&str>) -> OrderAck {
    OrderAck {
        id: id.to_string(),
        status: status.to_string(),
        filled_qty: filled.map(amt),
        raw: "{}".to_string(),
    }
}

/// Twenty quotes whose mid rises evenly from 100.00 to 100.20, each with a
/// spread of two basis points.
fn rising_quotes() -> Vec<(i64, i64)> {
    (0..20i64)
        .map(|i| {
            let mid = amt("100") + i * amt("0.2") / 19;
            let half = mid / 10_000;
            (mid - half, mid + half)
        })
        .collect()
}

#[test]
fn hft_green_path() {
    let config = scenario_config();
    let mut strategy = StrategyEngine::new(config.clone());
    let mut store = MarketStore::new(config.history_limit);
    let mut signals: Vec<(usize, AnalysisSignal)> = Vec::new();
    for (n, (bid, ask)) in rising_quotes().into_iter().enumerate() {
        store.update_quote(
            "BTC/USD".to_string(),
            Quote {
                symbol: "BTC/USD".to_string(),
                bid_price: bid,
                ask_price: ask,
                bid_size: SCALE,
                ask_size: SCALE,
                timestamp: String::new(),
            },
        );
        if let Some(signal) = strategy.evaluate_hft("BTC/USD", bid, ask) {
            signals.push((n + 1, signal));
        }
    }
    // evaluations fall on quotes 5, 10, 15 and 20; the edge over ten quotes
    // first reaches ten basis points on the 15th
    assert_eq!(signals.iter().map(|s| s.0).collect::<Vec<_>>(), vec![15, 20]);
    let signal = signals.pop().unwrap().1;
    assert_eq!(signal.signal, "buy");
    assert_eq!(signal.confidence, SCALE);
    assert!(signal.thesis.starts_with("HFT"));
    // at mid 100.20: tp = 100.20 * 1.01, sl = 100.20 * 0.995
    assert_eq!(signal.market_context, "tp=101.20200000, sl=99.69900000");

    // risk gate, fast path
    let order: OrderRequest = match RiskEngine::begin(&signal) {
        RiskStart::Order { order } => order,
        other => panic!("expected the fast path, got {:?}", other),
    };
    assert_eq!(order.order_type, "hft_buy");
    assert_eq!(order.action, "buy");
    assert_eq!(order.qty, 0);
    assert_eq!(order.take_profit, Some(amt("101.202")));
    assert_eq!(order.stop_loss, Some(amt("99.699")));

    // execution
    let mut engine = ExecutionEngine::new(config);
    let mut tracker = PositionTracker::new();
    assert!(!ExecutionEngine::is_sell(&order));
    let limit_price = match engine.begin_buy(&order, &store, &tracker, 1_000) {
        BuyStart::Priced { limit_price, refresh_account } => {
            assert!(refresh_account);
            limit_price
        },
        other => panic!("expected a priced buy, got {:?}", other),
    };
    let last = store.get_latest_quote("BTC/USD").unwrap();
    assert!(limit_price <= last.ask_price);
    assert!(limit_price >= (last.bid_price + last.ask_price) / 2);
    engine.record_account(
        AccountSummary { buying_power: Some(amt("1000")), cash: None, portfolio_value: None },
        1_000,
    );
    let sizing = match engine.size_buy(&order, limit_price) {
        BuySizing::Sized { sizing, route } => {
            assert_eq!(route, LlmRoute::Skip);
            sizing
        },
        other => panic!("expected a sized buy, got {:?}", other),
    };
    let request = engine.build_buy_order(&order, sizing);
    assert_eq!(request.side, Side::Buy);
    assert_eq!(request.order_type, OrderType::Limit);
    assert_eq!(request.time_in_force, TimeInForce::Gtc);
    assert_eq!(request.limit_price, Some(limit_price));
    let report = engine.finish_buy(
        &mut tracker,
        &order,
        request.order_type,
        limit_price,
        sizing.qty,
        &ack("buy-1", "new", None),
        2_000,
    );
    assert_eq!(report.side, "buy");
    assert_eq!(report.price, Some(limit_price));
    // a pending buy is registered, and no position
    let pending = tracker.get_all_pending_orders();
    assert_eq!(pending.len(), 1);
    assert_eq!(pending[0].order_id, "buy-1");
    assert_eq!(pending[0].side, "buy");
    assert_eq!(pending[0].limit_price, limit_price);
    assert!(!tracker.has_position("BTC/USD"));
    // the account is fetched anew before the next order
    assert!(engine.account_cache.is_stale(2_000));
    // and a second request for the symbol is refused
    assert!(matches!(
        engine.begin_buy(&order, &store, &tracker, 2_100),
        BuyStart::Refused(_)
    ));
}

fn pending_buy_at(limit: &str, qty: &str) -> PendingOrder {
    PendingOrder {
        order_id: "buy-1".to_string(),
        symbol: "BTC/USD".to_string(),
        side: "buy".to_string(),
        limit_price: amt(limit),
        qty: amt(qty),
        created_at: "2025-01-01T00:00:00Z".to_string(),
        stop_loss: Some(amt("99.7")),
        take_profit: Some(amt("101.2")),
        last_check_time: None,
    }
}

#[test]
fn fill_then_take_profit() {
    let monitor = PositionMonitor::new(scenario_config());
    let mut tracker = PositionTracker::new();
    tracker.add_pending_order_at(pending_buy_at("100.21", "1.000"), 0);

    let (symbol, price) = price_of(&quote_event("BTC/USD", amt("100.10"), amt("100.12"))).unwrap();
    assert_eq!(price, amt("100.10"));
    let order = tracker.get_all_pending_orders().remove(0);
    assert_eq!(monitor.review_pending_order(&order, &symbol, price, 10_000), PendingAction::PollBuy);

    let outcome =
        monitor.check_pending_buy_order(&mut tracker, &order, &ack("buy-1", "filled", Some("0.998")), 10_000);
    let request: PlaceOrderRequest = match outcome {
        BuyOutcome::Filled { take_profit_order, qty_mismatch } => {
            assert!(qty_mismatch);
            take_profit_order
        },
        other => panic!("expected a fill, got {:?}", other),
    };
    // the pending buy is gone, the position stands with the filled quantity
    assert!(tracker.get_all_pending_orders().is_empty());
    let opened = tracker.get_position("BTC/USD").unwrap();
    assert_eq!(opened.qty, amt("0.998"));
    assert_eq!(opened.entry_price, amt("100.21"));
    assert_eq!(opened.take_profit, amt("101.2121"));
    assert_eq!(opened.stop_loss, amt("99.70895"));
    assert_eq!(opened.open_order_id, None);
    // the protective sell
    assert_eq!(request.side, Side::Sell);
    assert_eq!(request.order_type, OrderType::Limit);
    assert_eq!(request.limit_price, Some(amt("101.2121")));
    assert_eq!(request.qty, Some(amt("0.998")));
    assert_eq!(request.time_in_force, TimeInForce::Gtc);

    assert!(PositionMonitor::on_take_profit_placed(&mut tracker, "BTC/USD", "tp-1".to_string(), 11_000));
    let pending = tracker.get_all_pending_orders();
    assert_eq!(pending.len(), 1);
    assert_eq!(pending[0].order_id, "tp-1");
    assert_eq!(pending[0].side, "sell");
    assert_eq!(pending[0].limit_price, amt("101.2121"));
    assert_eq!(pending[0].qty, amt("0.998"));
    assert_eq!(pending[0].stop_loss, None);
    assert_eq!(tracker.get_position("BTC/USD").unwrap().open_order_id.as_deref(), Some("tp-1"));
}

#[test]
fn orphan_recreation() {
    let mut tracker = PositionTracker::new();
    tracker.add_position(position("BTC/USD", "100", "1.0", "99.5", "101.00", None));

    match PositionMonitor::review_position(&mut tracker, "BTC/USD", amt("100.2"), 50_000) {
        PositionAction::Recreate => {},
        other => panic!("expected recreation, got {:?}", other),
    }
    assert_eq!(tracker.get_position("BTC/USD").unwrap().recreate_attempts, 1);

    let venue = vec![Position { symbol: "BTC/USD".to_string(), qty: amt("0.99"), avg_entry_price: None }];
    let order = match PositionMonitor::reconcile_for_recreate(&mut tracker, "BTC/USD", &venue) {
        RecreatePlan::Submit { order, qty_adjusted } => {
            assert!(qty_adjusted);
            order
        },
        other => panic!("expected an order, got {:?}", other),
    };
    assert_eq!(tracker.get_position("BTC/USD").unwrap().qty, amt("0.99"));
    assert_eq!(order.limit_price, Some(amt("101.00")));
    assert_eq!(order.qty, Some(amt("0.99")));
    assert_eq!(order.side, Side::Sell);

    let next = PositionMonitor::on_recreate_result(
        &mut tracker,
        "BTC/USD",
        Ok("tp-9".to_string()),
        false,
        50_100,
    );
    assert_eq!(next, RecreateNext::Linked);
    assert_eq!(tracker.get_position("BTC/USD").unwrap().open_order_id.as_deref(), Some("tp-9"));
    assert_eq!(tracker.find_pending("BTC/USD", "sell"), Some("tp-9".to_string()));
}

#[test]
fn insufficient_balance_retry() {
    let mut tracker = PositionTracker::new();
    tracker.add_position(position("BTC/USD", "100", "1.0", "99.5", "101.00", None));
    let first = vec![Position { symbol: "BTC/USD".to_string(), qty: amt("1.0"), avg_entry_price: None }];
    match PositionMonitor::reconcile_for_recreate(&mut tracker, "BTC/USD", &first) {
        RecreatePlan::Submit { order, qty_adjusted } => {
            assert!(!qty_adjusted);
            assert_eq!(order.qty, Some(amt("1.0")));
        },
        other => panic!("expected an order, got {:?}", other),
    }
    let error = "Failed to place order (403 Forbidden): {\"code\":40310000,\"message\":\"insufficient balance for BTC (requested: 1, available: 0.97)\"}";
    let next = PositionMonitor::on_recreate_result(
        &mut tracker,
        "BTC/USD",
        Err(error.to_string()),
        false,
        1,
    );
    assert_eq!(next, RecreateNext::RetryWithFreshHoldings);

    let second = vec![Position { symbol: "BTC/USD".to_string(), qty: amt("0.97"), avg_entry_price: None }];
    match PositionMonitor::reconcile_for_recreate(&mut tracker, "BTC/USD", &second) {
        RecreatePlan::Submit { order, qty_adjusted } => {
            assert!(qty_adjusted);
            assert_eq!(order.qty, Some(amt("0.97")));
        },
        other => panic!("expected an order, got {:?}", other),
    }
    let next =
        PositionMonitor::on_recreate_result(&mut tracker, "BTC/USD", Ok("tp-2".to_string()), true, 2);
    assert_eq!(next, RecreateNext::Linked);
    assert_eq!(tracker.get_position("BTC/USD").unwrap().qty, amt("0.97"));

    // a second insufficient balance is not retried again, nor is any other error
    assert_eq!(
        PositionMonitor::on_recreate_result(&mut tracker, "BTC/USD", Err(error.to_string()), true, 3),
        RecreateNext::GaveUp
    );
    assert_eq!(
        PositionMonitor::on_recreate_result(
            &mut tracker,
            "BTC/USD",
            Err("HTTP 500".to_string()),
            false,
            3
        ),
        RecreateNext::GaveUp
    );
}

#[test]
fn stop_loss_exit() {
    let config = scenario_config();
    let mut tracker = PositionTracker::new();
    tracker.add_position(position("BTC/USD", "100", "2", "99.5", "101", Some("tp-1")));
    let mut store = MarketStore::new(10);
    store.update_quote(
        "BTC/USD".to_string(),
        Quote {
            symbol: "BTC/USD".to_string(),
            bid_price: amt("99.40"),
            ask_price: amt("99.45"),
            bid_size: 0,
            ask_size: 0,
            timestamp: String::new(),
        },
    );
    let (symbol, price) = price_of(&quote_event("BTC/USD", amt("99.40"), amt("99.45"))).unwrap();
    let signal = match PositionMonitor::review_position(&mut tracker, &symbol, price, 1) {
        PositionAction::Exit { signal, reason } => {
            assert_eq!(reason, ExitReason::StopLoss);
            signal
        },
        other => panic!("expected an exit, got {:?}", other),
    };
    assert_eq!(signal.signal, "sell");
    assert_eq!(signal.market_context, "Reason: stop_loss");
    assert_eq!(
        signal.thesis,
        "Exit signal for BTC/USD due to stop_loss. Entry: $100.00000000, Current: $99.40000000, P/L: -0.60000000%"
    );
    assert!(tracker.get_position("BTC/USD").unwrap().is_closing);
    // a second quote starts no second exit
    assert!(matches!(
        PositionMonitor::review_position(&mut tracker, &symbol, price, 2),
        PositionAction::Idle
    ));

    // risk: not a momentum signal, so the agent is asked; its approval lets the sell through
    assert!(matches!(RiskEngine::begin(&signal), RiskStart::AskAgent));
    let order = RiskEngine::finish(&signal, "{\"approved\": true}").unwrap();
    assert_eq!(order.action, "sell");
    assert_eq!(order.order_type, "market");

    // execution: a market sell of the tracked quantity
    let engine = ExecutionEngine::new(config);
    assert!(ExecutionEngine::is_sell(&order));
    let (request, price, qty) = match engine.begin_sell(&order, &store, &tracker) {
        SellStart::Submit { order, price, qty } => (order, price, qty),
        other => panic!("expected a sell, got {:?}", other),
    };
    assert_eq!(request.order_type, OrderType::Market);
    assert_eq!(request.side, Side::Sell);
    assert_eq!(request.qty, Some(amt("2")));
    assert_eq!(request.time_in_force, TimeInForce::Gtc);
    assert_eq!(price, amt("99.40"));
    let report = ExecutionEngine::finish_sell(&mut tracker, &order, &ack("s-1", "accepted", None), price, qty);
    assert_eq!(report.side, "sell");
    assert_eq!(report.qty, Some(amt("2")));
    assert!(!tracker.has_position("BTC/USD"));
}

#[test]
fn hybrid_gate_closed() {
    let mut config = scenario_config();
    config.strategy_mode = "hybrid".to_string();
    config.hft.evaluate_every_quotes = 1;
    config.hft.min_edge_bps = amt("-1000000");
    let cooldown = config.hybrid.no_trade_cooldown_quotes;
    let mut strategy = StrategyEngine::new(config);
    let (bid, ask) = (amt("100"), amt("100.01"));

    // the first refresh falls on the third quote; until then momentum signals flow
    let mut asked = 0;
    for n in 1..=3 {
        match strategy.hybrid_begin("BTC/USD", bid, ask, 10) {
            HybridStep::AskDirector => {
                asked = n;
                strategy.hybrid_director_reply("BTC/USD", "{\"descision\": \"no_trade\"}");
            },
            HybridStep::Evaluate => {},
            HybridStep::Rejected => panic!("usable quote rejected"),
        }
        let signal = strategy.hybrid_evaluate("BTC/USD", bid, ask);
        if n == 2 {
            assert!(signal.is_some());
        }
        if n == 3 {
            assert!(signal.is_none());
        }
    }
    assert_eq!(asked, 3);
    assert!(!strategy.gate_open("BTC/USD"));

    // across the cooldown no signal is given and the director is not asked
    for _ in 0..cooldown {
        assert_eq!(strategy.hybrid_begin("BTC/USD", bid, ask, 10), HybridStep::Evaluate);
        assert!(strategy.hybrid_evaluate("BTC/USD", bid, ask).is_none());
    }
    // the quote after the cooldown refreshes
    assert_eq!(strategy.hybrid_begin("BTC/USD", bid, ask, 10), HybridStep::AskDirector);
    strategy.hybrid_director_reply("BTC/USD", "There is a clear trade opportunity");
    assert!(strategy.gate_open("BTC/USD"));
    assert!(strategy.hybrid_evaluate("BTC/USD", bid, ask).is_some());
}
