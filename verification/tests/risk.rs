use autohedge::decimal::parse_decimal;
use autohedge::events::AnalysisSignal;
use autohedge::exchange::types::AccountSummary;
use autohedge::services::risk::{approves, reply_amount, tagged_amount, RiskEngine, RiskStart};

fn r(text: &str) -> i64 {
    parse_decimal(text).unwrap()
}

fn signal(kind: &str, thesis: &str, context: &str) -> AnalysisSignal {
    AnalysisSignal {
        symbol: "DOGE/USD".to_string(),
        signal: kind.to_string(),
        confidence: 0,
        thesis: thesis.to_string(),
        market_context: context.to_string(),
    }
}

#[test]
fn tagged_amounts() {
    assert_eq!(tagged_amount("tp=0.082, sl=0.078", "tp="), Some(r("0.082")));
    assert_eq!(tagged_amount("tp=0.082, sl=0.078", "sl="), Some(r("0.078")));
    assert_eq!(tagged_amount("tp=3500, sl=3200", "tp="), Some(r("3500")));
    assert_eq!(tagged_amount("tp=$101.5 sl=$99", "tp="), Some(r("101.5")));
    assert_eq!(tagged_amount("tp=$101.5 sl=$99", "sl="), Some(r("99")));
    assert_eq!(tagged_amount("tp=101.5%", "tp="), Some(r("101.5")));
    assert_eq!(tagged_amount("tp=101.20200000, sl=99.69900000", "sl="), Some(r("99.699")));
    // the first occurrence counts
    assert_eq!(tagged_amount("tp=1 tp=2", "tp="), Some(r("1")));
    // missing or malformed
    assert_eq!(tagged_amount("sl=1", "tp="), None);
    assert_eq!(tagged_amount("tp=", "tp="), None);
    assert_eq!(tagged_amount("tp=abc", "tp="), None);
    assert_eq!(tagged_amount("tp=1.2.3", "tp="), None);
    assert_eq!(tagged_amount("tp=-5", "tp="), None);
    assert_eq!(tagged_amount("tp= 5", "tp="), None);
    assert_eq!(tagged_amount("", "tp="), None);
}

#[test]
fn fast_path() {
    let s = signal("buy", "HFT momentum: edge_bps=15.0", "tp=0.082, sl=0.078");
    match RiskEngine::begin(&s) {
        RiskStart::Order { order } => {
            assert_eq!(order.symbol, "DOGE/USD");
            assert_eq!(order.action, "buy");
            assert_eq!(order.qty, 0);
            assert_eq!(order.order_type, "hft_buy");
            assert_eq!(order.limit_price, None);
            assert_eq!(order.take_profit, Some(r("0.082")));
            assert_eq!(order.stop_loss, Some(r("0.078")));
        },
        other => panic!("expected the fast path, got {:?}", other),
    }
    // exits that cannot be read are left to execution
    match RiskEngine::begin(&signal("buy", "HFT", "")) {
        RiskStart::Order { order } => {
            assert_eq!(order.take_profit, None);
            assert_eq!(order.stop_loss, None);
        },
        other => panic!("expected the fast path, got {:?}", other),
    }
}

#[test]
fn other_signals_need_the_agent_or_are_blocked() {
    assert!(matches!(RiskEngine::begin(&signal("buy", "Bullish", "tp=1, sl=2")), RiskStart::AskAgent));
    assert!(matches!(RiskEngine::begin(&signal("buy", "hft lower case", "")), RiskStart::AskAgent));
    assert!(matches!(RiskEngine::begin(&signal("sell", "Exit signal", "")), RiskStart::AskAgent));
    assert!(matches!(RiskEngine::begin(&signal("no_trade", "HFT", "")), RiskStart::Blocked));
    assert!(matches!(RiskEngine::begin(&signal("BUY", "HFT", "")), RiskStart::Blocked));
    assert!(matches!(RiskEngine::begin(&signal("", "", "")), RiskStart::Blocked));
}

#[test]
fn approvals() {
    assert!(approves("{\"approved\": true}"));
    assert!(approves("APPROVED."));
    assert!(approves("That is True"));
    assert!(approves("{\"approved\": false}"));
    assert!(!approves("rejected"));
    assert!(!approves("{\"ok\": false}"));
    assert!(!approves(""));
}

#[test]
fn agent_path() {
    let s = signal("buy", "Bullish", "data");
    let reply = "Here you go:\n{\"approved\": true, \"position_size\": 125.0, \"stop_loss\": 0.092, \"take_profit\": 0.115, \"risk_reasoning\": \"fine\"}\nGood luck";
    let order = RiskEngine::finish(&s, reply).unwrap();
    assert_eq!(order.symbol, "DOGE/USD");
    assert_eq!(order.action, "buy");
    assert_eq!(order.qty, 0);
    assert_eq!(order.order_type, "market");
    assert_eq!(order.limit_price, None);
    assert_eq!(order.stop_loss, Some(r("0.092")));
    assert_eq!(order.take_profit, Some(r("0.115")));

    // approved without exits: execution uses its defaults
    let order = RiskEngine::finish(&s, "approved").unwrap();
    assert_eq!(order.stop_loss, None);
    assert_eq!(order.take_profit, None);
    let order = RiskEngine::finish(&s, "{\"approved\": true, \"stop_loss\": \"0.09\"}").unwrap();
    assert_eq!(order.stop_loss, None);

    // the word alone approves
    assert!(RiskEngine::finish(&s, "{\"approved\": no}").is_some());
    assert!(RiskEngine::finish(&s, "{\"ok\": false}").is_none());
    assert!(RiskEngine::finish(&s, "too risky").is_none());
}

#[test]
fn reply_amounts() {
    assert_eq!(reply_amount("{\"a\": 1.5}", "a"), Some(r("1.5")));
    assert_eq!(reply_amount("x {\"a\": 2} y", "a"), Some(r("2")));
    assert_eq!(reply_amount("{\"a\": -3.25}", "a"), Some(r("-3.25")));
    assert_eq!(reply_amount("{\"a\": 0.00000876}", "a"), Some(876));
    assert_eq!(reply_amount("{\"a\": 1e-7}", "a"), Some(10));
    assert_eq!(reply_amount("{\"a\": 1.5}", "b"), None);
    assert_eq!(reply_amount("{\"a\": \"1.5\"}", "a"), None);
    assert_eq!(reply_amount("{\"a\": null}", "a"), None);
    assert_eq!(reply_amount("{\"a\": 1.5", "a"), None);
    assert_eq!(reply_amount("no json", "a"), None);
    assert_eq!(reply_amount("} {", "a"), None);
}

#[test]
fn risk_prompt_text() {
    let s = signal("buy", "Bullish", "data");
    let account =
        AccountSummary { buying_power: Some(1), cash: Some(r("5000")), portfolio_value: None };
    assert_eq!(
        RiskEngine::risk_prompt(&s, &account),
        "Asset: DOGE/USD\nAccount Cash: 5000.00000000\nPortfolio Value: N/A\nThesis: Bullish\nQuant: N/A"
    );
}
