use autohedge::agents::director::DirectorAgent;
use autohedge::agents::execution::ExecutionAgent;
use autohedge::agents::quant::QuantAgent;
use autohedge::agents::risk::RiskAgent;
use autohedge::agents::Agent;
use autohedge::collections::TextMap;
use autohedge::data::alpaca::Account;
use autohedge::decimal::{parse_decimal, parse_u64};
use autohedge::error::{
    is_insufficient_balance_error, parse_insufficient_balance, TrackerError, TradingError,
};
use autohedge::exchange::factory::{exchange_kind, ExchangeKind};
use autohedge::exchange::types::ExchangeCapabilities;
use autohedge::fixed::{
    add_bps, add_pct, bps_above, bps_at_least, div_floor, midpoint, mul_div, saturate, share,
    sub_bps, sub_pct, wide_mul, SCALE,
};
use autohedge::json::{items, member, number_field, number_value, string_field, text_value};
use autohedge::llm::queue::next_priority;
use autohedge::llm::Priority;
use autohedge::text::{
    append_str, contains_chars, eq_ignore_ascii_case, extract_json, lower_contains,
    is_whitespace_char, joined, starts_with, str_contains, str_eq, str_replace, trim,
};

fn a(text: &str) -> i64 {
    parse_decimal(text).unwrap()
}

#[test]
fn fixed_point_rounding() {
    assert_eq!(div_floor(7, 2), 3);
    assert_eq!(div_floor(-7, 2), -4);
    assert_eq!(div_floor(-8, 2), -4);
    assert_eq!(div_floor(0, 5), 0);
    assert_eq!(mul_div(i64::MAX, i64::MAX, 1), (i64::MAX as i128) * (i64::MAX as i128));
    assert_eq!(mul_div(-3, 5, 2), -8);
    assert_eq!(wide_mul(i64::MIN, i64::MIN), (i64::MIN as i128) * (i64::MIN as i128));
    assert_eq!(saturate(i128::MAX), i64::MAX);
    assert_eq!(saturate(i128::MIN), i64::MIN);
    assert_eq!(saturate(-5), -5);
    assert_eq!(midpoint(3, 4), 3);
    assert_eq!(midpoint(-3, -4), -4);
    assert_eq!(midpoint(i64::MAX, i64::MAX), i64::MAX);
    assert_eq!(midpoint(i64::MIN, i64::MAX), -1);
    assert_eq!(share(a("200"), a("5"), 100), a("10") as i128);
    assert_eq!(share(a("200"), a("5"), 10_000), a("0.1") as i128);
    assert_eq!(share(a("200"), a("0.05"), 1), a("10") as i128);
}

#[test]
fn exits_are_within_one_unit_of_exact() {
    // 100.21 * 1.01 = 101.2121 exactly
    assert_eq!(add_pct(a("100.21"), a("1")), a("101.2121"));
    assert_eq!(sub_pct(a("100.21"), a("0.5")), a("99.70895"));
    // 0.00000003 * 1.5: 0.000000045 exactly, rounded down; the stop-loss is rounded up
    assert_eq!(add_pct(3, a("50")), 4);
    assert_eq!(sub_pct(3, a("50")), 2);
    assert_eq!(add_bps(3, a("5000")), 4);
    assert_eq!(sub_bps(3, a("5000")), 2);
    for (price, pct) in [("100", "1"), ("0.00001234", "0.7"), ("91234.56789", "2.5"), ("1", "0")] {
        let (p, r) = (a(price) as i128, a(pct) as i128);
        let tp = add_pct(a(price), a(pct)) as i128;
        let exact_times_den = p * (100 * SCALE as i128 + r);
        assert!(tp * 100 * SCALE as i128 <= exact_times_den);
        assert!(exact_times_den < (tp + 1) * 100 * SCALE as i128);
    }
    // out of range results are pinned
    assert_eq!(add_pct(i64::MAX, a("1")), i64::MAX);
    assert_eq!(sub_pct(i64::MIN, a("-1")), i64::MIN);
}

#[test]
fn basis_point_comparisons() {
    // (ask - bid) / mid in bps against a limit
    assert!(bps_above(a("100.31"), a("100"), a("100.155"), a("30")));
    assert!(!bps_above(a("100.30"), a("100"), a("100.15"), a("30")));
    assert!(bps_at_least(a("101"), a("100"), a("100"), a("100")));
    assert!(!bps_at_least(a("101"), a("100"), a("100"), a("100.00000001")));
    assert!(bps_at_least(a("99"), a("100"), a("100"), a("-100")));
    assert!(!bps_at_least(a("99"), a("100"), a("100"), a("-99.99999999")));
}

#[test]
fn text_search_and_replace() {
    assert!(str_contains("hello world", "o w"));
    assert!(str_contains("hello", ""));
    assert!(str_contains("", ""));
    assert!(!str_contains("hello", "hello!"));
    assert!(!str_contains("", "x"));
    assert!(str_contains("ααβ", "αβ"));
    assert!(contains_chars(&vec!['a', 'b'], &vec!['b']));
    assert!(lower_contains("NO_TRADE today", "no_trade"));
    assert!(!lower_contains("NO_TRADE today", "NO_TRADE"));
    assert_eq!(str_replace("a/b/c", "/", "-"), "a-b-c");
    assert_eq!(str_replace("aaa", "aa", "b"), "ba");
    assert_eq!(str_replace("abc", "", "x"), "abc");
    assert_eq!(str_replace("abc", "abcd", "x"), "abc");
    assert_eq!(str_replace("a/b", "/", ""), "ab");
    assert!(eq_ignore_ascii_case("Filled", "fILLED"));
    assert!(!eq_ignore_ascii_case("filled", "filed"));
    assert!(!eq_ignore_ascii_case("ä", "Ä"));
    assert!(str_eq("a", "a"));
    assert!(!str_eq("a", "A"));
    assert!(!str_eq("a", "ab"));
    assert!(starts_with("HFT momentum", "HFT"));
    assert!(!starts_with("an HFT", "HFT"));
    assert!(starts_with("x", ""));
    assert_eq!(joined("ab", "cd"), "abcd");
    let mut s = "x".to_string();
    append_str(&mut s, "yz");
    assert_eq!(s, "xyz");
}

#[test]
fn json_object_in_a_reply() {
    assert_eq!(extract_json("say {\"a\": {\"b\": 1}} done").as_deref(), Some("{\"a\": {\"b\": 1}}"));
    assert_eq!(extract_json("{}").as_deref(), Some("{}"));
    assert_eq!(extract_json("} {"), None);
    assert_eq!(extract_json("{"), None);
    assert_eq!(extract_json("}"), None);
    assert_eq!(extract_json(""), None);
    assert_eq!(extract_json("{ a } b }").as_deref(), Some("{ a } b }"));
}

#[test]
fn json_values() {
    let text = "{\"s\": \"x\\\"y\", \"n\": 1.50, \"i\": 42, \"o\": {\"k\": [1, \"two\"]}, \"b\": true, \"z\": null}";
    assert_eq!(string_field(text, "s").as_deref(), Some("x\"y"));
    assert_eq!(string_field(text, "n"), None);
    assert_eq!(number_field(text, "n").as_deref(), Some("1.5"));
    assert_eq!(number_field(text, "i").as_deref(), Some("42"));
    assert_eq!(number_field(text, "s"), None);
    assert_eq!(member(text, "o").as_deref(), Some("{\"k\":[1,\"two\"]}"));
    assert_eq!(member(text, "b").as_deref(), Some("true"));
    assert_eq!(member(text, "z").as_deref(), Some("null"));
    assert_eq!(member(text, "missing"), None);
    assert_eq!(member("[1]", "0"), None);
    assert_eq!(items("[1, \"two\", {\"a\": 3}]"), Some(vec!["1".to_string(), "\"two\"".to_string(), "{\"a\":3}".to_string()]));
    assert_eq!(items("[]"), Some(vec![]));
    assert_eq!(items("{}"), None);
    assert_eq!(items("[1,"), None);
    assert_eq!(text_value("\"a\\nb\"").as_deref(), Some("a\nb"));
    assert_eq!(text_value("5"), None);
    assert_eq!(number_value("-0.25").as_deref(), Some("-0.25"));
    assert_eq!(number_value("\"5\""), None);
    assert_eq!(parse_u64("18446744073709551615"), Some(u64::MAX));
    assert_eq!(parse_u64("18446744073709551616"), None);
    assert_eq!(parse_u64("0"), Some(0));
    assert_eq!(parse_u64(""), None);
    assert_eq!(parse_u64("1.0"), None);
    assert_eq!(parse_u64("-1"), None);
}

#[test]
fn insufficient_balance_texts() {
    assert!(is_insufficient_balance_error("HTTP 403: {\"code\":40310000}"));
    assert!(is_insufficient_balance_error("insufficient balance for BTC"));
    assert!(!is_insufficient_balance_error("HTTP 403 forbidden"));
    // the code itself begins with 403
    assert!(is_insufficient_balance_error("code 40310000"));
    assert!(!is_insufficient_balance_error("code 4031000"));
    assert!(!is_insufficient_balance_error("Insufficient Balance"));
    assert!(!is_insufficient_balance_error(""));

    assert_eq!(
        parse_insufficient_balance("insufficient balance for  BTC/USD  (requested: 1, available: 0.5)"),
        Some(("BTC/USD".to_string(), 0, 0))
    );
    assert_eq!(
        parse_insufficient_balance("insufficient balance for ETH"),
        Some(("ETH".to_string(), 0, 0))
    );
    assert_eq!(
        parse_insufficient_balance("insufficient balance for A balance for B (x)"),
        Some(("A".to_string(), 0, 0))
    );
    assert_eq!(parse_insufficient_balance("403 40310000 no symbol here"), None);
    assert_eq!(parse_insufficient_balance("balance for BTC (x)"), None);
}

#[test]
fn error_texts() {
    assert_eq!(
        TrackerError::PositionNotFound { symbol: "BTC/USD".to_string() }.message(),
        "Position not found: BTC/USD"
    );
    assert_eq!(
        TrackerError::OrderNotFound { order_id: "o1".to_string() }.message(),
        "Order not found: o1"
    );
    assert_eq!(
        TrackerError::PositionExists { symbol: "ETH/USD".to_string() }.message(),
        "Position already exists: ETH/USD"
    );
    let wrapped = TradingError::Config("bad".to_string());
    assert!(format!("{:?}", wrapped).contains("Config"));
}

#[test]
fn agents_are_briefed() {
    assert_eq!(DirectorAgent.name(), "Director-Agent");
    assert_eq!(QuantAgent.name(), "Quant-Agent");
    assert_eq!(RiskAgent.name(), "Risk-Manager");
    assert_eq!(ExecutionAgent.name(), "Execution-Agent");
    assert!(DirectorAgent.system_prompt().starts_with("You are a Trading Director AI."));
    assert!(DirectorAgent.system_prompt().contains("\"no_trade\""));
    assert!(QuantAgent.system_prompt().contains("technical_score"));
    assert!(RiskAgent.system_prompt().contains("\"approved\": true | false"));
    assert!(ExecutionAgent.system_prompt().contains("Output ONLY valid JSON"));
}

#[test]
fn queue_priorities() {
    assert_eq!(next_priority(1, 1), Some(Priority::High));
    assert_eq!(next_priority(3, 0), Some(Priority::High));
    assert_eq!(next_priority(0, 2), Some(Priority::Normal));
    assert_eq!(next_priority(0, 0), None);
    assert_eq!(Priority::High.label(), "HIGH");
    assert_eq!(Priority::Normal.label(), "NORMAL");
    assert_ne!(Priority::High, Priority::Normal);
}

#[test]
fn venues() {
    assert_eq!(exchange_kind("alpaca"), Some(ExchangeKind::Alpaca));
    assert_eq!(exchange_kind("Binance"), Some(ExchangeKind::Binance));
    assert_eq!(exchange_kind("COINBASE"), Some(ExchangeKind::Coinbase));
    assert_eq!(exchange_kind("kraken"), Some(ExchangeKind::Kraken));
    assert_eq!(exchange_kind("ftx"), None);
    assert_eq!(exchange_kind(""), None);
    assert_eq!((autohedge::exchange::alpaca::NAME, autohedge::exchange::binance::NAME, autohedge::exchange::coinbase::NAME, autohedge::exchange::kraken::NAME), ("alpaca", "binance", "coinbase", "kraken"));
    assert_eq!(
        autohedge::exchange::alpaca::capabilities("Crypto"),
        ExchangeCapabilities {
            supports_notional_market_buy: true,
            supports_ws_quotes: true,
            supports_ws_trades: true,
            supports_news: true,
        }
    );
    assert!(!autohedge::exchange::alpaca::capabilities("stocks").supports_notional_market_buy);
    assert!(!autohedge::exchange::binance::capabilities().supports_news);
    assert!(autohedge::exchange::binance::capabilities().supports_ws_quotes);
    assert!(!autohedge::exchange::coinbase::capabilities().supports_ws_quotes);
    assert!(autohedge::exchange::coinbase::capabilities().supports_notional_market_buy);
    assert!(!autohedge::exchange::kraken::capabilities().supports_notional_market_buy);
    assert!(autohedge::exchange::kraken::capabilities().supports_ws_trades);
}

#[test]
fn venue_answers() {
    let raw = "{\"id\":\"abc\",\"status\":\"filled\",\"filled_qty\":\"0.998\"}";
    let ack = autohedge::exchange::alpaca::order_ack(raw);
    assert_eq!(ack.id, "abc");
    assert_eq!(ack.status, "filled");
    assert_eq!(ack.filled_qty, Some(a("0.998")));
    assert_eq!(ack.raw, raw);
    let ack = autohedge::exchange::alpaca::order_ack("{\"filled_qty\":0.5}");
    assert_eq!(ack.id, "unknown");
    assert_eq!(ack.status, "unknown");
    assert_eq!(ack.filled_qty, Some(a("0.5")));
    assert!(autohedge::exchange::alpaca::names_order(raw));
    assert!(!autohedge::exchange::alpaca::names_order("{\"message\":\"no\"}"));

    let ack = autohedge::exchange::binance::order_ack("{\"orderId\":12345,\"status\":\"NEW\"}");
    assert_eq!(ack.id, "12345");
    assert_eq!(ack.status, "NEW");
    assert_eq!(autohedge::exchange::binance::order_ack("{}").id, "unknown");

    let ack = autohedge::exchange::coinbase::order_ack("{\"success\":true,\"order_id\":\"cb-1\"}");
    assert_eq!((ack.id.as_str(), ack.status.as_str()), ("cb-1", "accepted"));
    assert_eq!(autohedge::exchange::coinbase::order_ack("{\"success\":false}").status, "rejected");
    assert_eq!(autohedge::exchange::coinbase::order_ack("{\"success\":\"true\"}").status, "unknown");
    assert_eq!(autohedge::exchange::coinbase::order_ack("{}").status, "unknown");
    assert_eq!(autohedge::exchange::coinbase::side_word(autohedge::exchange::types::Side::Buy), "BUY");
    assert_eq!(autohedge::exchange::coinbase::side_word(autohedge::exchange::types::Side::Sell), "SELL");

    let ack = autohedge::exchange::kraken::order_ack("{\"result\":{}}");
    assert_eq!((ack.id.as_str(), ack.status.as_str()), ("unknown", "unknown"));
    assert_eq!(ack.raw, "{\"result\":{}}");
}

#[test]
fn alpaca_positions_and_account() {
    let list = autohedge::exchange::alpaca::positions(
        "[{\"symbol\":\"BTC/USD\",\"qty\":\"0.5\",\"avg_entry_price\":\"50000\"},\
{\"symbol\":\"ETH/USD\",\"qty\":2,\"avg_entry_price\":3000.5},\
{\"qty\":\"x\"}]",
    )
    .unwrap();
    assert_eq!(list.len(), 3);
    assert_eq!((list[0].symbol.as_str(), list[0].qty, list[0].avg_entry_price), ("BTC/USD", a("0.5"), Some(a("50000"))));
    assert_eq!((list[1].symbol.as_str(), list[1].qty, list[1].avg_entry_price), ("ETH/USD", a("2"), Some(a("3000.5"))));
    assert_eq!((list[2].symbol.as_str(), list[2].qty, list[2].avg_entry_price), ("", 0, None));
    assert!(autohedge::exchange::alpaca::positions("{}").is_none());
    assert_eq!(autohedge::exchange::alpaca::positions("[]").unwrap().len(), 0);

    let account = Account {
        buying_power: "10000.50".to_string(),
        cash: "5000".to_string(),
        portfolio_value: "n/a".to_string(),
    };
    let summary = account.summary();
    assert_eq!(summary.buying_power, Some(a("10000.5")));
    assert_eq!(summary.cash, Some(a("5000")));
    assert_eq!(summary.portfolio_value, None);
    assert_eq!(account.clone().cash, "5000");
}

#[test]
fn text_map() {
    let mut map: TextMap<i32> = TextMap::new();
    assert_eq!(map.len(), 0);
    assert_eq!(map.insert("a".to_string(), 1), None);
    assert_eq!(map.insert("b".to_string(), 2), None);
    assert_eq!(map.insert("a".to_string(), 3), Some(1));
    assert_eq!(map.len(), 2);
    assert_eq!(map.get("a"), Some(&3));
    assert_eq!(map.get("b"), Some(&2));
    assert_eq!(map.get("c"), None);
    assert!(map.contains_key("b"));
    assert_eq!(map.slot_of("c"), None);
    let slot = map.slot_of("b").unwrap();
    assert_eq!(map.key_at(slot), "b");
    assert_eq!(*map.value_at(slot), 2);
    assert_eq!(map.remove("a"), Some(3));
    assert_eq!(map.remove("a"), None);
    assert_eq!(map.len(), 1);
    assert_eq!(map.get("b"), Some(&2));
}

#[test]
fn white_space_is_what_the_standard_library_takes_for_it() {
    let mut count = 0;
    for code in 0..=0x10FFFFu32 {
        if let Some(c) = char::from_u32(code) {
            assert_eq!(is_whitespace_char(c), c.is_whitespace(), "U+{:04X}", code);
            if is_whitespace_char(c) {
                count += 1;
            }
        }
    }
    assert_eq!(count, 25);
}

#[test]
fn trimming() {
    assert_eq!(trim("  a b  "), "a b");
    assert_eq!(trim("a"), "a");
    assert_eq!(trim(""), "");
    assert_eq!(trim(" \t\r\n"), "");
    assert_eq!(trim("\u{2003}a\u{3000}"), "a");
    // a zero-width space is no white space
    assert_eq!(trim("\u{200B}x\u{200B}"), "\u{200B}x\u{200B}");
    for text in ["", " ", "a ", " a", "x  y", "\n\nBTC/USD\t", "\u{85}\u{a0}\u{e9} \u{1680}", "   "] {
        assert_eq!(trim(text), text.trim());
    }
}
