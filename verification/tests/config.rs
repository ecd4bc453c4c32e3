use autohedge::config::{
    AlpacaConfig, AppConfig, Defaults, HftConfig, HybridConfig, LlmConfig, MicroTradeConfig,
    SymbolConfig, SymbolOverride,
};
use autohedge::decimal::parse_decimal;
use autohedge::fixed::add_bps;

fn d_config(text: &str) -> i64 {
    parse_decimal(text).unwrap()
}

// ============= MicroTradeConfig Tests =============

#[test]
fn test_micro_trade_config_default() {
    let config = MicroTradeConfig::default();

    assert_eq!(config.target_balance_pct, d_config("0.05"));
    assert_eq!(config.aggression_bps, d_config("5.0"));
    assert_eq!(config.min_order_interval_ms, 500);
    assert_eq!(config.account_cache_secs, 30);
    assert!(!config.use_llm_filter);
    assert!(config.limit_orders_expire_daily);
    assert_eq!(config.crypto_time_in_force, "gtc");
}

// ============= get_symbol_params Tests =============

fn create_test_config() -> AppConfig {
    AppConfig {
        trading_mode: "crypto".to_string(),
        exchange: "alpaca".to_string(),
        symbols: vec!["BTC/USD".to_string(), "ETH/USD".to_string(), "SOL/USD".to_string()],
        defaults: Defaults {
            take_profit_pct: d_config("1.0"),
            stop_loss_pct: d_config("0.5"),
            min_order_amount: d_config("10.0"),
            max_order_amount: d_config("100.0"),
            limit_order_expiration_days: None,
        },
        symbol_overrides: Some(vec![
            SymbolOverride {
                symbol: "BTC/USD".to_string(),
                config: SymbolConfig {
                    take_profit_pct: Some(d_config("2.0")),
                    stop_loss_pct: Some(d_config("1.0")),
                },
            },
            SymbolOverride {
                symbol: "ETH/USD".to_string(),
                config: SymbolConfig { take_profit_pct: Some(d_config("1.5")), stop_loss_pct: None },
            },
        ]),
        history_limit: 50,
        warmup_count: 50,
        llm_queue_size: 100,
        llm_max_concurrent: 3,
        no_trade_cooldown_quotes: 10,
        strategy_mode: "hft".to_string(),
        chatter_level: "normal".to_string(),
        hft: HftConfig {
            evaluate_every_quotes: 5,
            min_edge_bps: d_config("10.0"),
            take_profit_bps: d_config("50.0"),
            stop_loss_bps: d_config("25.0"),
            max_spread_bps: d_config("30.0"),
        },
        hybrid: HybridConfig { gate_refresh_quotes: 100, no_trade_cooldown_quotes: 50 },
        micro_trade: MicroTradeConfig::default(),
        llm: LlmConfig {
            api_key: None,
            base_url: Some("http://localhost:11434/v1".to_string()),
            model: "test-model".to_string(),
        },
        alpaca: AlpacaConfig {
            api_key: "TEST_KEY".to_string(),
            secret_key: "TEST_SECRET".to_string(),
            base_url: "https://paper-api.alpaca.markets".to_string(),
        },
        binance: None,
        coinbase: None,
        kraken: None,
        exit_on_quotes: true,
    }
}

#[test]
fn test_get_symbol_params_default() {
    let config = create_test_config();

    // SOL/USD has no override, should use defaults
    let (tp, sl) = config.get_symbol_params("SOL/USD");
    assert_eq!(tp, d_config("1.0"));
    assert_eq!(sl, d_config("0.5"));
}

#[test]
fn test_get_symbol_params_full_override() {
    let config = create_test_config();

    // BTC/USD has both overrides
    let (tp, sl) = config.get_symbol_params("BTC/USD");
    assert_eq!(tp, d_config("2.0"));
    assert_eq!(sl, d_config("1.0"));
}

#[test]
fn test_get_symbol_params_partial_override() {
    let config = create_test_config();

    // ETH/USD has only TP override
    let (tp, sl) = config.get_symbol_params("ETH/USD");
    assert_eq!(tp, d_config("1.5"));
    assert_eq!(sl, d_config("0.5")); // Uses default
}

#[test]
fn test_get_symbol_params_unknown_symbol() {
    let config = create_test_config();

    // Unknown symbol should use defaults
    let (tp, sl) = config.get_symbol_params("UNKNOWN/USD");
    assert_eq!(tp, d_config("1.0"));
    assert_eq!(sl, d_config("0.5"));
}

#[test]
fn symbol_params_without_any_override() {
    let mut config = create_test_config();
    config.symbol_overrides = None;
    assert_eq!(config.get_symbol_params("BTC/USD"), (d_config("1.0"), d_config("0.5")));
}

#[test]
fn symbol_params_first_listed_override_wins() {
    let mut config = create_test_config();
    config.symbol_overrides.as_mut().unwrap().push(SymbolOverride {
        symbol: "BTC/USD".to_string(),
        config: SymbolConfig { take_profit_pct: Some(d_config("9")), stop_loss_pct: None },
    });
    assert_eq!(config.get_symbol_params("BTC/USD"), (d_config("2.0"), d_config("1.0")));
}

// ============= Full Config Tests =============

#[test]
fn test_full_config_deserialize() {
    let config = create_test_config();

    assert_eq!(config.trading_mode, "crypto");
    assert_eq!(config.exchange, "alpaca");
    assert_eq!(config.symbols.len(), 3);
    assert_eq!(config.strategy_mode, "hft");
    assert!(config.exit_on_quotes);
}

#[test]
fn test_config_optional_exchanges() {
    let config = create_test_config();

    // These should be None since not provided
    assert!(config.binance.is_none());
    assert!(config.coinbase.is_none());
    assert!(config.kraken.is_none());
}

#[test]
fn test_config_clone() {
    let config = create_test_config();
    let cloned = config.clone();

    assert_eq!(cloned.trading_mode, "crypto");
    assert_eq!(cloned.symbols, config.symbols);
}

#[test]
fn test_config_debug() {
    let config = create_test_config();
    let debug = format!("{:?}", config);

    assert!(debug.contains("AppConfig"));
    assert!(debug.contains("trading_mode"));
}

// ============= BPS to Percent Conversion Tests =============

#[test]
fn test_bps_conversion() {
    // 100 bps = 1%
    // 10 bps = 0.1%
    let bps: f64 = 50.0;
    let percent = bps / 100.0; // 0.5%
    assert_eq!(percent, 0.5);

    let price: f64 = 100.0;
    let tp_price = price * (1.0 + bps / 10_000.0);
    assert!((tp_price - 100.5).abs() < 0.001);

    // the same through the library
    assert_eq!(add_bps(d_config("100.0"), d_config("50.0")), d_config("100.5"));
}

// ============= Defaults Validation =============

#[test]
fn test_realistic_defaults() {
    let config = create_test_config();

    // Validate sensible ranges
    assert!(config.defaults.take_profit_pct > 0);
    assert!(config.defaults.stop_loss_pct > 0);
    assert!(config.defaults.min_order_amount > 0);
    assert!(config.defaults.max_order_amount > config.defaults.min_order_amount);
}

#[test]
fn test_hft_config_sensible() {
    let config = create_test_config();

    // TP should be > SL for positive expectancy
    assert!(config.hft.take_profit_bps > config.hft.stop_loss_bps);
    // Spread filter should be reasonable
    assert!(config.hft.max_spread_bps > 0);
}

#[test]
fn crypto_mode_is_read_whatever_the_case() {
    let mut config = create_test_config();
    assert!(config.is_crypto());
    config.trading_mode = "CRYPTO".to_string();
    assert!(config.is_crypto());
    config.trading_mode = "stocks".to_string();
    assert!(!config.is_crypto());
}
