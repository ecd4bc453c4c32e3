//! Configuration values. Rates and amounts are fixed-point (see `fixed`).

use vstd::prelude::*;
use crate::text::str_eq;

verus! {

/// Take-profit / stop-loss percentages and order size limits that apply
/// where a symbol has no override.
#[derive(Clone, Copy, Debug)]
pub struct Defaults {
    pub take_profit_pct: i64,
    pub stop_loss_pct: i64,
    pub min_order_amount: i64,
    pub max_order_amount: i64,
    pub limit_order_expiration_days: Option<u64>,
}

/// Per-symbol overrides of the default percentages.
#[derive(Clone, Copy, Debug)]
pub struct SymbolConfig {
    pub take_profit_pct: Option<i64>,
    pub stop_loss_pct: Option<i64>,
}

/// The overrides of one symbol.
#[derive(Clone, Debug)]
pub struct SymbolOverride {
    pub symbol: String,
    pub config: SymbolConfig,
}

#[derive(Clone, Copy, Debug)]
pub struct HftConfig {
    pub evaluate_every_quotes: usize,
    pub min_edge_bps: i64,
    pub take_profit_bps: i64,
    pub stop_loss_bps: i64,
    pub max_spread_bps: i64,
}

#[derive(Clone, Copy, Debug)]
pub struct HybridConfig {
    pub gate_refresh_quotes: usize,
    pub no_trade_cooldown_quotes: usize,
}

#[derive(Clone, Debug)]
pub struct LlmConfig {
    pub api_key: Option<String>,
    pub base_url: Option<String>,
    pub model: String,
}

#[derive(Clone, Debug)]
pub struct AlpacaConfig {
    pub api_key: String,
    pub secret_key: String,
    pub base_url: String,
}

#[derive(Clone, Debug)]
pub struct BinanceConfig {
    pub api_key: String,
    pub secret_key: String,
    pub base_url: String,
}

#[derive(Clone, Debug)]
pub struct CoinbaseConfig {
    pub api_key: String,
    pub secret_key: String,
    pub base_url: String,
}

#[derive(Clone, Debug)]
pub struct KrakenConfig {
    pub api_key: String,
    pub secret_key: String,
    pub base_url: String,
}

/// Settings of the fast execution path.
#[derive(Clone, Debug)]
pub struct MicroTradeConfig {
    /// Share of buying power aimed at per order, as a fraction of one.
    pub target_balance_pct: i64,
    /// How far the limit price is moved from mid toward the other side.
    pub aggression_bps: i64,
    pub min_order_interval_ms: u64,
    pub account_cache_secs: u64,
    pub use_llm_filter: bool,
    pub limit_orders_expire_daily: bool,
    pub crypto_time_in_force: String,
}

impl Default for MicroTradeConfig {
    fn default() -> (c: Self)
        ensures
            c.target_balance_pct == 5_000_000,
            c.aggression_bps == 500_000_000,
            c.min_order_interval_ms == 500,
            c.account_cache_secs == 30,
            !c.use_llm_filter,
            c.limit_orders_expire_daily,
            c.crypto_time_in_force@ == "gtc"@,
    {
        MicroTradeConfig {
            target_balance_pct: 5_000_000,
            aggression_bps: 500_000_000,
            min_order_interval_ms: 500,
            account_cache_secs: 30,
            use_llm_filter: false,
            limit_orders_expire_daily: true,
            crypto_time_in_force: "gtc".to_string(),
        }
    }
}

#[derive(Clone, Debug)]
pub struct AppConfig {
    pub trading_mode: String,
    pub exchange: String,
    pub symbols: Vec<String>,
    pub defaults: Defaults,
    pub symbol_overrides: Option<Vec<SymbolOverride>>,
    pub history_limit: usize,
    pub warmup_count: usize,
    pub llm_queue_size: usize,
    pub llm_max_concurrent: usize,
    pub no_trade_cooldown_quotes: usize,
    pub strategy_mode: String,
    pub chatter_level: String,
    pub hft: HftConfig,
    pub hybrid: HybridConfig,
    pub micro_trade: MicroTradeConfig,
    pub llm: LlmConfig,
    pub alpaca: AlpacaConfig,
    pub binance: Option<BinanceConfig>,
    pub coinbase: Option<CoinbaseConfig>,
    pub kraken: Option<KrakenConfig>,
    pub exit_on_quotes: bool,
}

/// The first override listed for `symbol`.
pub open spec fn override_for(overrides: Seq<SymbolOverride>, symbol: Seq<char>) -> Option<
    SymbolConfig,
>
    decreases overrides.len(),
{
    if overrides.len() == 0 {
        None
    } else if overrides[0].symbol@ == symbol {
        Some(overrides[0].config)
    } else {
        override_for(overrides.drop_first(), symbol)
    }
}

/// The take-profit and stop-loss percentages in force for a symbol: the
/// symbol's override where it has one, else the default, each on its own.
pub open spec fn symbol_params(
    defaults: Defaults,
    overrides: Option<Vec<SymbolOverride>>,
    symbol: Seq<char>,
) -> (i64, i64) {
    let found = match overrides {
        Some(list) => override_for(list@, symbol),
        None => None,
    };
    match found {
        Some(sc) => (
            match sc.take_profit_pct {
                Some(v) => v,
                None => defaults.take_profit_pct,
            },
            match sc.stop_loss_pct {
                Some(v) => v,
                None => defaults.stop_loss_pct,
            },
        ),
        None => (defaults.take_profit_pct, defaults.stop_loss_pct),
    }
}

impl AppConfig {
    /// The take-profit and stop-loss percentages in force for `symbol`.
    pub fn get_symbol_params(&self, symbol: &str) -> (r: (i64, i64))
        ensures
            r == symbol_params(self.defaults, self.symbol_overrides, symbol@),
    {
        let mut tp: i64 = self.defaults.take_profit_pct;
        let mut sl: i64 = self.defaults.stop_loss_pct;
        if let Some(list) = &self.symbol_overrides {
            let mut i: usize = 0;
            proof {
                assert(list@.skip(0) =~= list@);
            }
            while i < list.len()
                invariant
                    i <= list.len(),
                    self.symbol_overrides == Some(*list),
                    tp == self.defaults.take_profit_pct,
                    sl == self.defaults.stop_loss_pct,
                    override_for(list@, symbol@) == override_for(list@.skip(i as int), symbol@),
                decreases list.len() - i,
            {
                proof {
                    let rest = list@.skip(i as int);
                    assert(rest[0] == list@[i as int]);
                    assert(rest.drop_first() =~= list@.skip(i + 1));
                }
                if str_eq(list[i].symbol.as_str(), symbol) {
                    if let Some(v) = list[i].config.take_profit_pct {
                        tp = v;
                    }
                    if let Some(v) = list[i].config.stop_loss_pct {
                        sl = v;
                    }
                    return (tp, sl);
                }
                i = i + 1;
            }
            proof {
                assert(list@.skip(list.len() as int).len() == 0);
            }
        }
        (tp, sl)
    }

    /// Whether the engine trades crypto, which decides time-in-force.
    pub fn is_crypto(&self) -> (r: bool)
        ensures
            r == (crate::text::lowercase(self.trading_mode@) == "crypto"@),
    {
        let low: String = crate::text::to_lowercase(self.trading_mode.as_str());
        str_eq(low.as_str(), "crypto")
    }
}

} // verus!
