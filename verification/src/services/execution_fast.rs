//! The execution engine: sizes, rate-limits and places orders, and records
//! what it placed with the position tracker.
//!
//! The engine decides; whoever runs it talks to the venue, the language
//! model and the bus, and hands each answer back to the next step.

use vstd::prelude::*;
use crate::clock::rfc3339_text;
use crate::clock::timestamp_text;
use crate::config::symbol_params;
use crate::config::AppConfig;
use crate::data::store::MarketStore;
use crate::events::ExecutionReport;
use crate::events::OrderRequest;
use crate::exchange::types::AccountSummary;
use crate::exchange::types::OrderAck;
use crate::exchange::types::OrderType;
use crate::exchange::types::PlaceOrderRequest;
use crate::exchange::types::Position;
use crate::exchange::types::Side;
use crate::exchange::types::TimeInForce;
use crate::fixed::add_pct;
use crate::fixed::saturated;
use crate::fixed::sub_pct;
use crate::json::json_string;
use crate::json::string_field;
use crate::services::execution_utils::aggressive_limit_price;
use crate::services::execution_utils::compute_order_sizing;
use crate::services::execution_utils::spec_admits;
use crate::services::execution_utils::spec_after_acquire;
use crate::services::execution_utils::spec_aggressive_limit_price;
use crate::services::execution_utils::spec_buying_power;
use crate::services::execution_utils::spec_is_stale;
use crate::services::execution_utils::spec_order_sizing;
use crate::services::execution_utils::AccountCache;
use crate::services::execution_utils::OrderSizing;
use crate::services::execution_utils::RateLimiter;
use crate::services::position_monitor::has_pending;
use crate::services::position_monitor::is_fresh_position;
use crate::services::position_monitor::spec_stop_loss;
use crate::services::position_monitor::spec_take_profit;
use crate::services::position_monitor::venue_holding;
use crate::services::position_monitor::find_holding;
use crate::services::position_monitor::PendingOrder;
use crate::services::position_monitor::PositionInfo;
use crate::services::position_monitor::PositionTracker;
use crate::text::append_str;
use crate::text::extract_json;
use crate::text::lowercase;
use crate::text::spec_contains;
use crate::text::spec_extract_json;
use crate::text::str_eq;
use crate::text::to_lowercase;

verus! {

/// Time-in-force of the engine's orders: crypto orders stay good till
/// canceled unless `ioc` is asked for, stock orders last the day.
pub open spec fn spec_buy_time_in_force(crypto: bool, crypto_setting: Seq<char>) -> TimeInForce {
    if crypto {
        if lowercase(crypto_setting) == "ioc"@ {
            TimeInForce::Ioc
        } else {
            TimeInForce::Gtc
        }
    } else {
        TimeInForce::Day
    }
}

/// Time-in-force of a market sell.
pub open spec fn spec_sell_time_in_force(crypto: bool) -> TimeInForce {
    if crypto {
        TimeInForce::Gtc
    } else {
        TimeInForce::Day
    }
}

/// A market sell of `qty` of `symbol`.
pub open spec fn is_market_sell(
    order: PlaceOrderRequest,
    symbol: Seq<char>,
    qty: i64,
    crypto: bool,
) -> bool {
    &&& order.symbol@ == symbol
    &&& order.side == Side::Sell
    &&& order.order_type == OrderType::Market
    &&& order.qty == Some(qty)
    &&& order.notional is None
    &&& order.limit_price is None
    &&& order.time_in_force == spec_sell_time_in_force(crypto)
}

/// A limit buy of `qty` of `symbol` at `limit_price`.
pub open spec fn is_limit_buy(
    order: PlaceOrderRequest,
    symbol: Seq<char>,
    qty: i64,
    limit_price: i64,
    time_in_force: TimeInForce,
) -> bool {
    &&& order.symbol@ == symbol
    &&& order.side == Side::Buy
    &&& order.order_type == OrderType::Limit
    &&& order.qty == Some(qty)
    &&& order.notional is None
    &&& order.limit_price == Some(limit_price)
    &&& order.time_in_force == time_in_force
}

/// The report of an order the venue accepted.
pub open spec fn is_report(
    report: ExecutionReport,
    symbol: Seq<char>,
    ack: OrderAck,
    side: Seq<char>,
    price: i64,
    qty: i64,
) -> bool {
    &&& report.symbol@ == symbol
    &&& report.order_id@ == ack.id@
    &&& report.status@ == ack.status@
    &&& report.side@ == side
    &&& report.price == Some(price)
    &&& report.qty == Some(qty)
}

/// How a sell starts.
#[derive(Debug)]
pub enum SellStart {
    /// No usable bid is known for the symbol: the request is dropped.
    NoPrice,
    /// The tracker holds no such position: the venue's holdings are needed.
    NeedHoldings { price: i64 },
    /// The tracker holds nothing to sell: the request is dropped.
    NoQuantity,
    /// Submit this market sell.
    Submit { order: PlaceOrderRequest, price: i64, qty: i64 },
}

/// The bid of the newest quote held for a symbol, or zero.
pub open spec fn spec_last_bid(store: &MarketStore, symbol: Seq<char>) -> i64 {
    if store.quote_history(symbol).len() > 0 {
        store.quote_history(symbol).last().bid_price
    } else {
        0
    }
}

/// The quantity the venue holds of a symbol, or zero.
pub open spec fn spec_held_qty(holdings: Option<Vec<Position>>, symbol: Seq<char>) -> i64 {
    match holdings {
        Some(list) => match venue_holding(list@, symbol) {
            Some(h) => h.qty,
            None => 0,
        },
        None => 0,
    }
}

/// Why a buy request was dropped before an order was built.
#[derive(Clone, Copy, Debug, PartialEq, Eq, Structural)]
pub enum BuyRefusal {
    /// An order for the symbol was admitted too recently.
    RateLimited,
    /// A position is already held for the symbol.
    AlreadyHolding,
    /// A buy is already pending for the symbol.
    PendingExists,
    /// No quote with positive bid and ask is known for the symbol.
    NoQuote,
}

/// How a buy starts.
#[derive(Clone, Copy, Debug, PartialEq, Eq, Structural)]
pub enum BuyStart {
    Refused(BuyRefusal),
    /// The request passed every test and is priced. `refresh_account` tells
    /// that the cached account is stale and must be fetched before sizing.
    Priced { limit_price: i64, refresh_account: bool },
}

/// Which model call, if any, stands between sizing and submission.
#[derive(Clone, Copy, Debug, PartialEq, Eq, Structural)]
pub enum LlmRoute {
    /// High-frequency request without filter: no model call.
    Skip,
    /// High-frequency request with filter: a yes/no validation.
    Validate,
    /// Any other request: the execution agent decides.
    Decide,
}

/// The route of a request: high-frequency requests are those tagged
/// `hft_buy` and all requests of an engine in `hft` mode.
pub open spec fn spec_llm_route(
    order_type: Seq<char>,
    strategy_mode: Seq<char>,
    use_llm_filter: bool,
) -> LlmRoute {
    let hft = order_type == "hft_buy"@ || lowercase(strategy_mode) == "hft"@;
    if hft && !use_llm_filter {
        LlmRoute::Skip
    } else if hft {
        LlmRoute::Validate
    } else {
        LlmRoute::Decide
    }
}

/// How a priced buy goes on.
#[derive(Clone, Copy, Debug, PartialEq, Eq, Structural)]
pub enum BuySizing {
    /// The cached account shows no buying power.
    NoBuyingPower,
    /// No order can be sized: the minimum cannot be afforded.
    CannotSize,
    /// The order is sized; `route` tells what stands before submission.
    Sized { sizing: OrderSizing, route: LlmRoute },
}

/// Whether a validation reply approves: it says yes, proceed or approve.
pub open spec fn spec_validation_approves(reply: Seq<char>) -> bool {
    let low = lowercase(reply);
    spec_contains(low, "yes"@) || spec_contains(low, "proceed"@) || spec_contains(low, "approve"@)
}

/// Whether the execution agent's reply decides for a buy: its JSON object
/// names the action `buy`.
pub open spec fn spec_decides_buy(reply: Seq<char>) -> bool {
    match spec_extract_json(reply) {
        Some(object) => json_string(object, "action"@) == Some("buy"@),
        None => false,
    }
}

/// The pending buy recorded for an accepted limit order: it carries the
/// exits computed from its own limit price.
pub open spec fn is_recorded_buy(
    order: PendingOrder,
    order_id: Seq<char>,
    symbol: Seq<char>,
    limit_price: i64,
    qty: i64,
    stop_loss: int,
    take_profit: int,
    now: i64,
) -> bool {
    &&& order.order_id@ == order_id
    &&& order.symbol@ == symbol
    &&& order.side@ == "buy"@
    &&& order.limit_price == limit_price
    &&& order.qty == qty
    &&& order.created_at@ == rfc3339_text(now)
    &&& order.stop_loss matches Some(sl) && sl == stop_loss
    &&& order.take_profit matches Some(tp) && tp == take_profit
    &&& order.last_check_time == Some(now)
}

/// The execution engine's own state: its configuration, the cached account
/// and the per-symbol rate limiter.
pub struct ExecutionEngine {
    pub config: AppConfig,
    pub account_cache: AccountCache,
    pub rate_limiter: RateLimiter,
}

impl ExecutionEngine {
    /// An engine with an empty account cache and a rate limiter that has
    /// admitted nothing, both set up from the fast-path settings.
    pub fn new(config: AppConfig) -> (e: Self)
        ensures
            e.config == config,
            e.account_cache.summary is None,
            e.account_cache.last_fetch is None,
            e.account_cache.refresh_interval_ms == saturated(
                config.micro_trade.account_cache_secs as int * 1000,
            ),
            e.rate_limiter.last_orders() == Map::<Seq<char>, i64>::empty(),
            e.rate_limiter.min_interval() == config.micro_trade.min_order_interval_ms,
    {
        let cache: AccountCache = AccountCache::new(config.micro_trade.account_cache_secs);
        let limiter: RateLimiter = RateLimiter::new(config.micro_trade.min_order_interval_ms);
        ExecutionEngine { config, account_cache: cache, rate_limiter: limiter }
    }

    /// Whether a request asks to sell. Everything else goes the buy path.
    pub fn is_sell(req: &OrderRequest) -> (r: bool)
        ensures
            r == (req.action@ == "sell"@),
    {
        str_eq(req.action.as_str(), "sell")
    }

    /// Time-in-force of the engine's buys.
    pub fn buy_time_in_force(&self) -> (tif: TimeInForce)
        ensures
            tif == spec_buy_time_in_force(
                lowercase(self.config.trading_mode@) == "crypto"@,
                self.config.micro_trade.crypto_time_in_force@,
            ),
    {
        if self.config.is_crypto() {
            let setting: String = to_lowercase(self.config.micro_trade.crypto_time_in_force.as_str());
            if str_eq(setting.as_str(), "ioc") {
                TimeInForce::Ioc
            } else {
                TimeInForce::Gtc
            }
        } else {
            TimeInForce::Day
        }
    }

    /// Starts a sell: prices it at the newest bid and takes the quantity
    /// from the tracker. Where the tracker holds no such position the
    /// venue's holdings are asked for.
    pub fn begin_sell(
        &self,
        req: &OrderRequest,
        store: &MarketStore,
        tracker: &PositionTracker,
    ) -> (start: SellStart)
        ensures
            ({
                let price = spec_last_bid(store, req.symbol@);
                let crypto = lowercase(self.config.trading_mode@) == "crypto"@;
                if price <= 0 {
                    start is NoPrice
                } else if !tracker.positions().contains_key(req.symbol@) {
                    start matches SellStart::NeedHoldings { price: p } && p == price
                } else if tracker.positions()[req.symbol@].qty <= 0 {
                    start is NoQuantity
                } else {
                    &&& start matches SellStart::Submit { order, price: p, qty }
                    &&& p == price
                    &&& qty == tracker.positions()[req.symbol@].qty
                    &&& is_market_sell(order, req.symbol@, qty, crypto)
                }
            }),
    {
        let price: i64 = match store.get_latest_quote(req.symbol.as_str()) {
            Some(q) => q.bid_price,
            None => 0,
        };
        if price <= 0 {
            return SellStart::NoPrice;
        }
        match tracker.get_position(req.symbol.as_str()) {
            None => SellStart::NeedHoldings { price },
            Some(position) => {
                if position.qty <= 0 {
                    SellStart::NoQuantity
                } else {
                    let order: PlaceOrderRequest = self.market_sell(
                        req.symbol.as_str(),
                        position.qty,
                    );
                    SellStart::Submit { order, price, qty: position.qty }
                }
            },
        }
    }

    /// Goes on with a sell once the venue's holdings are known (`None`
    /// where they could not be fetched): sells what the venue holds of the
    /// symbol, or nothing.
    pub fn sell_from_holdings(
        &self,
        req: &OrderRequest,
        holdings: Option<Vec<Position>>,
    ) -> (r: Option<(PlaceOrderRequest, i64)>)
        ensures
            ({
                let qty = spec_held_qty(holdings, req.symbol@);
                let crypto = lowercase(self.config.trading_mode@) == "crypto"@;
                if qty <= 0 {
                    r is None
                } else {
                    r matches Some(pair) && pair.1 == qty && is_market_sell(
                        pair.0,
                        req.symbol@,
                        qty,
                        crypto,
                    )
                }
            }),
    {
        let qty: i64 = match &holdings {
            Some(list) => match find_holding(list, req.symbol.as_str()) {
                Some(i) => list[i].qty,
                None => 0,
            },
            None => 0,
        };
        if qty <= 0 {
            None
        } else {
            Some((self.market_sell(req.symbol.as_str(), qty), qty))
        }
    }

    fn market_sell(&self, symbol: &str, qty: i64) -> (order: PlaceOrderRequest)
        ensures
            is_market_sell(order, symbol@, qty, lowercase(self.config.trading_mode@) == "crypto"@),
    {
        PlaceOrderRequest {
            symbol: symbol.to_owned(),
            qty: Some(qty),
            notional: None,
            side: Side::Sell,
            order_type: OrderType::Market,
            time_in_force: if self.config.is_crypto() {
                TimeInForce::Gtc
            } else {
                TimeInForce::Day
            },
            limit_price: None,
        }
    }

    /// Records an acknowledged sell: the position leaves the tracker and
    /// the execution is reported at the estimated price.
    pub fn finish_sell(
        tracker: &mut PositionTracker,
        req: &OrderRequest,
        ack: &OrderAck,
        price: i64,
        qty: i64,
    ) -> (report: ExecutionReport)
        ensures
            final(tracker).positions() == old(tracker).positions().remove(req.symbol@),
            final(tracker).pending() == old(tracker).pending(),
            is_report(report, req.symbol@, *ack, "sell"@, price, qty),
    {
        let _gone: Option<PositionInfo> = tracker.remove_position(req.symbol.as_str());
        ExecutionReport {
            symbol: req.symbol.clone(),
            order_id: ack.id.clone(),
            status: ack.status.clone(),
            side: "sell".to_owned(),
            price: Some(price),
            qty: Some(qty),
        }
    }

    /// Starts a buy at time `now`: the rate limiter is asked first, then the
    /// tracker, then the newest quote; a request that passes is priced at
    /// the aggressive limit.
    ///
    /// The rate limiter records the request where it admits it, also where
    /// a later test refuses.
    pub fn begin_buy(
        &mut self,
        req: &OrderRequest,
        store: &MarketStore,
        tracker: &PositionTracker,
        now: i64,
    ) -> (start: BuyStart)
        ensures
            final(self).config == old(self).config,
            final(self).account_cache == old(self).account_cache,
            final(self).rate_limiter.min_interval() == old(self).rate_limiter.min_interval(),
            final(self).rate_limiter.last_orders() == spec_after_acquire(
                old(self).rate_limiter.last_orders(),
                old(self).rate_limiter.min_interval(),
                req.symbol@,
                now,
            ),
            start == spec_begin_buy(
                spec_admits(
                    old(self).rate_limiter.last_orders(),
                    old(self).rate_limiter.min_interval(),
                    req.symbol@,
                    now,
                ),
                tracker.positions().contains_key(req.symbol@),
                has_pending(tracker.pending(), req.symbol@, "buy"@),
                store.quote_history(req.symbol@),
                old(self).config.micro_trade.aggression_bps,
                spec_is_stale(
                    old(self).account_cache.last_fetch,
                    old(self).account_cache.refresh_interval_ms,
                    now,
                ),
            ),
    {
        if !self.rate_limiter.try_acquire_at(req.symbol.as_str(), now) {
            return BuyStart::Refused(BuyRefusal::RateLimited);
        }
        if tracker.has_position(req.symbol.as_str()) {
            return BuyStart::Refused(BuyRefusal::AlreadyHolding);
        }
        if tracker.find_pending(req.symbol.as_str(), "buy").is_some() {
            return BuyStart::Refused(BuyRefusal::PendingExists);
        }
        match store.get_latest_quote(req.symbol.as_str()) {
            None => BuyStart::Refused(BuyRefusal::NoQuote),
            Some(quote) => {
                if quote.bid_price > 0 && quote.ask_price > 0 {
                    let limit_price: i64 = aggressive_limit_price(
                        quote.bid_price,
                        quote.ask_price,
                        "buy",
                        self.config.micro_trade.aggression_bps,
                    );
                    BuyStart::Priced {
                        limit_price,
                        refresh_account: self.account_cache.is_stale(now),
                    }
                } else {
                    BuyStart::Refused(BuyRefusal::NoQuote)
                }
            },
        }
    }

    /// Records a freshly fetched account in the cache.
    pub fn record_account(&mut self, summary: AccountSummary, now: i64)
        ensures
            final(self).config == old(self).config,
            final(self).rate_limiter == old(self).rate_limiter,
            final(self).account_cache.summary == Some(summary),
            final(self).account_cache.last_fetch == Some(now),
            final(self).account_cache.refresh_interval_ms == old(self).account_cache.refresh_interval_ms,
    {
        self.account_cache.store(summary, now);
    }

    /// Sizes a priced buy from the cached buying power and tells which
    /// model call stands before its submission.
    pub fn size_buy(&self, req: &OrderRequest, limit_price: i64) -> (r: BuySizing)
        ensures
            r == spec_size_buy(
                limit_price,
                spec_buying_power(self.account_cache.summary),
                self.config,
                req.order_type@,
            ),
    {
        let buying_power: i64 = self.account_cache.buying_power();
        if buying_power <= 0 {
            return BuySizing::NoBuyingPower;
        }
        match compute_order_sizing(
            limit_price,
            buying_power,
            self.config.defaults.min_order_amount,
            self.config.defaults.max_order_amount,
            self.config.micro_trade.target_balance_pct,
        ) {
            None => BuySizing::CannotSize,
            Some(sizing) => {
                let mode: String = to_lowercase(self.config.strategy_mode.as_str());
                let hft: bool = str_eq(req.order_type.as_str(), "hft_buy") || str_eq(
                    mode.as_str(),
                    "hft",
                );
                let route: LlmRoute = if hft && !self.config.micro_trade.use_llm_filter {
                    LlmRoute::Skip
                } else if hft {
                    LlmRoute::Validate
                } else {
                    LlmRoute::Decide
                };
                BuySizing::Sized { sizing, route }
            },
        }
    }

    /// Whether a validation goes through: a reply must say yes, proceed or
    /// approve; a failed call (`None`) lets the trade through.
    pub fn validation_approves(reply: Option<&str>) -> (approved: bool)
        ensures
            approved == match reply {
                Some(text) => spec_validation_approves(text@),
                None => true,
            },
    {
        match reply {
            None => true,
            Some(text) => {
                let low: String = to_lowercase(text);
                crate::text::str_contains(low.as_str(), "yes") || crate::text::str_contains(
                    low.as_str(),
                    "proceed",
                ) || crate::text::str_contains(low.as_str(), "approve")
            },
        }
    }

    /// Whether the execution agent's reply decides for a buy; a failed call
    /// (`None`) decides against.
    pub fn decides_buy(reply: Option<&str>) -> (buy: bool)
        ensures
            buy == match reply {
                Some(text) => spec_decides_buy(text@),
                None => false,
            },
    {
        match reply {
            None => false,
            Some(text) => match extract_json(text) {
                None => false,
                Some(object) => match string_field(object.as_str(), "action") {
                    Some(action) => str_eq(action.as_str(), "buy"),
                    None => false,
                },
            },
        }
    }

    /// Builds the buy order for a sizing. A buy is always a limit order at
    /// the price it was sized at.
    pub fn build_buy_order(
        &self,
        req: &OrderRequest,
        sizing: OrderSizing,
    ) -> (order: PlaceOrderRequest)
        ensures
            is_limit_buy(
                order,
                req.symbol@,
                sizing.qty,
                sizing.limit_price,
                spec_buy_time_in_force(
                    lowercase(self.config.trading_mode@) == "crypto"@,
                    self.config.micro_trade.crypto_time_in_force@,
                ),
            ),
    {
        PlaceOrderRequest {
            symbol: req.symbol.clone(),
            side: Side::Buy,
            order_type: OrderType::Limit,
            qty: Some(sizing.qty),
            notional: None,
            time_in_force: self.buy_time_in_force(),
            limit_price: Some(sizing.limit_price),
        }
    }

    /// Records an acknowledged buy placed at `limit_price` for `qty`.
    ///
    /// The account cache is invalidated. The exits are computed from the
    /// limit price the order was placed at, at the percentages in force for
    /// the symbol. A limit order becomes a pending buy that carries them; a
    /// market order becomes a position at once. So where the tracker held
    /// neither a position for the symbol nor an order of this id, it holds
    /// exactly one of the two afterwards.
    pub fn finish_buy(
        &mut self,
        tracker: &mut PositionTracker,
        req: &OrderRequest,
        order_type: OrderType,
        limit_price: i64,
        qty: i64,
        ack: &OrderAck,
        now: i64,
    ) -> (report: ExecutionReport)
        ensures
            final(self).config == old(self).config,
            final(self).rate_limiter == old(self).rate_limiter,
            final(self).account_cache.last_fetch is None,
            final(self).account_cache.summary == old(self).account_cache.summary,
            is_report(report, req.symbol@, *ack, "buy"@, limit_price, qty),
            ({
                let params = symbol_params(
                    old(self).config.defaults,
                    old(self).config.symbol_overrides,
                    req.symbol@,
                );
                let stop_loss = spec_stop_loss(limit_price, params.1);
                let take_profit = spec_take_profit(limit_price, params.0);
                match order_type {
                    OrderType::Limit => {
                        let recorded = final(tracker).pending()[ack.id@];
                        &&& final(tracker).positions() == old(tracker).positions()
                        &&& final(tracker).pending() == old(tracker).pending().insert(
                            ack.id@,
                            recorded,
                        )
                        &&& is_recorded_buy(
                            recorded,
                            ack.id@,
                            req.symbol@,
                            limit_price,
                            qty,
                            stop_loss,
                            take_profit,
                            now,
                        )
                    },
                    OrderType::Market => {
                        let opened = final(tracker).positions()[req.symbol@];
                        &&& final(tracker).pending() == old(tracker).pending()
                        &&& final(tracker).positions() == old(tracker).positions().insert(
                            req.symbol@,
                            opened,
                        )
                        &&& is_fresh_position(
                            opened,
                            req.symbol@,
                            limit_price,
                            qty,
                            stop_loss,
                            take_profit,
                            rfc3339_text(now),
                        )
                    },
                }
            }),
            !old(tracker).positions().contains_key(req.symbol@)
                && !old(tracker).pending().contains_key(ack.id@)
                ==> (final(tracker).pending().contains_key(ack.id@)
                    != final(tracker).positions().contains_key(req.symbol@)),
    {
        self.account_cache.invalidate();
        let params: (i64, i64) = self.config.get_symbol_params(req.symbol.as_str());
        let stop_loss: i64 = sub_pct(limit_price, params.1);
        let take_profit: i64 = add_pct(limit_price, params.0);
        match order_type {
            OrderType::Limit => {
                let pending = PendingOrder {
                    order_id: ack.id.clone(),
                    symbol: req.symbol.clone(),
                    side: "buy".to_owned(),
                    limit_price,
                    qty,
                    created_at: timestamp_text(now),
                    stop_loss: Some(stop_loss),
                    take_profit: Some(take_profit),
                    last_check_time: None,
                };
                tracker.add_pending_order_at(pending, now);
            },
            OrderType::Market => {
                let position = PositionInfo {
                    symbol: req.symbol.clone(),
                    entry_price: limit_price,
                    qty,
                    stop_loss,
                    take_profit,
                    entry_time: timestamp_text(now),
                    side: "buy".to_owned(),
                    is_closing: false,
                    open_order_id: None,
                    last_recreate_attempt: None,
                    recreate_attempts: 0,
                    highest_price: limit_price,
                    trailing_stop_active: false,
                    trailing_stop_price: 0,
                };
                tracker.add_position(position);
            },
        }
        ExecutionReport {
            symbol: req.symbol.clone(),
            order_id: ack.id.clone(),
            status: ack.status.clone(),
            side: "buy".to_owned(),
            price: Some(limit_price),
            qty: Some(qty),
        }
    }

    /// The question put to the execution agent for a full decision.
    pub fn decision_prompt(symbol: &str) -> (prompt: String)
        ensures
            prompt@ == "Symbol: "@ + symbol@ + "\nRisk Analysis: Approved\nAction: Create Order JSON"@,
    {
        let mut prompt: String = "Symbol: ".to_owned();
        append_str(&mut prompt, symbol);
        append_str(&mut prompt, "\nRisk Analysis: Approved\nAction: Create Order JSON");
        prompt
    }

    /// The yes/no question put to the execution agent for a quick
    /// validation of a high-frequency trade.
    pub fn validation_prompt(&self, symbol: &str) -> (prompt: String)
        ensures
            prompt@ == "Quick validation for "@ + symbol@
                + " trade.\nStrategy: HFT micro-trade, targeting "@
                + crate::decimal::spec_format_fixed(self.config.hft.take_profit_bps as int)
                + "bps profit.\nCurrent spread acceptable.\nShould we proceed? Reply with just 'yes' or 'no'."@,
    {
        let mut prompt: String = "Quick validation for ".to_owned();
        append_str(&mut prompt, symbol);
        append_str(&mut prompt, " trade.\nStrategy: HFT micro-trade, targeting ");
        let bps: String = crate::decimal::format_fixed(self.config.hft.take_profit_bps);
        append_str(&mut prompt, bps.as_str());
        append_str(
            &mut prompt,
            "bps profit.\nCurrent spread acceptable.\nShould we proceed? Reply with just 'yes' or 'no'.",
        );
        prompt
    }
}

/// The start of a buy as a decision on what the tests before it see.
pub open spec fn spec_begin_buy(
    admitted: bool,
    holding: bool,
    buy_pending: bool,
    quotes: Seq<crate::data::store::Quote>,
    aggression_bps: i64,
    account_stale: bool,
) -> BuyStart {
    if !admitted {
        BuyStart::Refused(BuyRefusal::RateLimited)
    } else if holding {
        BuyStart::Refused(BuyRefusal::AlreadyHolding)
    } else if buy_pending {
        BuyStart::Refused(BuyRefusal::PendingExists)
    } else if quotes.len() == 0 || quotes.last().bid_price <= 0 || quotes.last().ask_price <= 0 {
        BuyStart::Refused(BuyRefusal::NoQuote)
    } else {
        BuyStart::Priced {
            limit_price: saturated(
                spec_aggressive_limit_price(
                    quotes.last().bid_price as int,
                    quotes.last().ask_price as int,
                    true,
                    aggression_bps as int,
                ),
            ) as i64,
            refresh_account: account_stale,
        }
    }
}

/// The sizing of a priced buy.
pub open spec fn spec_size_buy(
    limit_price: i64,
    buying_power: i64,
    config: AppConfig,
    order_type: Seq<char>,
) -> BuySizing {
    if buying_power <= 0 {
        BuySizing::NoBuyingPower
    } else {
        match spec_order_sizing(
            limit_price,
            buying_power,
            config.defaults.min_order_amount,
            config.defaults.max_order_amount,
            config.micro_trade.target_balance_pct,
        ) {
            None => BuySizing::CannotSize,
            Some(sizing) => BuySizing::Sized {
                sizing,
                route: spec_llm_route(
                    order_type,
                    config.strategy_mode@,
                    config.micro_trade.use_llm_filter,
                ),
            },
        }
    }
}

} // verus!
