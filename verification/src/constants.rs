//! Tuning values in one place.

use vstd::prelude::*;

verus! {

/// Two quantities that differ by no more than this are taken as equal
/// (0.000001 of a unit).
pub const QTY_EPSILON: i64 = 100;

/// A pending order is polled at most once in this many milliseconds.
pub const ORDER_CHECK_INTERVAL_MS: i64 = 2_000;

/// How often the protective order of an orphaned position is recreated
/// before the position is given up.
pub const MAX_RECREATE_ATTEMPTS: u32 = 3;

/// Least time between two recreation attempts for one position, in
/// milliseconds.
pub const RECREATE_COOLDOWN_MS: i64 = 30_000;

/// Most retries of a failed order placement.
pub const MAX_ORDER_RETRIES: u32 = 3;

/// Base of the wait between retries, in milliseconds.
pub const RETRY_BASE_DELAY_MS: u64 = 100;

/// Alpaca's error code for an order that exceeds the available balance.
pub const ALPACA_INSUFFICIENT_BALANCE_CODE: &'static str = "40310000";

/// Alpaca's order rate limit for crypto, per minute.
pub const ALPACA_ORDER_RATE_LIMIT_PER_MINUTE: u32 = 200;

/// Share of buying power an order may use at most, in percent.
pub const BUYING_POWER_SAFETY_MARGIN_PCT: i64 = 95;

/// Basis points in one percent.
pub const BASIS_POINTS_PER_PERCENT: i64 = 100;

/// Default least time between two orders of one symbol, in milliseconds.
pub const DEFAULT_INTERVAL_MS: u64 = 250;

/// Least interval that respects Alpaca's limits, in milliseconds.
pub const MIN_SAFE_INTERVAL_MS: u64 = 200;

/// How long a fetched account stays fresh, in seconds.
pub const ACCOUNT_CACHE_TTL_SECS: u64 = 15;

/// How long fetched positions stay fresh, in seconds.
pub const POSITION_CACHE_TTL_SECS: u64 = 5;

/// Default number of entries kept per history.
pub const DEFAULT_HISTORY_LIMIT: usize = 50;

/// Default capacity of the event bus.
pub const DEFAULT_BUS_CAPACITY: usize = 1000;

/// Names of logged events.
pub const BUY_ORDER_FILLED: &'static str = "buy_order_filled";

pub const SELL_ORDER_FILLED: &'static str = "sell_order_filled";

pub const QUANTITY_MISMATCH: &'static str = "quantity_mismatch";

pub const POSITION_OPENED: &'static str = "position_opened";

pub const POSITION_CLOSED: &'static str = "position_closed";

pub const STOP_LOSS_TRIGGERED: &'static str = "stop_loss_triggered";

pub const TAKE_PROFIT_TRIGGERED: &'static str = "take_profit_triggered";

pub const ORDER_RETRY: &'static str = "order_retry";

pub const INSUFFICIENT_BALANCE: &'static str = "insufficient_balance";

pub const RATE_LIMITED: &'static str = "rate_limited";

} // verus!
