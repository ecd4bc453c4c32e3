//! Order sizing, aggressive limit pricing, the per-symbol rate limiter and
//! the account cache.

use vstd::prelude::*;
use crate::clock::now_millis;
use crate::constants::BUYING_POWER_SAFETY_MARGIN_PCT;
use crate::exchange::types::AccountSummary;
use crate::fixed::lemma_share_fits;
use crate::fixed::lemma_share_nonnegative;
use crate::fixed::midpoint;
use crate::fixed::mul_div;
use crate::fixed::saturate;
use crate::fixed::saturated;
use crate::fixed::share;
use crate::fixed::spec_midpoint;
use crate::fixed::spec_share;
use crate::fixed::BPS_PER_UNIT;
use crate::fixed::SCALE;
use crate::shared_map::table_entries;
use crate::shared_map::table_get;
use crate::shared_map::table_insert;
use crate::shared_map::table_new;
use crate::shared_map::SymbolTable;
use crate::text::str_eq;

verus! {

/// The account as last fetched, and when.
pub struct AccountCache {
    pub summary: Option<AccountSummary>,
    pub last_fetch: Option<i64>,
    pub refresh_interval_ms: i64,
}

/// Whether a cache last filled at `last_fetch` must be refilled at `now`:
/// always when it was never filled or was invalidated, else once the refresh
/// interval has passed.
pub open spec fn spec_is_stale(last_fetch: Option<i64>, interval_ms: i64, now: i64) -> bool {
    match last_fetch {
        Some(t) => !(now - t < interval_ms),
        None => true,
    }
}

/// The buying power a cached account stands for: its buying power, else its
/// cash, else nothing.
pub open spec fn spec_buying_power(summary: Option<AccountSummary>) -> i64 {
    match summary {
        Some(s) => match s.buying_power {
            Some(bp) => bp,
            None => match s.cash {
                Some(c) => c,
                None => 0,
            },
        },
        None => 0,
    }
}

impl AccountCache {
    /// An empty cache that refills every `refresh_interval_secs` seconds.
    pub fn new(refresh_interval_secs: u64) -> (c: Self)
        ensures
            c.summary is None,
            c.last_fetch is None,
            c.refresh_interval_ms == saturated(refresh_interval_secs as int * 1000),
    {
        let ms: i128 = refresh_interval_secs as i128 * 1000;
        AccountCache { summary: None, last_fetch: None, refresh_interval_ms: saturate(ms) }
    }

    /// Whether the account must be fetched again before it is used at `now`.
    pub fn is_stale(&self, now: i64) -> (r: bool)
        ensures
            r == spec_is_stale(self.last_fetch, self.refresh_interval_ms, now),
    {
        match self.last_fetch {
            Some(t) => !((now as i128) - (t as i128) < self.refresh_interval_ms as i128),
            None => true,
        }
    }

    /// Records a freshly fetched account.
    pub fn store(&mut self, summary: AccountSummary, now: i64)
        ensures
            final(self).summary == Some(summary),
            final(self).last_fetch == Some(now),
            final(self).refresh_interval_ms == old(self).refresh_interval_ms,
    {
        self.summary = Some(summary);
        self.last_fetch = Some(now);
    }

    /// The cached buying power.
    pub fn buying_power(&self) -> (bp: i64)
        ensures
            bp == spec_buying_power(self.summary),
    {
        match &self.summary {
            Some(s) => match s.buying_power {
                Some(bp) => bp,
                None => match s.cash {
                    Some(c) => c,
                    None => 0,
                },
            },
            None => 0,
        }
    }

    /// Forces the next use to fetch the account again; what is cached stays
    /// readable meanwhile.
    pub fn invalidate(&mut self)
        ensures
            final(self).last_fetch is None,
            final(self).summary == old(self).summary,
            final(self).refresh_interval_ms == old(self).refresh_interval_ms,
            forall|now: i64|
                spec_is_stale(final(self).last_fetch, final(self).refresh_interval_ms, now),
    {
        self.last_fetch = None;
    }
}

/// The size of an order: quantity, notional and the limit price it was
/// computed at.
#[derive(Clone, Copy, Debug, PartialEq, Eq, Structural)]
pub struct OrderSizing {
    pub qty: i64,
    pub notional: i64,
    pub limit_price: i64,
}

/// The most an order may cost: 95% of buying power, rounded down.
pub open spec fn spec_max_affordable(buying_power: int) -> int {
    (buying_power * BUYING_POWER_SAFETY_MARGIN_PCT) / 100
}

/// The targeted share of buying power, held between `min_order` and
/// `max_order` (the upper limit wins where the two cross).
pub open spec fn spec_clamped_notional(
    buying_power: int,
    min_order: int,
    max_order: int,
    target_pct: int,
) -> int {
    let target = spec_share(buying_power, target_pct, 1);
    let raised = if target < min_order {
        min_order
    } else {
        target
    };
    if raised > max_order {
        max_order
    } else {
        raised
    }
}

/// The notional of an order, where one can be afforded.
pub open spec fn spec_notional(
    buying_power: int,
    min_order: int,
    max_order: int,
    target_pct: int,
) -> Option<int> {
    let clamped = spec_clamped_notional(buying_power, min_order, max_order, target_pct);
    let affordable = spec_max_affordable(buying_power);
    if clamped > affordable {
        if affordable < min_order {
            None
        } else {
            Some(affordable)
        }
    } else {
        Some(clamped)
    }
}

/// The quantity a notional buys at a price, rounded down.
pub open spec fn spec_quantity(notional: int, price: int) -> int {
    (notional * SCALE) / price
}

/// The sizing of an order, where one can be placed: the price and the
/// balance are positive, the minimum can be afforded, and the quantity is
/// representable.
pub open spec fn spec_order_sizing(
    price: i64,
    buying_power: i64,
    min_order: i64,
    max_order: i64,
    target_pct: i64,
) -> Option<OrderSizing> {
    if price <= 0 || buying_power <= 0 {
        None
    } else {
        match spec_notional(buying_power as int, min_order as int, max_order as int, target_pct as int) {
            None => None,
            Some(notional) => {
                let qty = spec_quantity(notional, price as int);
                if i64::MIN <= qty <= i64::MAX {
                    Some(
                        OrderSizing {
                            qty: qty as i64,
                            notional: notional as i64,
                            limit_price: price,
                        },
                    )
                } else {
                    None
                }
            },
        }
    }
}

/// Sizes an order from the available balance. `None` where none can be
/// placed.
pub fn compute_order_sizing(
    price: i64,
    buying_power: i64,
    min_order: i64,
    max_order: i64,
    target_pct_of_balance: i64,
) -> (r: Option<OrderSizing>)
    ensures
        r == spec_order_sizing(price, buying_power, min_order, max_order, target_pct_of_balance),
{
    if price <= 0 || buying_power <= 0 {
        return None;
    }
    let target: i128 = share(buying_power, target_pct_of_balance, 1);
    let raised: i128 = if target < min_order as i128 {
        min_order as i128
    } else {
        target
    };
    let clamped: i128 = if raised > max_order as i128 {
        max_order as i128
    } else {
        raised
    };
    let affordable: i128 = mul_div(buying_power, BUYING_POWER_SAFETY_MARGIN_PCT, 100);
    proof {
        lemma_affordable_bounds(buying_power as int);
    }
    let mut notional: i128 = clamped;
    if clamped > affordable {
        if affordable < min_order as i128 {
            return None;
        }
        notional = affordable;
    }
    assert(i64::MIN <= notional <= i64::MAX);
    let n: i64 = notional as i64;
    let qty: i128 = mul_div(n, SCALE, price);
    if qty < i64::MIN as i128 || qty > i64::MAX as i128 {
        return None;
    }
    Some(OrderSizing { qty: qty as i64, notional: n, limit_price: price })
}

/// 95% of a positive balance lies between zero and the balance.
pub proof fn lemma_affordable_bounds(buying_power: int)
    requires
        0 <= buying_power,
    ensures
        0 <= spec_max_affordable(buying_power) <= buying_power,
{
    let p = buying_power * 95;
    vstd::arithmetic::div_mod::lemma_fundamental_div_mod(p, 100);
}

/// Whether the quantity of the order that would be sized is one an amount
/// can hold. It always is for a price of at least one unit of currency and
/// a minimum that is not negative.
pub open spec fn spec_quantity_fits(
    price: i64,
    buying_power: i64,
    min_order: i64,
    max_order: i64,
    target_pct: i64,
) -> bool {
    spec_notional(buying_power as int, min_order as int, max_order as int, target_pct as int)
        matches Some(notional) ==> i64::MIN <= spec_quantity(notional, price as int) <= i64::MAX
}

/// Order sizing keeps to its limits. With a positive price and balance and
/// `min_order <= max_order`: a sized order's notional is at least the minimum,
/// at most the maximum and at most 95% of the balance. No order is sized
/// exactly when 95% of the balance is below the minimum or the quantity is
/// beyond what an amount can hold; so where the quantity fits, exactly when
/// the minimum cannot be afforded.
pub proof fn lemma_sizing_within_limits(
    price: i64,
    buying_power: i64,
    min_order: i64,
    max_order: i64,
    target_pct: i64,
)
    requires
        price > 0,
        buying_power > 0,
        min_order <= max_order,
    ensures
        spec_order_sizing(price, buying_power, min_order, max_order, target_pct) matches Some(s)
            ==> min_order <= s.notional <= max_order && s.notional <= spec_max_affordable(
            buying_power as int,
        ) && s.limit_price == price && s.qty == spec_quantity(s.notional as int, price as int),
        spec_order_sizing(price, buying_power, min_order, max_order, target_pct) is None <==> (
        spec_max_affordable(buying_power as int) < min_order || !spec_quantity_fits(
            price,
            buying_power,
            min_order,
            max_order,
            target_pct,
        )),
        spec_quantity_fits(price, buying_power, min_order, max_order, target_pct) ==> (
        spec_order_sizing(price, buying_power, min_order, max_order, target_pct) is None
            <==> spec_max_affordable(buying_power as int) < min_order),
        price >= SCALE && min_order >= 0 ==> spec_quantity_fits(
            price,
            buying_power,
            min_order,
            max_order,
            target_pct,
        ),
{
    lemma_affordable_bounds(buying_power as int);
    if price >= SCALE && min_order >= 0 {
        match spec_notional(
            buying_power as int,
            min_order as int,
            max_order as int,
            target_pct as int,
        ) {
            Some(notional) => {
                lemma_quantity_within_notional(notional, price as int);
            },
            None => {},
        }
    }
}

/// At a price of at least one unit of currency a notional that is not
/// negative buys a quantity between zero and the notional's own number.
pub proof fn lemma_quantity_within_notional(notional: int, price: int)
    requires
        notional >= 0,
        price >= SCALE,
    ensures
        0 <= spec_quantity(notional, price) <= notional,
{
    let n = notional * SCALE;
    assert(0 <= n <= price * notional) by (nonlinear_arith)
        requires
            notional >= 0,
            price >= SCALE,
            n == notional * SCALE,
    ;
    vstd::arithmetic::div_mod::lemma_div_pos_is_pos(n, price);
    vstd::arithmetic::div_mod::lemma_div_is_ordered(n, price * notional, price);
    vstd::arithmetic::div_mod::lemma_div_multiples_vanish(notional, price);
    assert(spec_quantity(notional, price) == n / price);
}

/// The limit price that leans toward the other side of the book: from mid,
/// `aggression_bps` toward the ask for a buy (never above the ask), toward
/// the bid for a sell (never below the bid).
pub open spec fn spec_aggressive_limit_price(
    bid: int,
    ask: int,
    buy: bool,
    aggression_bps: int,
) -> int {
    let mid = spec_midpoint(bid, ask);
    let offset = spec_share(mid, aggression_bps, BPS_PER_UNIT as int);
    if buy {
        if mid + offset < ask {
            mid + offset
        } else {
            ask
        }
    } else {
        if mid - offset > bid {
            mid - offset
        } else {
            bid
        }
    }
}

/// A limit price placed for a fast fill. `side` is `"buy"`; anything else is
/// priced as a sell.
pub fn aggressive_limit_price(bid: i64, ask: i64, side: &str, aggression_bps: i64) -> (price: i64)
    ensures
        price == saturated(
            spec_aggressive_limit_price(bid as int, ask as int, side@ == "buy"@, aggression_bps as int),
        ),
{
    let mid: i64 = midpoint(bid, ask);
    let offset: i128 = share(mid, aggression_bps, BPS_PER_UNIT);
    proof {
        lemma_share_fits(mid as int, aggression_bps as int, BPS_PER_UNIT as int);
    }
    if str_eq(side, "buy") {
        let raised: i128 = mid as i128 + offset;
        if raised < ask as i128 {
            saturate(raised)
        } else {
            ask
        }
    } else {
        let lowered: i128 = mid as i128 - offset;
        if lowered > bid as i128 {
            saturate(lowered)
        } else {
            bid
        }
    }
}

/// An aggressive buy price lies between mid and ask, an aggressive sell price
/// between bid and mid, for any uncrossed quote with a non-negative bid and
/// any non-negative aggression.
pub proof fn lemma_aggressive_price_bounds(bid: int, ask: int, aggression_bps: int)
    requires
        0 <= bid <= ask,
        0 <= aggression_bps,
    ensures
        spec_midpoint(bid, ask) <= spec_aggressive_limit_price(bid, ask, true, aggression_bps)
            <= ask,
        bid <= spec_aggressive_limit_price(bid, ask, false, aggression_bps) <= spec_midpoint(
            bid,
            ask,
        ),
{
    let mid = spec_midpoint(bid, ask);
    assert(bid <= mid <= ask);
    lemma_share_nonnegative(mid, aggression_bps, BPS_PER_UNIT as int);
}

/// Per-symbol rate limiter: the time of each symbol's last admitted order.
pub struct RateLimiter {
    last_order_per_symbol: SymbolTable,
    min_interval_ms: u64,
}

/// Whether an order for `symbol` is admitted at `now`: yes unless an order
/// for the same symbol was admitted less than `min_interval_ms` before.
pub open spec fn spec_admits(
    last: Map<Seq<char>, i64>,
    min_interval_ms: u64,
    symbol: Seq<char>,
    now: i64,
) -> bool {
    !(last.contains_key(symbol) && now - last[symbol] < min_interval_ms)
}

/// The limiter's table after a call: an admitted order is recorded at `now`,
/// a refused one leaves the table as it was.
pub open spec fn spec_after_acquire(
    last: Map<Seq<char>, i64>,
    min_interval_ms: u64,
    symbol: Seq<char>,
    now: i64,
) -> Map<Seq<char>, i64> {
    if spec_admits(last, min_interval_ms, symbol, now) {
        last.insert(symbol, now)
    } else {
        last
    }
}

impl RateLimiter {
    /// The time of each symbol's last admitted order.
    pub closed spec fn last_orders(&self) -> Map<Seq<char>, i64> {
        table_entries(self.last_order_per_symbol)
    }

    /// The least time between two orders of one symbol.
    pub closed spec fn min_interval(&self) -> u64 {
        self.min_interval_ms
    }

    /// A limiter that has admitted nothing yet.
    pub fn new(min_interval_ms: u64) -> (l: Self)
        ensures
            l.last_orders() == Map::<Seq<char>, i64>::empty(),
            l.min_interval() == min_interval_ms,
    {
        RateLimiter { last_order_per_symbol: table_new(), min_interval_ms }
    }

    /// Decides at time `now` whether an order for `symbol` is admitted, and
    /// records it if so.
    pub fn try_acquire_at(&mut self, symbol: &str, now: i64) -> (admitted: bool)
        ensures
            admitted == spec_admits(old(self).last_orders(), old(self).min_interval(), symbol@, now),
            final(self).last_orders() == spec_after_acquire(
                old(self).last_orders(),
                old(self).min_interval(),
                symbol@,
                now,
            ),
            final(self).min_interval() == old(self).min_interval(),
    {
        match table_get(&self.last_order_per_symbol, symbol) {
            Some(last) => {
                if (now as i128) - (last as i128) < self.min_interval_ms as i128 {
                    return false;
                }
            },
            None => {},
        }
        table_insert(&mut self.last_order_per_symbol, symbol, now);
        true
    }

    /// Decides now whether an order for `symbol` is admitted, and records it
    /// if so. The decision is that of `try_acquire_at` at the time the clock
    /// shows.
    pub fn try_acquire(&mut self, symbol: &str) -> (admitted: bool)
        ensures
            exists|now: i64|
                admitted == spec_admits(
                    old(self).last_orders(),
                    old(self).min_interval(),
                    symbol@,
                    now,
                ) && final(self).last_orders() == #[trigger] spec_after_acquire(
                    old(self).last_orders(),
                    old(self).min_interval(),
                    symbol@,
                    now,
                ),
            final(self).min_interval() == old(self).min_interval(),
    {
        let now: i64 = now_millis();
        self.try_acquire_at(symbol, now)
    }
}

/// Two orders of one symbol less than the interval apart are never both
/// admitted: once an order is admitted at `first`, a call at `second` with
/// `second - first < min_interval_ms` is refused.
pub proof fn lemma_no_two_within_interval(
    last: Map<Seq<char>, i64>,
    min_interval_ms: u64,
    symbol: Seq<char>,
    first: i64,
    second: i64,
)
    requires
        second - first < min_interval_ms,
    ensures
        !(spec_admits(last, min_interval_ms, symbol, first) && spec_admits(
            spec_after_acquire(last, min_interval_ms, symbol, first),
            min_interval_ms,
            symbol,
            second,
        )),
{
}

/// Symbols do not affect each other: whether `other` is admitted is the same
/// before and after any call for a different `symbol`.
pub proof fn lemma_symbols_independent(
    last: Map<Seq<char>, i64>,
    min_interval_ms: u64,
    symbol: Seq<char>,
    at: i64,
    other: Seq<char>,
    now: i64,
)
    requires
        symbol != other,
    ensures
        spec_admits(spec_after_acquire(last, min_interval_ms, symbol, at), min_interval_ms, other, now)
            == spec_admits(last, min_interval_ms, other, now),
{
}

} // verus!
