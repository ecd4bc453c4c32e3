//! Trade reporting: one log entry per order and execution, and a running
//! summary of what was traded.
//!
//! The reporter keeps the books; writing them out is left to its caller.

use vstd::prelude::*;
use crate::collections::TextMap;
use crate::events::ExecutionReport;
use crate::events::OrderRequest;
use crate::fixed::div_floor;
use crate::fixed::mul_div;
use crate::fixed::saturate;
use crate::fixed::saturated;
use crate::fixed::SCALE;
use crate::text::eq_ignore_ascii_case;
use crate::text::lowercase;
use crate::text::spec_contains;
use crate::text::spec_eq_ignore_ascii_case;
use crate::text::str_contains;
use crate::text::str_eq;
use crate::text::to_lowercase;

verus! {

/// One line of the trade log.
#[derive(Debug)]
pub struct TradeLogEntry {
    pub ts: String,
    pub symbol: String,
    /// `buy` or `sell`, or `unknown` for an execution.
    pub action: String,
    /// The venue's order id, or `unknown` for an order not yet placed.
    pub order_id: String,
    pub status: String,
    pub qty: Option<i64>,
    pub price: Option<i64>,
    /// Estimated notional: quantity times price where both are known.
    pub notional: Option<i64>,
    pub notes: Option<String>,
}

/// A round trip: bought, then sold.
#[derive(Debug)]
pub struct ClosedTrade {
    pub symbol: String,
    pub buy_time: String,
    pub sell_time: String,
    pub buy_price: i64,
    pub sell_price: i64,
    pub qty: i64,
    pub pnl: i64,
    pub pnl_percent: i64,
}

/// A position bought and not yet sold.
#[derive(Debug)]
pub struct OpenPosition {
    pub symbol: String,
    pub buy_time: String,
    pub buy_price: i64,
    pub qty: i64,
}

/// Figures derived from the summary. `profit_factor` is `None` where there
/// are profits and no losses to hold them against.
#[derive(Clone, Copy, Debug, PartialEq, Eq, Structural)]
pub struct ComputedStats {
    pub runtime_minutes: i64,
    pub trades_per_hour: i64,
    pub win_rate_pct: i64,
    pub avg_profit_per_trade: i64,
    pub profit_factor: Option<i64>,
    pub total_closed_trades: u64,
    pub open_position_count: usize,
}

/// The running summary.
pub struct PerformanceSummary {
    pub total_orders: u64,
    pub total_exec_reports: u64,
    pub buys: u64,
    pub sells: u64,
    pub filled: u64,
    pub rejected: u64,
    pub total_notional: i64,
    pub total_realized_pnl: i64,
    pub winning_trades: u64,
    pub losing_trades: u64,
    pub total_profit: i64,
    pub total_loss: i64,
    /// When reporting started, in milliseconds since the Unix epoch.
    pub start_time: Option<i64>,
    /// Orders seen per symbol.
    pub per_symbol: TextMap<u64>,
    /// Closed trades per symbol, oldest first.
    pub history: TextMap<Vec<ClosedTrade>>,
    /// Open positions per symbol.
    pub open_positions: TextMap<OpenPosition>,
}

/// A counter after one more, held at the top of its range.
pub open spec fn spec_bumped(count: u64) -> u64 {
    if count < u64::MAX {
        (count + 1) as u64
    } else {
        count
    }
}

fn bumped(count: u64) -> (r: u64)
    ensures
        r == spec_bumped(count),
{
    if count < u64::MAX {
        count + 1
    } else {
        count
    }
}

/// The sum of two amounts, pinned into `i64`.
pub open spec fn spec_sum(a: i64, b: i64) -> i64 {
    saturated(a + b) as i64
}

fn sum(a: i64, b: i64) -> (r: i64)
    ensures
        r == spec_sum(a, b),
{
    saturate(a as i128 + b as i128)
}

/// Quantity times price, pinned into `i64`.
pub open spec fn spec_notional(qty: i64, price: i64) -> i64 {
    saturated((qty * price) / (SCALE as int)) as i64
}

/// Quantity times price.
pub fn notional(qty: i64, price: i64) -> (r: i64)
    ensures
        r == spec_notional(qty, price),
{
    saturate(mul_div(qty, price, SCALE))
}

/// Profit or loss of selling `qty` at `sell_price` after buying at
/// `buy_price`.
pub open spec fn spec_pnl(buy_price: i64, sell_price: i64, qty: i64) -> i64 {
    saturated(((sell_price - buy_price) * qty) / (SCALE as int)) as i64
}

/// Profit or loss in percent of the buy price; zero where that is not
/// positive.
pub open spec fn spec_pnl_percent(buy_price: i64, sell_price: i64) -> i64 {
    if buy_price > 0 {
        saturated(((sell_price - buy_price) * (100 * SCALE)) / (buy_price as int)) as i64
    } else {
        0
    }
}

/// Profit or loss of a round trip.
pub fn pnl(buy_price: i64, sell_price: i64, qty: i64) -> (r: i64)
    ensures
        r == spec_pnl(buy_price, sell_price, qty),
{
    let diff: i128 = sell_price as i128 - buy_price as i128;
    assert(-0xffff_ffff_ffff_ffff <= diff <= 0xffff_ffff_ffff_ffff);
    assert(-0x7fff_ffff_ffff_ffff_8000_0000_0000_0000 <= diff * qty
        <= 0x7fff_ffff_ffff_ffff_8000_0000_0000_0000) by (nonlinear_arith)
        requires
            -0xffff_ffff_ffff_ffff <= diff <= 0xffff_ffff_ffff_ffff,
            -0x8000_0000_0000_0000 <= qty <= 0x8000_0000_0000_0000,
    ;
    let product: i128 = diff * (qty as i128);
    saturate(div_floor(product, 100_000_000))
}

/// Profit or loss of a round trip in percent of the buy price.
pub fn pnl_percent(buy_price: i64, sell_price: i64) -> (r: i64)
    ensures
        r == spec_pnl_percent(buy_price, sell_price),
{
    if buy_price > 0 {
        let diff: i128 = sell_price as i128 - buy_price as i128;
        let scaled: i128 = diff * 10_000_000_000;
        saturate(div_floor(scaled, buy_price as i128))
    } else {
        0
    }
}

/// How a status text counts in the summary.
#[derive(Clone, Copy, Debug, PartialEq, Eq, Structural)]
pub enum StatusKind {
    /// Filled, or accepted and taken as filled.
    Filled,
    Rejected,
    Other,
}

/// How a status text counts: anything that speaks of a fill, and `new` and
/// `accepted`, count as filled; anything that speaks of a rejection as
/// rejected.
pub open spec fn spec_status_kind(status: Seq<char>) -> StatusKind {
    let low = lowercase(status);
    if spec_contains(low, "fill"@) || low == "new"@ || low == "accepted"@ {
        StatusKind::Filled
    } else if spec_contains(low, "reject"@) {
        StatusKind::Rejected
    } else {
        StatusKind::Other
    }
}

/// How a status text counts in the summary.
pub fn status_kind(status: &str) -> (k: StatusKind)
    ensures
        k == spec_status_kind(status@),
{
    let low: String = to_lowercase(status);
    if str_contains(low.as_str(), "fill") || str_eq(low.as_str(), "new") || str_eq(
        low.as_str(),
        "accepted",
    ) {
        StatusKind::Filled
    } else if str_contains(low.as_str(), "reject") {
        StatusKind::Rejected
    } else {
        StatusKind::Other
    }
}

/// The count held for a key, zero where there is none.
pub open spec fn count_of(counts: Map<Seq<char>, u64>, key: Seq<char>) -> u64 {
    if counts.contains_key(key) {
        counts[key]
    } else {
        0
    }
}

impl PerformanceSummary {
    /// A summary of nothing.
    pub fn new() -> (s: Self)
        ensures
            s.total_orders == 0,
            s.total_exec_reports == 0,
            s.buys == 0,
            s.sells == 0,
            s.filled == 0,
            s.rejected == 0,
            s.total_notional == 0,
            s.total_realized_pnl == 0,
            s.winning_trades == 0,
            s.losing_trades == 0,
            s.total_profit == 0,
            s.total_loss == 0,
            s.start_time is None,
            s.per_symbol@ == Map::<Seq<char>, u64>::empty(),
            s.history@ == Map::<Seq<char>, Vec<ClosedTrade>>::empty(),
            s.open_positions@ == Map::<Seq<char>, OpenPosition>::empty(),
    {
        PerformanceSummary {
            total_orders: 0,
            total_exec_reports: 0,
            buys: 0,
            sells: 0,
            filled: 0,
            rejected: 0,
            total_notional: 0,
            total_realized_pnl: 0,
            winning_trades: 0,
            losing_trades: 0,
            total_profit: 0,
            total_loss: 0,
            start_time: None,
            per_symbol: TextMap::new(),
            history: TextMap::new(),
            open_positions: TextMap::new(),
        }
    }

    /// Counts an order: one more order, one more buy or sell by its action
    /// (whatever the case), one more for its symbol.
    pub fn on_order(&mut self, order: &OrderRequest)
        ensures
            final(self).total_orders == spec_bumped(old(self).total_orders),
            final(self).buys == if spec_eq_ignore_ascii_case(order.action@, "buy"@) {
                spec_bumped(old(self).buys)
            } else {
                old(self).buys
            },
            final(self).sells == if spec_eq_ignore_ascii_case(order.action@, "sell"@) {
                spec_bumped(old(self).sells)
            } else {
                old(self).sells
            },
            final(self).per_symbol@ == old(self).per_symbol@.insert(
                order.symbol@,
                spec_bumped(count_of(old(self).per_symbol@, order.symbol@)),
            ),
            final(self).total_exec_reports == old(self).total_exec_reports,
            final(self).filled == old(self).filled,
            final(self).rejected == old(self).rejected,
            final(self).total_notional == old(self).total_notional,
            final(self).total_realized_pnl == old(self).total_realized_pnl,
            final(self).winning_trades == old(self).winning_trades,
            final(self).losing_trades == old(self).losing_trades,
            final(self).total_profit == old(self).total_profit,
            final(self).total_loss == old(self).total_loss,
            final(self).start_time == old(self).start_time,
            final(self).history@ == old(self).history@,
            final(self).open_positions@ == old(self).open_positions@,
    {
        self.total_orders = bumped(self.total_orders);
        if eq_ignore_ascii_case(order.action.as_str(), "buy") {
            self.buys = bumped(self.buys);
        }
        if eq_ignore_ascii_case(order.action.as_str(), "sell") {
            self.sells = bumped(self.sells);
        }
        let seen: u64 = match self.per_symbol.get(order.symbol.as_str()) {
            Some(c) => *c,
            None => 0,
        };
        let _previous: Option<u64> = self.per_symbol.insert(order.symbol.clone(), bumped(seen));
    }

    /// Counts an execution report received at the time `now` names.
    ///
    /// Every report counts. A rejected one counts as rejected. A filled one
    /// counts as filled and, where it names quantity and price, adds its
    /// notional; a buy then opens the symbol's position, a sell closes it
    /// and books the round trip with its profit or loss.
    pub fn on_execution(&mut self, exec: &ExecutionReport, now: &str)
        ensures
            final(self).total_exec_reports == spec_bumped(old(self).total_exec_reports),
            final(self).total_orders == old(self).total_orders,
            final(self).per_symbol@ == old(self).per_symbol@,
            final(self).start_time == old(self).start_time,
            final(self).filled == if spec_status_kind(exec.status@) == StatusKind::Filled {
                spec_bumped(old(self).filled)
            } else {
                old(self).filled
            },
            final(self).rejected == if spec_status_kind(exec.status@) == StatusKind::Rejected {
                spec_bumped(old(self).rejected)
            } else {
                old(self).rejected
            },
            ({
                let counted = spec_status_kind(exec.status@) == StatusKind::Filled && exec.qty
                    is Some && exec.price is Some;
                let buy = counted && spec_eq_ignore_ascii_case(exec.side@, "buy"@);
                let sell = counted && !buy && spec_eq_ignore_ascii_case(exec.side@, "sell"@);
                let closes = sell && old(self).open_positions@.contains_key(exec.symbol@);
                &&& final(self).total_notional == if counted {
                    spec_sum(old(self).total_notional, spec_notional(exec.qty->0, exec.price->0))
                } else {
                    old(self).total_notional
                }
                &&& final(self).buys == if buy {
                    spec_bumped(old(self).buys)
                } else {
                    old(self).buys
                }
                &&& final(self).sells == if sell {
                    spec_bumped(old(self).sells)
                } else {
                    old(self).sells
                }
                &&& if buy {
                    let opened = final(self).open_positions@[exec.symbol@];
                    &&& final(self).open_positions@ == old(self).open_positions@.insert(
                        exec.symbol@,
                        opened,
                    )
                    &&& opened.symbol@ == exec.symbol@
                    &&& opened.buy_time@ == now@
                    &&& opened.buy_price == exec.price->0
                    &&& opened.qty == exec.qty->0
                } else if sell {
                    final(self).open_positions@ == old(self).open_positions@.remove(exec.symbol@)
                } else {
                    final(self).open_positions@ == old(self).open_positions@
                }
                &&& if closes {
                    let opened = old(self).open_positions@[exec.symbol@];
                    let gain = spec_pnl(opened.buy_price, exec.price->0, exec.qty->0);
                    let trades = final(self).history@[exec.symbol@]@;
                    let earlier = if old(self).history@.contains_key(exec.symbol@) {
                        old(self).history@[exec.symbol@]@
                    } else {
                        Seq::<ClosedTrade>::empty()
                    };
                    &&& final(self).history@.dom() == old(self).history@.dom().insert(exec.symbol@)
                    &&& trades.len() == earlier.len() + 1
                    &&& trades.take(earlier.len() as int) == earlier
                    &&& trades.last().symbol@ == exec.symbol@
                    &&& trades.last().buy_time@ == opened.buy_time@
                    &&& trades.last().sell_time@ == now@
                    &&& trades.last().buy_price == opened.buy_price
                    &&& trades.last().sell_price == exec.price->0
                    &&& trades.last().qty == exec.qty->0
                    &&& trades.last().pnl == gain
                    &&& trades.last().pnl_percent == spec_pnl_percent(
                        opened.buy_price,
                        exec.price->0,
                    )
                    &&& final(self).total_realized_pnl == spec_sum(
                        old(self).total_realized_pnl,
                        gain,
                    )
                    &&& final(self).winning_trades == if gain > 0 {
                        spec_bumped(old(self).winning_trades)
                    } else {
                        old(self).winning_trades
                    }
                    &&& final(self).losing_trades == if gain > 0 {
                        old(self).losing_trades
                    } else {
                        spec_bumped(old(self).losing_trades)
                    }
                    &&& final(self).total_profit == if gain > 0 {
                        spec_sum(old(self).total_profit, gain)
                    } else {
                        old(self).total_profit
                    }
                    &&& final(self).total_loss == if gain > 0 {
                        old(self).total_loss
                    } else {
                        spec_sum(old(self).total_loss, saturated(-gain) as i64)
                    }
                } else {
                    &&& final(self).history@ == old(self).history@
                    &&& final(self).total_realized_pnl == old(self).total_realized_pnl
                    &&& final(self).winning_trades == old(self).winning_trades
                    &&& final(self).losing_trades == old(self).losing_trades
                    &&& final(self).total_profit == old(self).total_profit
                    &&& final(self).total_loss == old(self).total_loss
                }
            }),
    {
        self.total_exec_reports = bumped(self.total_exec_reports);
        match status_kind(exec.status.as_str()) {
            StatusKind::Other => {},
            StatusKind::Rejected => {
                self.rejected = bumped(self.rejected);
            },
            StatusKind::Filled => {
                self.filled = bumped(self.filled);
                if let Some(qty) = exec.qty {
                    if let Some(price) = exec.price {
                        self.total_notional = sum(self.total_notional, notional(qty, price));
                        if eq_ignore_ascii_case(exec.side.as_str(), "buy") {
                            self.buys = bumped(self.buys);
                            let opened = OpenPosition {
                                symbol: exec.symbol.clone(),
                                buy_time: now.to_owned(),
                                buy_price: price,
                                qty,
                            };
                            let _previous: Option<OpenPosition> = self.open_positions.insert(
                                exec.symbol.clone(),
                                opened,
                            );
                        } else if eq_ignore_ascii_case(exec.side.as_str(), "sell") {
                            self.sells = bumped(self.sells);
                            match self.open_positions.remove(exec.symbol.as_str()) {
                                None => {},
                                Some(opened) => {
                                    let gain: i64 = pnl(opened.buy_price, price, qty);
                                    let trade = ClosedTrade {
                                        symbol: exec.symbol.clone(),
                                        buy_time: opened.buy_time,
                                        sell_time: now.to_owned(),
                                        buy_price: opened.buy_price,
                                        sell_price: price,
                                        qty,
                                        pnl: gain,
                                        pnl_percent: pnl_percent(opened.buy_price, price),
                                    };
                                    let ghost before = self.history@;
                                    let mut trades: Vec<ClosedTrade> = match self.history.remove(
                                        exec.symbol.as_str(),
                                    ) {
                                        Some(t) => t,
                                        None => Vec::new(),
                                    };
                                    let ghost earlier = trades@;
                                    trades.push(trade);
                                    assert(trades@.take(earlier.len() as int) =~= earlier);
                                    let _previous: Option<Vec<ClosedTrade>> = self.history.insert(
                                        exec.symbol.clone(),
                                        trades,
                                    );
                                    assert(self.history@.dom() =~= before.dom().insert(
                                        exec.symbol@,
                                    ));
                                    self.total_realized_pnl = sum(self.total_realized_pnl, gain);
                                    if gain > 0 {
                                        self.winning_trades = bumped(self.winning_trades);
                                        self.total_profit = sum(self.total_profit, gain);
                                    } else {
                                        self.losing_trades = bumped(self.losing_trades);
                                        self.total_loss = sum(
                                            self.total_loss,
                                            saturate(-(gain as i128)),
                                        );
                                    }
                                },
                            }
                        }
                    }
                }
            },
        }
    }

    /// The figures of the summary at time `now`.
    ///
    /// Win rate and average profit are taken over the closed trades, the
    /// profit factor is profit over loss; each is zero where there is
    /// nothing to divide by, but a profit without any loss has no profit
    /// factor. Runtime counts from the start of reporting.
    pub fn compute_stats(&self, now: i64) -> (stats: ComputedStats)
        ensures
            stats == spec_stats(
                self.winning_trades,
                self.losing_trades,
                self.total_profit,
                self.total_loss,
                self.total_realized_pnl,
                self.start_time,
                now,
                self.open_positions@.dom().len(),
            ),
    {
        let closed: u128 = self.winning_trades as u128 + self.losing_trades as u128;
        let total: u64 = if closed > u64::MAX as u128 {
            u64::MAX
        } else {
            closed as u64
        };
        let win_rate: i64 = if total > 0 {
            saturate(div_floor((self.winning_trades as i128) * 10_000_000_000, total as i128))
        } else {
            0
        };
        let average: i64 = if total > 0 {
            saturate(div_floor(self.total_realized_pnl as i128, total as i128))
        } else {
            0
        };
        let factor: Option<i64> = if self.total_loss > 0 {
            Some(saturate(mul_div(self.total_profit, SCALE, self.total_loss)))
        } else if self.total_profit > 0 {
            None
        } else {
            Some(0)
        };
        let runtime_ms: i128 = match self.start_time {
            Some(t) => if now >= t {
                now as i128 - t as i128
            } else {
                0
            },
            None => 0,
        };
        let minutes: i64 = saturate(div_floor(runtime_ms * 100_000_000, 60_000));
        let per_hour: i64 = if runtime_ms > 0 {
            assert(total as i128 * 360_000_000_000_000 <= 0x1_0000_0000_0000_0000
                * 360_000_000_000_000) by (nonlinear_arith)
                requires
                    0 <= total as i128 <= 0x1_0000_0000_0000_0000,
            ;
            saturate(div_floor((total as i128) * 360_000_000_000_000, runtime_ms))
        } else {
            0
        };
        ComputedStats {
            runtime_minutes: minutes,
            trades_per_hour: per_hour,
            win_rate_pct: win_rate,
            avg_profit_per_trade: average,
            profit_factor: factor,
            total_closed_trades: total,
            open_position_count: self.open_positions.len(),
        }
    }
}

/// The figures of a summary.
pub open spec fn spec_stats(
    winning: u64,
    losing: u64,
    profit: i64,
    loss: i64,
    realized: i64,
    start: Option<i64>,
    now: i64,
    open_positions: nat,
) -> ComputedStats {
    let total: int = if winning + losing > u64::MAX {
        u64::MAX as int
    } else {
        winning + losing
    };
    let runtime_ms: int = match start {
        Some(t) => if now >= t {
            now - t
        } else {
            0
        },
        None => 0,
    };
    ComputedStats {
        runtime_minutes: saturated((runtime_ms * SCALE) / 60_000) as i64,
        trades_per_hour: if runtime_ms > 0 {
            saturated((total * (3_600_000 * SCALE)) / runtime_ms) as i64
        } else {
            0
        },
        win_rate_pct: if total > 0 {
            saturated((winning * (100 * SCALE)) / total) as i64
        } else {
            0
        },
        avg_profit_per_trade: if total > 0 {
            saturated(realized as int / total) as i64
        } else {
            0
        },
        profit_factor: if loss > 0 {
            Some(saturated((profit * SCALE) / (loss as int)) as i64)
        } else if profit > 0 {
            None
        } else {
            Some(0)
        },
        total_closed_trades: total as u64,
        open_position_count: open_positions as usize,
    }
}

/// The log entry of an order: not placed yet, so without order id; quantity
/// and notional only where the order names a positive quantity.
pub fn order_log_entry(order: &OrderRequest, ts: &str) -> (entry: TradeLogEntry)
    ensures
        entry.ts@ == ts@,
        entry.symbol@ == order.symbol@,
        entry.action@ == order.action@,
        entry.order_id@ == "unknown"@,
        entry.status@ == "order_created"@,
        entry.qty == if order.qty > 0 {
            Some(order.qty)
        } else {
            None::<i64>
        },
        entry.price == order.limit_price,
        entry.notional == match order.limit_price {
            Some(p) => if order.qty > 0 {
                Some(spec_notional(order.qty, p))
            } else {
                None::<i64>
            },
            None => None::<i64>,
        },
        entry.notes matches Some(n) && n@ == "type="@ + order.order_type@,
{
    let mut notes: String = "type=".to_owned();
    crate::text::append_str(&mut notes, order.order_type.as_str());
    TradeLogEntry {
        ts: ts.to_owned(),
        symbol: order.symbol.clone(),
        action: order.action.clone(),
        order_id: "unknown".to_owned(),
        status: "order_created".to_owned(),
        qty: if order.qty > 0 {
            Some(order.qty)
        } else {
            None
        },
        price: order.limit_price,
        notional: match order.limit_price {
            Some(p) => if order.qty > 0 {
                Some(notional(order.qty, p))
            } else {
                None
            },
            None => None,
        },
        notes: Some(notes),
    }
}

/// The log entry of an execution report.
pub fn execution_log_entry(exec: &ExecutionReport, ts: &str) -> (entry: TradeLogEntry)
    ensures
        entry.ts@ == ts@,
        entry.symbol@ == exec.symbol@,
        entry.action@ == "unknown"@,
        entry.order_id@ == exec.order_id@,
        entry.status@ == exec.status@,
        entry.qty == exec.qty,
        entry.price == exec.price,
        entry.notional == match (exec.qty, exec.price) {
            (Some(q), Some(p)) => Some(spec_notional(q, p)),
            _ => None::<i64>,
        },
        entry.notes is None,
{
    TradeLogEntry {
        ts: ts.to_owned(),
        symbol: exec.symbol.clone(),
        action: "unknown".to_owned(),
        order_id: exec.order_id.clone(),
        status: exec.status.clone(),
        qty: exec.qty,
        price: exec.price,
        notional: match exec.qty {
            Some(q) => match exec.price {
                Some(p) => Some(notional(q, p)),
                None => None,
            },
            None => None,
        },
        notes: None,
    }
}

} // verus!
