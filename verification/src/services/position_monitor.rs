//! Positions and pending orders, and the table that tracks both.

use vstd::prelude::*;
use crate::clock::now_millis;
use crate::clock::rfc3339_millis;
use crate::clock::rfc3339_text;
use crate::clock::spec_whole_days;
use crate::clock::timestamp_millis;
use crate::clock::timestamp_text;
use crate::clock::whole_days_between;
use crate::collections::TextMap;
use crate::config::symbol_params;
use crate::constants::MAX_RECREATE_ATTEMPTS;
use crate::constants::ORDER_CHECK_INTERVAL_MS;
use crate::constants::QTY_EPSILON;
use crate::constants::RECREATE_COOLDOWN_MS;
use crate::config::AppConfig;
use crate::data::store::Quote;
use crate::decimal::format_fixed;
use crate::decimal::spec_format_fixed;
use crate::error::is_insufficient_balance_error;
use crate::error::spec_is_insufficient_balance_error;
use crate::events::AnalysisSignal;
use crate::events::Event;
use crate::events::MarketEvent;
use crate::exchange::types::OrderAck;
use crate::exchange::types::OrderType;
use crate::exchange::types::PlaceOrderRequest;
use crate::exchange::types::Position;
use crate::exchange::types::Side;
use crate::exchange::types::TimeInForce;
use crate::fixed::add_pct;
use crate::fixed::saturate;
use crate::fixed::saturated;
use crate::fixed::spec_lowered;
use crate::fixed::spec_raised;
use crate::fixed::sub_pct;
use crate::fixed::PERCENT_PER_UNIT;
use crate::fixed::SCALE;
use crate::text::append_str;
use crate::text::eq_ignore_ascii_case;
use crate::text::spec_eq_ignore_ascii_case;
use crate::text::str_eq;

verus! {

/// An open position and the state of its protective exit order.
///
/// A position whose `open_order_id` is `None` is orphaned: no take-profit
/// order stands for it at the venue. The trailing-stop fields are carried but
/// nothing drives them.
#[derive(Debug)]
pub struct PositionInfo {
    pub symbol: String,
    pub entry_price: i64,
    pub qty: i64,
    pub stop_loss: i64,
    pub take_profit: i64,
    pub entry_time: String,
    pub side: String,
    pub is_closing: bool,
    pub open_order_id: Option<String>,
    pub last_recreate_attempt: Option<i64>,
    pub recreate_attempts: u32,
    pub highest_price: i64,
    pub trailing_stop_active: bool,
    pub trailing_stop_price: i64,
}

impl Clone for PositionInfo {
    fn clone(&self) -> (r: Self)
        ensures
            r == *self,
    {
        PositionInfo {
            symbol: self.symbol.clone(),
            entry_price: self.entry_price,
            qty: self.qty,
            stop_loss: self.stop_loss,
            take_profit: self.take_profit,
            entry_time: self.entry_time.clone(),
            side: self.side.clone(),
            is_closing: self.is_closing,
            open_order_id: match &self.open_order_id {
                Some(id) => Some(id.clone()),
                None => None,
            },
            last_recreate_attempt: self.last_recreate_attempt,
            recreate_attempts: self.recreate_attempts,
            highest_price: self.highest_price,
            trailing_stop_active: self.trailing_stop_active,
            trailing_stop_price: self.trailing_stop_price,
        }
    }
}

/// A limit order resting at the venue. A pending `buy` becomes a position
/// when it fills; a pending `sell` ends one.
#[derive(Debug)]
pub struct PendingOrder {
    pub order_id: String,
    pub symbol: String,
    pub side: String,
    pub limit_price: i64,
    pub qty: i64,
    pub created_at: String,
    pub stop_loss: Option<i64>,
    pub take_profit: Option<i64>,
    pub last_check_time: Option<i64>,
}

impl Clone for PendingOrder {
    fn clone(&self) -> (r: Self)
        ensures
            r == *self,
    {
        PendingOrder {
            order_id: self.order_id.clone(),
            symbol: self.symbol.clone(),
            side: self.side.clone(),
            limit_price: self.limit_price,
            qty: self.qty,
            created_at: self.created_at.clone(),
            stop_loss: self.stop_loss,
            take_profit: self.take_profit,
            last_check_time: self.last_check_time,
        }
    }
}

/// The order with its last check set to `now`.
pub open spec fn checked_at(order: PendingOrder, now: i64) -> PendingOrder {
    PendingOrder { last_check_time: Some(now), ..order }
}

/// The position with its closing flag set as given.
pub open spec fn with_closing(position: PositionInfo, closing: bool) -> PositionInfo {
    PositionInfo { is_closing: closing, ..position }
}

/// The position with its protective order set as given.
pub open spec fn with_open_order(position: PositionInfo, id: Option<String>) -> PositionInfo {
    PositionInfo { open_order_id: id, ..position }
}

/// The position with its quantity set as given.
pub open spec fn with_qty(position: PositionInfo, qty: i64) -> PositionInfo {
    PositionInfo { qty, ..position }
}

/// The order is for `symbol` on the given side.
pub open spec fn is_pending_of(order: PendingOrder, symbol: Seq<char>, side: Seq<char>) -> bool {
    order.symbol@ == symbol && order.side@ == side
}

/// Some pending order is for `symbol` on the given side.
pub open spec fn has_pending(
    pending: Map<Seq<char>, PendingOrder>,
    symbol: Seq<char>,
    side: Seq<char>,
) -> bool {
    exists|k: Seq<char>| #[trigger] pending.contains_key(k)
        && is_pending_of(pending[k], symbol, side)
}

/// The position after one more recreation attempt at `now`.
pub open spec fn after_attempt(position: PositionInfo, now: i64) -> PositionInfo {
    PositionInfo {
        recreate_attempts: (position.recreate_attempts + 1) as u32,
        last_recreate_attempt: Some(now),
        ..position
    }
}

/// Every pending order sits under its own order id.
pub open spec fn keyed_by_order_id(pending: Map<Seq<char>, PendingOrder>) -> bool {
    forall|k: Seq<char>| #[trigger] pending.contains_key(k) ==> pending[k].order_id@ == k
}

/// Every position sits under its own symbol.
pub open spec fn keyed_by_symbol(positions: Map<Seq<char>, PositionInfo>) -> bool {
    forall|k: Seq<char>| #[trigger] positions.contains_key(k) ==> positions[k].symbol@ == k
}

/// The list holds exactly the values of the map, each once.
pub open spec fn lists_positions(
    list: Seq<PositionInfo>,
    map: Map<Seq<char>, PositionInfo>,
) -> bool {
    &&& list.len() == map.dom().len()
    &&& forall|i: int|
        0 <= i < list.len()
            ==> map.contains_key((#[trigger] list[i]).symbol@) && map[list[i].symbol@]
            == list[i]
    &&& forall|i: int, j: int|
        0 <= i < j < list.len() ==> (#[trigger] list[i]).symbol@ != (#[trigger] list[j]).symbol@
    &&& forall|k: Seq<char>| #[trigger]
        map.contains_key(k)
            ==> exists|i: int| 0 <= i < list.len() && (#[trigger] list[i]).symbol@ == k
}

/// The list holds exactly the values of the map, each once.
pub open spec fn lists_pending(list: Seq<PendingOrder>, map: Map<Seq<char>, PendingOrder>) -> bool {
    &&& list.len() == map.dom().len()
    &&& forall|i: int|
        0 <= i < list.len() ==> map.contains_key((#[trigger] list[i]).order_id@)
            && map[list[i].order_id@] == list[i]
    &&& forall|i: int, j: int|
        0 <= i < j < list.len() ==> (#[trigger] list[i]).order_id@ != (
        #[trigger] list[j]).order_id@
    &&& forall|k: Seq<char>| #[trigger]
        map.contains_key(k) ==> exists|i: int|
            0 <= i < list.len() && (#[trigger] list[i]).order_id@ == k
}

/// The engine's record of what it holds and what it has resting at the
/// venue: positions by symbol, pending orders by order id.
pub struct PositionTracker {
    positions: TextMap<PositionInfo>,
    pending_orders: TextMap<PendingOrder>,
}

impl PositionTracker {
    #[verifier::type_invariant]
    spec fn inv(self) -> bool {
        &&& keyed_by_symbol(self.positions@)
        &&& keyed_by_order_id(self.pending_orders@)
    }

    /// Positions by symbol.
    pub closed spec fn positions(&self) -> Map<Seq<char>, PositionInfo> {
        self.positions@
    }

    /// Pending orders by order id.
    pub closed spec fn pending(&self) -> Map<Seq<char>, PendingOrder> {
        self.pending_orders@
    }

    /// A tracker that holds nothing.
    pub fn new() -> (t: Self)
        ensures
            t.positions() == Map::<Seq<char>, PositionInfo>::empty(),
            t.pending() == Map::<Seq<char>, PendingOrder>::empty(),
    {
        PositionTracker { positions: TextMap::new(), pending_orders: TextMap::new() }
    }

    /// Records a pending order as checked at `now`, replacing any order of
    /// the same id.
    pub fn add_pending_order_at(&mut self, order: PendingOrder, now: i64)
        ensures
            final(self).pending() == old(self).pending().insert(
                order.order_id@,
                checked_at(order, now),
            ),
            final(self).positions() == old(self).positions(),
    {
        proof {
            use_type_invariant(&*self);
        }
        let mut order = order;
        order.last_check_time = Some(now);
        let key: String = order.order_id.clone();
        let mut table: TextMap<PendingOrder> = TextMap::new();
        core::mem::swap(&mut self.pending_orders, &mut table);
        let _previous: Option<PendingOrder> = table.insert(key, order);
        self.pending_orders = table;
    }

    /// Records a pending order as checked now.
    pub fn add_pending_order(&mut self, order: PendingOrder)
        ensures
            exists|now: i64|
                final(self).pending() == old(self).pending().insert(
                    order.order_id@,
                    #[trigger] checked_at(order, now),
                ),
            final(self).positions() == old(self).positions(),
    {
        let now: i64 = now_millis();
        self.add_pending_order_at(order, now);
    }

    /// Marks a pending order as checked at `now`; an unknown id changes
    /// nothing.
    pub fn update_pending_order_check_time_at(&mut self, order_id: &str, now: i64)
        ensures
            final(self).pending() == if old(self).pending().contains_key(order_id@) {
                old(self).pending().insert(
                    order_id@,
                    checked_at(old(self).pending()[order_id@], now),
                )
            } else {
                old(self).pending()
            },
            final(self).positions() == old(self).positions(),
    {
        proof {
            use_type_invariant(&*self);
        }
        let mut table: TextMap<PendingOrder> = TextMap::new();
        core::mem::swap(&mut self.pending_orders, &mut table);
        let ghost before = table@;
        match table.remove(order_id) {
            Some(found) => {
                let mut order = found;
                order.last_check_time = Some(now);
                let key: String = order.order_id.clone();
                let _previous: Option<PendingOrder> = table.insert(key, order);
                assert(table@ =~= before.insert(order_id@, checked_at(before[order_id@], now)));
            },
            None => {
                assert(table@ =~= before);
            },
        }
        self.pending_orders = table;
    }

    /// Marks a pending order as checked now.
    pub fn update_pending_order_check_time(&mut self, order_id: &str)
        ensures
            exists|now: i64|
                final(self).pending() == if old(self).pending().contains_key(order_id@) {
                    old(self).pending().insert(
                        order_id@,
                        #[trigger] checked_at(old(self).pending()[order_id@], now),
                    )
                } else {
                    old(self).pending()
                },
            final(self).positions() == old(self).positions(),
    {
        let now: i64 = now_millis();
        self.update_pending_order_check_time_at(order_id, now);
        proof {
            if !old(self).pending().contains_key(order_id@) {
                let o = old(self).pending()[order_id@];
                assert(checked_at(o, now) == checked_at(o, now));
            }
        }
    }

    /// Takes a pending order out of the tracker.
    pub fn remove_pending_order(&mut self, order_id: &str) -> (removed: Option<PendingOrder>)
        ensures
            final(self).pending() == old(self).pending().remove(order_id@),
            final(self).positions() == old(self).positions(),
            removed == if old(self).pending().contains_key(order_id@) {
                Some(old(self).pending()[order_id@])
            } else {
                None::<PendingOrder>
            },
    {
        proof {
            use_type_invariant(&*self);
        }
        let mut table: TextMap<PendingOrder> = TextMap::new();
        core::mem::swap(&mut self.pending_orders, &mut table);
        let removed: Option<PendingOrder> = table.remove(order_id);
        self.pending_orders = table;
        removed
    }

    /// A snapshot of every pending order.
    pub fn get_all_pending_orders(&self) -> (list: Vec<PendingOrder>)
        ensures
            lists_pending(list@, self.pending()),
            keyed_by_order_id(self.pending()),
    {
        proof {
            use_type_invariant(self);
        }
        let n: usize = self.pending_orders.len();
        let mut list: Vec<PendingOrder> = Vec::new();
        let mut i: usize = 0;
        while i < n
            invariant
                i <= n,
                n == self.pending_orders.slots().len(),
                self.pending_orders@ == crate::collections::map_of(self.pending_orders.slots()),
                crate::collections::distinct_keys(self.pending_orders.slots()),
                keyed_by_order_id(self.pending_orders@),
                list.len() == i,
                forall|j: int| 0 <= j < i
                    ==> #[trigger] list[j] == self.pending_orders.slots()[j].1,
            decreases n - i,
        {
            let order: &PendingOrder = self.pending_orders.value_at(i);
            list.push(order.clone());
            i = i + 1;
        }
        proof {
            let slots = self.pending_orders.slots();
            assert forall|j: int| 0 <= j < list.len() implies self.pending().contains_key(
                (#[trigger] list[j]).order_id@,
            ) && self.pending()[list[j].order_id@] == list[j] && list[j].order_id@ == slots[j].0@ by {
                crate::collections::lemma_slot_is_entry(slots, j);
            }
            assert forall|k: Seq<char>| #[trigger] self.pending().contains_key(k) implies exists|
                i: int,
            |
                0 <= i < list.len() && (#[trigger] list[i]).order_id@ == k by {
                crate::collections::lemma_entry_has_slot(slots, k);
                let s = crate::collections::slot_in(slots, k);
                assert(list[s].order_id@ == k);
            }
        }
        list
    }

    /// Records a position under its symbol, replacing any position of the
    /// same symbol. A position always starts out not closing.
    pub fn add_position(&mut self, info: PositionInfo)
        ensures
            final(self).positions() == old(self).positions().insert(
                info.symbol@,
                with_closing(info, false),
            ),
            final(self).pending() == old(self).pending(),
    {
        proof {
            use_type_invariant(&*self);
        }
        let mut info = info;
        info.is_closing = false;
        self.put_position(info);
    }

    /// Stores a position under its symbol as it is.
    fn put_position(&mut self, info: PositionInfo)
        ensures
            final(self).positions() == old(self).positions().insert(info.symbol@, info),
            final(self).pending() == old(self).pending(),
    {
        proof {
            use_type_invariant(&*self);
        }
        let key: String = info.symbol.clone();
        let mut table: TextMap<PositionInfo> = TextMap::new();
        core::mem::swap(&mut self.positions, &mut table);
        let _previous: Option<PositionInfo> = table.insert(key, info);
        self.positions = table;
    }

    /// Marks a position as closing, so that no second exit is started for
    /// it; an unknown symbol changes nothing.
    pub fn mark_closing(&mut self, symbol: &str)
        ensures
            final(self).positions() == if old(self).positions().contains_key(symbol@) {
                old(self).positions().insert(
                    symbol@,
                    with_closing(old(self).positions()[symbol@], true),
                )
            } else {
                old(self).positions()
            },
            final(self).pending() == old(self).pending(),
    {
        proof {
            use_type_invariant(&*self);
        }
        let ghost before = self.positions();
        match self.remove_position(symbol) {
            Some(found) => {
                let mut position = found;
                position.is_closing = true;
                self.put_position(position);
                assert(self.positions() =~= before.insert(
                    symbol@,
                    with_closing(before[symbol@], true),
                ));
            },
            None => {
                assert(self.positions() =~= before);
            },
        }
    }

    /// Sets or clears the protective order of a position; an unknown symbol
    /// changes nothing.
    pub fn set_open_order(&mut self, symbol: &str, order_id: Option<String>)
        ensures
            final(self).positions() == if old(self).positions().contains_key(symbol@) {
                old(self).positions().insert(
                    symbol@,
                    with_open_order(old(self).positions()[symbol@], order_id),
                )
            } else {
                old(self).positions()
            },
            final(self).pending() == old(self).pending(),
    {
        proof {
            use_type_invariant(&*self);
        }
        let ghost before = self.positions();
        match self.remove_position(symbol) {
            Some(found) => {
                let mut position = found;
                position.open_order_id = order_id;
                self.put_position(position);
                assert(self.positions() =~= before.insert(
                    symbol@,
                    with_open_order(before[symbol@], order_id),
                ));
            },
            None => {
                assert(self.positions() =~= before);
            },
        }
    }

    /// Sets the quantity of a position; an unknown symbol changes nothing.
    pub fn set_quantity(&mut self, symbol: &str, qty: i64)
        ensures
            final(self).positions() == if old(self).positions().contains_key(symbol@) {
                old(self).positions().insert(symbol@, with_qty(old(self).positions()[symbol@], qty))
            } else {
                old(self).positions()
            },
            final(self).pending() == old(self).pending(),
    {
        proof {
            use_type_invariant(&*self);
        }
        let ghost before = self.positions();
        match self.remove_position(symbol) {
            Some(found) => {
                let mut position = found;
                position.qty = qty;
                self.put_position(position);
                assert(self.positions() =~= before.insert(symbol@, with_qty(before[symbol@], qty)));
            },
            None => {
                assert(self.positions() =~= before);
            },
        }
    }

    /// Takes a position out of the tracker.
    pub fn remove_position(&mut self, symbol: &str) -> (removed: Option<PositionInfo>)
        ensures
            final(self).positions() == old(self).positions().remove(symbol@),
            final(self).pending() == old(self).pending(),
            removed == if old(self).positions().contains_key(symbol@) {
                Some(old(self).positions()[symbol@])
            } else {
                None::<PositionInfo>
            },
            removed matches Some(p) ==> p.symbol@ == symbol@,
    {
        proof {
            use_type_invariant(&*self);
        }
        let mut table: TextMap<PositionInfo> = TextMap::new();
        core::mem::swap(&mut self.positions, &mut table);
        let removed: Option<PositionInfo> = table.remove(symbol);
        self.positions = table;
        removed
    }

    /// A snapshot of the position held for `symbol`.
    pub fn get_position(&self, symbol: &str) -> (r: Option<PositionInfo>)
        ensures
            r == if self.positions().contains_key(symbol@) {
                Some(self.positions()[symbol@])
            } else {
                None::<PositionInfo>
            },
            r matches Some(p) ==> p.symbol@ == symbol@,
    {
        proof {
            use_type_invariant(self);
        }
        match self.positions.get(symbol) {
            Some(p) => Some(p.clone()),
            None => None,
        }
    }

    /// A snapshot of every position.
    pub fn get_all_positions(&self) -> (list: Vec<PositionInfo>)
        ensures
            lists_positions(list@, self.positions()),
            keyed_by_symbol(self.positions()),
    {
        proof {
            use_type_invariant(self);
        }
        let n: usize = self.positions.len();
        let mut list: Vec<PositionInfo> = Vec::new();
        let mut i: usize = 0;
        while i < n
            invariant
                i <= n,
                n == self.positions.slots().len(),
                self.positions@ == crate::collections::map_of(self.positions.slots()),
                crate::collections::distinct_keys(self.positions.slots()),
                keyed_by_symbol(self.positions@),
                list.len() == i,
                forall|j: int| 0 <= j < i ==> #[trigger] list[j] == self.positions.slots()[j].1,
            decreases n - i,
        {
            let position: &PositionInfo = self.positions.value_at(i);
            list.push(position.clone());
            i = i + 1;
        }
        proof {
            let slots = self.positions.slots();
            assert forall|j: int| 0 <= j < list.len() implies self.positions().contains_key(
                (#[trigger] list[j]).symbol@,
            ) && self.positions()[list[j].symbol@] == list[j] && list[j].symbol@ == slots[j].0@ by {
                crate::collections::lemma_slot_is_entry(slots, j);
            }
            assert forall|k: Seq<char>| #[trigger] self.positions().contains_key(k) implies exists|
                i: int,
            |
                0 <= i < list.len() && (#[trigger] list[i]).symbol@ == k by {
                crate::collections::lemma_entry_has_slot(slots, k);
                let s = crate::collections::slot_in(slots, k);
                assert(list[s].symbol@ == k);
            }
        }
        list
    }

    /// Whether a position is held for `symbol`.
    pub fn has_position(&self, symbol: &str) -> (r: bool)
        ensures
            r == self.positions().contains_key(symbol@),
    {
        self.positions.contains_key(symbol)
    }

    /// Counts one more recreation attempt for a position, made at `now`;
    /// an unknown symbol changes nothing.
    pub fn record_recreate_attempt(&mut self, symbol: &str, now: i64)
        requires
            old(self).positions().contains_key(symbol@)
                ==> old(self).positions()[symbol@].recreate_attempts < u32::MAX,
        ensures
            final(self).positions() == if old(self).positions().contains_key(symbol@) {
                old(self).positions().insert(
                    symbol@,
                    after_attempt(old(self).positions()[symbol@], now),
                )
            } else {
                old(self).positions()
            },
            final(self).pending() == old(self).pending(),
    {
        proof {
            use_type_invariant(&*self);
        }
        let ghost before = self.positions();
        match self.remove_position(symbol) {
            Some(found) => {
                let mut position = found;
                position.recreate_attempts = position.recreate_attempts + 1;
                position.last_recreate_attempt = Some(now);
                self.put_position(position);
                assert(self.positions() =~= before.insert(
                    symbol@,
                    after_attempt(before[symbol@], now),
                ));
            },
            None => {
                assert(self.positions() =~= before);
            },
        }
    }

    /// The id of a pending order of the given side for `symbol`, where one
    /// is held.
    pub fn find_pending(&self, symbol: &str, side: &str) -> (r: Option<String>)
        ensures
            match r {
                Some(id) => self.pending().contains_key(id@) && is_pending_of(
                    self.pending()[id@],
                    symbol@,
                    side@,
                ),
                None => !has_pending(self.pending(), symbol@, side@),
            },
    {
        let list: Vec<PendingOrder> = self.get_all_pending_orders();
        let mut i: usize = 0;
        while i < list.len()
            invariant
                i <= list.len(),
                lists_pending(list@, self.pending()),
                forall|j: int| 0 <= j < i ==> !is_pending_of(#[trigger] list[j], symbol@, side@),
            decreases list.len() - i,
        {
            if str_eq(list[i].symbol.as_str(), symbol) && str_eq(list[i].side.as_str(), side) {
                return Some(list[i].order_id.clone());
            }
            i = i + 1;
        }
        proof {
            assert forall|k: Seq<char>| #[trigger] self.pending().contains_key(k) implies !is_pending_of(
                self.pending()[k],
                symbol@,
                side@,
            ) by {
                let j = choose|j: int| 0 <= j < list.len() && (#[trigger] list[j]).order_id@ == k;
                assert(self.pending()[list[j].order_id@] == list[j]);
            }
        }
        None
    }

    /// The tracker owns no market data: its quote history is always empty.
    pub fn get_quote_history(&self, _symbol: &str) -> (history: Vec<Quote>)
        ensures
            history@.len() == 0,
    {
        Vec::new()
    }

    /// The tracker owns no market data: it never knows a bid.
    pub fn get_last_bid(&self, _symbol: &str) -> (bid: Option<i64>)
        ensures
            bid is None,
    {
        None
    }
}


/// What a venue says of an order, as far as the monitor cares.
#[derive(Clone, Copy, Debug, PartialEq, Eq, Structural)]
pub enum OrderStatus {
    Filled,
    /// Canceled or expired: the order will never fill.
    Ended,
    /// Anything else: the order may still fill.
    Open,
}

/// Reads a venue's status text, whatever its case.
pub open spec fn spec_order_status(status: Seq<char>) -> OrderStatus {
    if spec_eq_ignore_ascii_case(status, "filled"@) {
        OrderStatus::Filled
    } else if spec_eq_ignore_ascii_case(status, "canceled"@) || spec_eq_ignore_ascii_case(
        status,
        "expired"@,
    ) {
        OrderStatus::Ended
    } else {
        OrderStatus::Open
    }
}

/// Reads a venue's status text, whatever its case.
pub fn order_status(status: &str) -> (r: OrderStatus)
    ensures
        r == spec_order_status(status@),
{
    if eq_ignore_ascii_case(status, "filled") {
        OrderStatus::Filled
    } else if eq_ignore_ascii_case(status, "canceled") || eq_ignore_ascii_case(status, "expired") {
        OrderStatus::Ended
    } else {
        OrderStatus::Open
    }
}

/// The symbol and price a market event reports: the bid of a quote, the
/// price of a trade; nothing for a price that is not positive.
pub open spec fn spec_price_of(event: Event) -> Option<(String, i64)> {
    match event {
        Event::Market(MarketEvent::Quote { symbol, bid, ask, timestamp }) => if bid > 0 {
            Some((symbol, bid))
        } else {
            None
        },
        Event::Market(MarketEvent::Trade { symbol, price, size, timestamp }) => if price > 0 {
            Some((symbol, price))
        } else {
            None
        },
        _ => None,
    }
}

/// The symbol and price a market event reports.
pub fn price_of(event: &Event) -> (r: Option<(String, i64)>)
    ensures
        r == spec_price_of(*event),
{
    match event {
        Event::Market(MarketEvent::Quote { symbol, bid, ask: _, timestamp: _ }) => {
            if *bid > 0 {
                Some((symbol.clone(), *bid))
            } else {
                None
            }
        },
        Event::Market(MarketEvent::Trade { symbol, price, size: _, timestamp: _ }) => {
            if *price > 0 {
                Some((symbol.clone(), *price))
            } else {
                None
            }
        },
        _ => None,
    }
}

/// What to do about one pending order on a price update.
#[derive(Clone, Copy, Debug, PartialEq, Eq, Structural)]
pub enum PendingAction {
    /// Leave the order alone.
    Skip,
    /// The order is older than the expiration: cancel it at the venue and
    /// drop it.
    CancelExpired,
    /// The price reached the buy limit: ask the venue whether it filled.
    PollBuy,
    /// A pending sell: `poll` where the price reached the limit, `stop_out`
    /// where the price fell to the stop-loss the order carries.
    Sell { poll: bool, stop_out: bool },
}

/// Whether an order created at `created` has lived for `days` whole days at
/// `now`. An order whose creation time cannot be read never expires.
pub open spec fn spec_expired(created: Option<i64>, days: Option<u64>, now: i64) -> bool {
    match (days, created) {
        (Some(d), Some(c)) => spec_whole_days(now - c) >= d,
        _ => false,
    }
}

/// The decision on one pending order for a price update of `symbol`.
pub open spec fn spec_review_pending(
    order: PendingOrder,
    symbol: Seq<char>,
    price: i64,
    now: i64,
    created: Option<i64>,
    expiration_days: Option<u64>,
) -> PendingAction {
    if order.symbol@ != symbol {
        PendingAction::Skip
    } else if spec_expired(created, expiration_days, now) {
        PendingAction::CancelExpired
    } else if order.last_check_time matches Some(t) && now - t < ORDER_CHECK_INTERVAL_MS {
        PendingAction::Skip
    } else if order.side@ == "buy"@ {
        if price <= order.limit_price {
            PendingAction::PollBuy
        } else {
            PendingAction::Skip
        }
    } else if order.side@ == "sell"@ {
        let poll = price >= order.limit_price;
        let stop_out = order.stop_loss matches Some(sl) && price <= sl;
        if poll || stop_out {
            PendingAction::Sell { poll, stop_out }
        } else {
            PendingAction::Skip
        }
    } else {
        PendingAction::Skip
    }
}

/// Decides what to do about one pending order, given when it was created.
pub fn review_pending_order_with(
    order: &PendingOrder,
    symbol: &str,
    price: i64,
    now: i64,
    created: Option<i64>,
    expiration_days: Option<u64>,
) -> (action: PendingAction)
    ensures
        action == spec_review_pending(*order, symbol@, price, now, created, expiration_days),
{
    if !str_eq(order.symbol.as_str(), symbol) {
        return PendingAction::Skip;
    }
    if let Some(days) = expiration_days {
        if let Some(c) = created {
            let age: i64 = whole_days_between(c, now);
            if age >= 0 && age as u64 >= days {
                return PendingAction::CancelExpired;
            }
        }
    }
    if let Some(t) = order.last_check_time {
        if (now as i128) - (t as i128) < ORDER_CHECK_INTERVAL_MS as i128 {
            return PendingAction::Skip;
        }
    }
    if str_eq(order.side.as_str(), "buy") {
        if price <= order.limit_price {
            PendingAction::PollBuy
        } else {
            PendingAction::Skip
        }
    } else if str_eq(order.side.as_str(), "sell") {
        let poll: bool = price >= order.limit_price;
        let stop_out: bool = match order.stop_loss {
            Some(sl) => price <= sl,
            None => false,
        };
        if poll || stop_out {
            PendingAction::Sell { poll, stop_out }
        } else {
            PendingAction::Skip
        }
    } else {
        PendingAction::Skip
    }
}

/// The quantity a filled order brought in: what the venue reports as filled
/// where that is positive, else what was asked for.
pub open spec fn spec_filled_qty(requested: i64, reported: Option<i64>) -> i64 {
    match reported {
        Some(q) => if q > 0 {
            q
        } else {
            requested
        },
        None => requested,
    }
}

/// Two quantities differ by more than the tolerance.
pub open spec fn spec_qty_differs(a: i64, b: i64) -> bool {
    a - b > QTY_EPSILON || b - a > QTY_EPSILON
}

/// Whether two quantities differ by more than the tolerance.
pub fn qty_differs(a: i64, b: i64) -> (r: bool)
    ensures
        r == spec_qty_differs(a, b),
{
    let d: i128 = a as i128 - b as i128;
    d > QTY_EPSILON as i128 || -d > QTY_EPSILON as i128
}

/// Take-profit price for an entry: `entry * (1 + tp_pct/100)`.
pub open spec fn spec_take_profit(entry: i64, tp_pct: i64) -> int {
    spec_raised(entry as int, tp_pct as int, PERCENT_PER_UNIT as int)
}

/// Stop-loss price for an entry: `entry * (1 - sl_pct/100)`.
pub open spec fn spec_stop_loss(entry: i64, sl_pct: i64) -> int {
    spec_lowered(entry as int, sl_pct as int, PERCENT_PER_UNIT as int)
}

/// A long position as it is first recorded: not closing, without a
/// protective order, with a fresh recreation budget and inert trailing stop.
pub open spec fn is_fresh_position(
    p: PositionInfo,
    symbol: Seq<char>,
    entry_price: i64,
    qty: i64,
    stop_loss: int,
    take_profit: int,
    entry_time: Seq<char>,
) -> bool {
    &&& p.symbol@ == symbol
    &&& p.entry_price == entry_price
    &&& p.qty == qty
    &&& p.stop_loss == stop_loss
    &&& p.take_profit == take_profit
    &&& p.entry_time@ == entry_time
    &&& p.side@ == "buy"@
    &&& !p.is_closing
    &&& p.open_order_id is None
    &&& p.last_recreate_attempt is None
    &&& p.recreate_attempts == 0
    &&& p.highest_price == entry_price
    &&& !p.trailing_stop_active
    &&& p.trailing_stop_price == 0
}

/// A protective limit sell: the whole quantity at the take-profit price,
/// good till canceled.
pub open spec fn is_protective_sell(
    order: PlaceOrderRequest,
    symbol: Seq<char>,
    qty: i64,
    take_profit: i64,
) -> bool {
    &&& order.symbol@ == symbol
    &&& order.side == Side::Sell
    &&& order.order_type == OrderType::Limit
    &&& order.qty == Some(qty)
    &&& order.notional is None
    &&& order.limit_price == Some(take_profit)
    &&& order.time_in_force == TimeInForce::Gtc
}

/// A pending sell as it is recorded for a protective order: it carries no
/// stop-loss and no take-profit of its own.
pub open spec fn is_protective_pending(
    order: PendingOrder,
    order_id: Seq<char>,
    symbol: Seq<char>,
    qty: i64,
    limit_price: i64,
    now: i64,
) -> bool {
    &&& order.order_id@ == order_id
    &&& order.symbol@ == symbol
    &&& order.side@ == "sell"@
    &&& order.limit_price == limit_price
    &&& order.qty == qty
    &&& order.created_at@ == rfc3339_text(now)
    &&& order.stop_loss is None
    &&& order.take_profit is None
    &&& order.last_check_time == Some(now)
}

/// What became of a pending buy after the venue was asked.
#[derive(Debug)]
pub enum BuyOutcome {
    /// Not filled yet; nothing changed.
    StillOpen,
    /// Canceled or expired; the order was dropped.
    Dropped,
    /// Filled: a position was recorded and this protective sell is to be
    /// submitted. `qty_mismatch` tells that the venue filled another
    /// quantity than was asked for.
    Filled { take_profit_order: PlaceOrderRequest, qty_mismatch: bool },
}

/// What became of a pending sell after the venue was asked.
#[derive(Clone, Copy, Debug, PartialEq, Eq, Structural)]
pub enum SellOutcome {
    /// Not filled yet; nothing changed.
    StillOpen,
    /// Filled: the position is closed.
    Closed,
    /// Canceled or expired: the position is left without protective order.
    Orphaned,
}

/// What an orphaned position calls for.
#[derive(Clone, Copy, Debug, PartialEq, Eq, Structural)]
pub enum OrphanStep {
    /// The recreation budget is used up: give the position up.
    Abandon,
    /// The last attempt is less than the cooldown ago.
    Wait,
    /// A sell is already pending for the symbol: adopt it.
    Link,
    /// Place a new protective order.
    Recreate,
}

/// The decision on an orphaned position.
pub open spec fn spec_orphan_step(
    position: PositionInfo,
    sell_pending: bool,
    now: i64,
) -> OrphanStep {
    if position.recreate_attempts >= MAX_RECREATE_ATTEMPTS {
        OrphanStep::Abandon
    } else if position.last_recreate_attempt matches Some(t) && now - t < RECREATE_COOLDOWN_MS {
        OrphanStep::Wait
    } else if sell_pending {
        OrphanStep::Link
    } else {
        OrphanStep::Recreate
    }
}

/// Why a position is exited.
#[derive(Clone, Copy, Debug, PartialEq, Eq, Structural)]
pub enum ExitReason {
    TakeProfit,
    StopLoss,
}

/// Whether the price calls for an exit of a protected position: take-profit
/// is looked at first, then stop-loss.
pub open spec fn spec_exit_reason(position: PositionInfo, price: i64) -> Option<ExitReason> {
    if price >= position.take_profit {
        Some(ExitReason::TakeProfit)
    } else if price <= position.stop_loss {
        Some(ExitReason::StopLoss)
    } else {
        None
    }
}

/// The word an exit reason is reported with.
pub open spec fn spec_reason_text(reason: ExitReason) -> Seq<char> {
    match reason {
        ExitReason::TakeProfit => "take_profit"@,
        ExitReason::StopLoss => "stop_loss"@,
    }
}

/// Profit or loss of `price` against `entry`, in percent; zero where the
/// entry price is not positive.
pub open spec fn spec_pl_pct(entry: i64, price: i64) -> int {
    if entry > 0 {
        saturated((((price - entry) * 100) * SCALE) / (entry as int))
    } else {
        0
    }
}

/// The thesis of an exit signal.
pub open spec fn spec_exit_thesis(
    symbol: Seq<char>,
    reason: Seq<char>,
    entry: i64,
    price: i64,
) -> Seq<
    char,
> {
    "Exit signal for "@ + symbol + " due to "@ + reason + ". Entry: $"@ + spec_format_fixed(
        entry as int,
    ) + ", Current: $"@ + spec_format_fixed(price as int) + ", P/L: "@ + spec_format_fixed(
        spec_pl_pct(entry, price),
    ) + "%"@
}

/// A sell signal for a position, with full confidence: it is raised by rule.
pub open spec fn is_exit_signal(
    signal: AnalysisSignal,
    symbol: Seq<char>,
    reason: Seq<char>,
    entry: i64,
    price: i64,
) -> bool {
    &&& signal.symbol@ == symbol
    &&& signal.signal@ == "sell"@
    &&& signal.confidence == SCALE
    &&& signal.thesis@ == spec_exit_thesis(symbol, reason, entry, price)
    &&& signal.market_context@ == "Reason: "@ + reason
}

/// Profit or loss of `price` against `entry`, in percent.
pub fn pl_pct(entry: i64, price: i64) -> (r: i64)
    ensures
        r == spec_pl_pct(entry, price),
{
    if entry > 0 {
        let diff: i128 = price as i128 - entry as i128;
        let scaled: i128 = diff * 100 * 100_000_000;
        saturate(crate::fixed::div_floor(scaled, entry as i128))
    } else {
        0
    }
}

/// Builds the sell signal that asks execution to exit a position.
pub fn generate_exit_signal(
    symbol: &str,
    entry_price: i64,
    reason: &str,
    current_price: i64,
) -> (signal: AnalysisSignal)
    ensures
        is_exit_signal(signal, symbol@, reason@, entry_price, current_price),
{
    let mut thesis: String = "Exit signal for ".to_owned();
    append_str(&mut thesis, symbol);
    append_str(&mut thesis, " due to ");
    append_str(&mut thesis, reason);
    append_str(&mut thesis, ". Entry: $");
    let entry_text: String = format_fixed(entry_price);
    append_str(&mut thesis, entry_text.as_str());
    append_str(&mut thesis, ", Current: $");
    let price_text: String = format_fixed(current_price);
    append_str(&mut thesis, price_text.as_str());
    append_str(&mut thesis, ", P/L: ");
    let pl_text: String = format_fixed(pl_pct(entry_price, current_price));
    append_str(&mut thesis, pl_text.as_str());
    append_str(&mut thesis, "%");
    let mut context: String = "Reason: ".to_owned();
    append_str(&mut context, reason);
    AnalysisSignal {
        symbol: symbol.to_owned(),
        signal: "sell".to_owned(),
        confidence: SCALE,
        thesis,
        market_context: context,
    }
}

/// What a position calls for on a price update.
#[derive(Debug)]
pub enum PositionAction {
    /// Nothing to do.
    Idle,
    /// The orphaned position was given up and removed.
    Abandoned,
    /// The orphaned position adopted the pending sell with this order id.
    Linked { order_id: String },
    /// The orphaned position needs a new protective order; the attempt is
    /// counted.
    Recreate,
    /// The position is to be exited: publish this signal.
    Exit { signal: AnalysisSignal, reason: ExitReason },
}

/// The first holding of `symbol` in the venue's list.
pub open spec fn venue_holding(venue: Seq<Position>, symbol: Seq<char>) -> Option<Position>
    decreases venue.len(),
{
    if venue.len() == 0 {
        None
    } else if venue[0].symbol@ == symbol {
        Some(venue[0])
    } else {
        venue_holding(venue.drop_first(), symbol)
    }
}

/// Finds the first holding of `symbol` in the venue's list.
pub fn find_holding(venue: &Vec<Position>, symbol: &str) -> (r: Option<usize>)
    ensures
        match r {
            Some(i) => i < venue.len() && venue_holding(venue@, symbol@) == Some(venue@[i as int]),
            None => venue_holding(venue@, symbol@) is None,
        },
{
    let mut i: usize = 0;
    proof {
        assert(venue@.skip(0) =~= venue@);
    }
    while i < venue.len()
        invariant
            i <= venue.len(),
            venue_holding(venue@, symbol@) == venue_holding(venue@.skip(i as int), symbol@),
        decreases venue.len() - i,
    {
        proof {
            let rest = venue@.skip(i as int);
            assert(rest[0] == venue@[i as int]);
            assert(rest.drop_first() =~= venue@.skip(i + 1));
        }
        if str_eq(venue[i].symbol.as_str(), symbol) {
            return Some(i);
        }
        i = i + 1;
    }
    proof {
        assert(venue@.skip(venue.len() as int).len() == 0);
    }
    None
}

/// What to do to give an orphaned position its protective order back.
#[derive(Debug)]
pub enum RecreatePlan {
    /// The tracker holds no such position.
    Untracked,
    /// The venue holds nothing of the symbol: the position closed out of
    /// band and was removed.
    ClosedElsewhere,
    /// Submit this protective sell. `qty_adjusted` tells that the tracked
    /// quantity was corrected to the venue's.
    Submit { order: PlaceOrderRequest, qty_adjusted: bool },
}

/// What follows the venue's answer to a protective order.
#[derive(Clone, Copy, Debug, PartialEq, Eq, Structural)]
pub enum RecreateNext {
    /// The order stands and is linked to the position.
    Linked,
    /// The venue reported insufficient balance: read the holdings again and
    /// submit once more with the quantity read.
    RetryWithFreshHoldings,
    /// The attempt is abandoned; a later price update tries again.
    GaveUp,
}

/// What follows the venue's answer to a protective order: success links it;
/// insufficient balance is retried once; anything else ends the attempt.
pub open spec fn spec_recreate_next(
    error: Option<Seq<char>>,
    already_retried: bool,
) -> RecreateNext {
    match error {
        None => RecreateNext::Linked,
        Some(e) => if spec_is_insufficient_balance_error(e) && !already_retried {
            RecreateNext::RetryWithFreshHoldings
        } else {
            RecreateNext::GaveUp
        },
    }
}

/// A venue holding that initial synchronization adopts: it names a symbol
/// and has a positive average entry price.
pub open spec fn adoptable(holding: Position) -> bool {
    &&& holding.symbol@.len() > 0
    &&& holding.avg_entry_price matches Some(p) && p > 0
}

/// The first adoptable holding of `symbol` in the venue's list.
pub open spec fn first_adoptable(venue: Seq<Position>, symbol: Seq<char>) -> Option<Position>
    decreases venue.len(),
{
    if venue.len() == 0 {
        None
    } else {
        match first_adoptable(venue.drop_last(), symbol) {
            Some(h) => Some(h),
            None => if venue.last().symbol@ == symbol && adoptable(venue.last()) {
                Some(venue.last())
            } else {
                None
            },
        }
    }
}

/// The position recorded for an adopted holding: entry at the holding's
/// average price, exits at the percentages in force for the symbol.
pub open spec fn is_adopted_position(
    p: PositionInfo,
    holding: Position,
    config: AppConfig,
    now: i64,
) -> bool {
    let params = symbol_params(config.defaults, config.symbol_overrides, holding.symbol@);
    let entry = holding.avg_entry_price->0;
    is_fresh_position(
        p,
        holding.symbol@,
        entry,
        holding.qty,
        spec_stop_loss(entry, params.1),
        spec_take_profit(entry, params.0),
        rfc3339_text(now),
    )
}

/// The list holds the symbol `k`.
pub open spec fn names(list: Seq<String>, k: Seq<char>) -> bool {
    exists|i: int| 0 <= i < list.len() && (#[trigger] list[i])@ == k
}

/// The symbol `k` is tracked exactly where the venue's list holds an
/// adoptable holding of it, and then as the position of the first such
/// holding.
pub open spec fn adopted_as_due(
    positions: Map<Seq<char>, PositionInfo>,
    venue: Seq<Position>,
    k: Seq<char>,
    config: AppConfig,
    now: i64,
) -> bool {
    match first_adoptable(venue, k) {
        Some(held) => positions.contains_key(k) && is_adopted_position(
            positions[k],
            held,
            config,
            now,
        ),
        None => !positions.contains_key(k),
    }
}

/// Every symbol that was not tracked before is now tracked as due.
pub open spec fn adoption_done(
    before: Map<Seq<char>, PositionInfo>,
    after: Map<Seq<char>, PositionInfo>,
    venue: Seq<Position>,
    config: AppConfig,
    now: i64,
) -> bool {
    forall|k: Seq<char>|
        !before.contains_key(k) ==> #[trigger] adopted_as_due(after, venue, k, config, now)
}

/// Drives pending orders and positions to their terminal state. It decides;
/// whoever runs it talks to the venue and the bus.
pub struct PositionMonitor {
    pub check_interval_secs: u64,
    pub config: AppConfig,
}

impl PositionMonitor {
    /// A monitor with the given configuration, polling every ten seconds
    /// where it polls.
    pub fn new(config: AppConfig) -> (m: Self)
        ensures
            m.check_interval_secs == 10,
            m.config == config,
    {
        PositionMonitor { check_interval_secs: 10, config }
    }

    /// Whether exits are driven by quotes rather than by polling.
    pub fn quote_driven(&self) -> (r: bool)
        ensures
            r == self.config.exit_on_quotes,
    {
        self.config.exit_on_quotes
    }

    /// Decides what to do about one pending order on a price update.
    pub fn review_pending_order(
        &self,
        order: &PendingOrder,
        symbol: &str,
        price: i64,
        now: i64,
    ) -> (action: PendingAction)
        ensures
            action == spec_review_pending(
                *order,
                symbol@,
                price,
                now,
                rfc3339_millis(order.created_at@),
                self.config.defaults.limit_order_expiration_days,
            ),
    {
        let created: Option<i64> = timestamp_millis(order.created_at.as_str());
        review_pending_order_with(
            order,
            symbol,
            price,
            now,
            created,
            self.config.defaults.limit_order_expiration_days,
        )
    }

    /// Polling mode has no market data to judge a position by: it never
    /// calls for an exit.
    pub fn check_position(_position: &PositionInfo) -> (should_exit: bool)
        ensures
            !should_exit,
    {
        false
    }

    /// Handles the venue's answer about a pending buy.
    ///
    /// A filled order leaves the pending table and becomes a position with
    /// the quantity the venue filled; its exits are computed from the fill
    /// price (the order's limit), at the percentages in force for the
    /// symbol. A canceled or expired order is dropped. Anything else
    /// changes nothing.
    pub fn check_pending_buy_order(
        &self,
        tracker: &mut PositionTracker,
        order: &PendingOrder,
        ack: &OrderAck,
        now: i64,
    ) -> (outcome: BuyOutcome)
        ensures
            match spec_order_status(ack.status@) {
                OrderStatus::Open => outcome is StillOpen
                    && final(tracker).pending() == old(tracker).pending()
                    && final(tracker).positions() == old(tracker).positions(),
                OrderStatus::Ended => outcome is Dropped
                    && final(tracker).pending() == old(tracker).pending().remove(order.order_id@)
                    && final(tracker).positions() == old(tracker).positions(),
                OrderStatus::Filled => {
                    let params = symbol_params(
                        self.config.defaults,
                        self.config.symbol_overrides,
                        order.symbol@,
                    );
                    let qty = spec_filled_qty(order.qty, ack.filled_qty);
                    let opened = final(tracker).positions()[order.symbol@];
                    &&& final(tracker).pending() == old(tracker).pending().remove(order.order_id@)
                    &&& final(tracker).positions() == old(tracker).positions().insert(
                        order.symbol@,
                        opened,
                    )
                    &&& is_fresh_position(
                        opened,
                        order.symbol@,
                        order.limit_price,
                        qty,
                        spec_stop_loss(order.limit_price, params.1),
                        spec_take_profit(order.limit_price, params.0),
                        rfc3339_text(now),
                    )
                    &&& outcome matches BuyOutcome::Filled { take_profit_order, qty_mismatch }
                    &&& is_protective_sell(
                        take_profit_order,
                        order.symbol@,
                        qty,
                        opened.take_profit,
                    )
                    &&& qty_mismatch == spec_qty_differs(qty, order.qty)
                },
            },
    {
        match order_status(ack.status.as_str()) {
            OrderStatus::Open => BuyOutcome::StillOpen,
            OrderStatus::Ended => {
                let _gone: Option<PendingOrder> = tracker.remove_pending_order(
                    order.order_id.as_str(),
                );
                BuyOutcome::Dropped
            },
            OrderStatus::Filled => {
                let _gone: Option<PendingOrder> = tracker.remove_pending_order(
                    order.order_id.as_str(),
                );
                let params: (i64, i64) = self.config.get_symbol_params(order.symbol.as_str());
                let entry: i64 = order.limit_price;
                let qty: i64 = match ack.filled_qty {
                    Some(q) => if q > 0 {
                        q
                    } else {
                        order.qty
                    },
                    None => order.qty,
                };
                let take_profit: i64 = add_pct(entry, params.0);
                let stop_loss: i64 = sub_pct(entry, params.1);
                let position = PositionInfo {
                    symbol: order.symbol.clone(),
                    entry_price: entry,
                    qty,
                    stop_loss,
                    take_profit,
                    entry_time: timestamp_text(now),
                    side: "buy".to_owned(),
                    is_closing: false,
                    open_order_id: None,
                    last_recreate_attempt: None,
                    recreate_attempts: 0,
                    highest_price: entry,
                    trailing_stop_active: false,
                    trailing_stop_price: 0,
                };
                tracker.add_position(position);
                let request = PlaceOrderRequest {
                    symbol: order.symbol.clone(),
                    side: Side::Sell,
                    order_type: OrderType::Limit,
                    qty: Some(qty),
                    notional: None,
                    limit_price: Some(take_profit),
                    time_in_force: TimeInForce::Gtc,
                };
                BuyOutcome::Filled {
                    take_profit_order: request,
                    qty_mismatch: qty_differs(qty, order.qty),
                }
            },
        }
    }

    /// Records a protective sell that the venue accepted: it becomes a
    /// pending sell at the position's take-profit for the position's
    /// quantity, and the position points to it. Where the position is gone
    /// nothing is recorded.
    pub fn on_take_profit_placed(
        tracker: &mut PositionTracker,
        symbol: &str,
        order_id: String,
        now: i64,
    ) -> (linked: bool)
        ensures
            linked == old(tracker).positions().contains_key(symbol@),
            !linked
                ==> final(tracker).positions() == old(tracker).positions()
                    && final(tracker).pending() == old(tracker).pending(),
            linked ==> {
                let before = old(tracker).positions()[symbol@];
                let after = final(tracker).positions()[symbol@];
                let recorded = final(tracker).pending()[order_id@];
                &&& final(tracker).positions() == old(tracker).positions().insert(symbol@, after)
                &&& after.open_order_id matches Some(id) && id@ == order_id@
                &&& after == with_open_order(before, after.open_order_id)
                &&& final(tracker).pending() == old(tracker).pending().insert(order_id@, recorded)
                &&& is_protective_pending(
                    recorded,
                    order_id@,
                    symbol@,
                    before.qty,
                    before.take_profit,
                    now,
                )
            },
    {
        match tracker.get_position(symbol) {
            None => false,
            Some(position) => {
                let pending = PendingOrder {
                    order_id: order_id.clone(),
                    symbol: position.symbol.clone(),
                    side: "sell".to_owned(),
                    limit_price: position.take_profit,
                    qty: position.qty,
                    created_at: timestamp_text(now),
                    stop_loss: None,
                    take_profit: None,
                    last_check_time: None,
                };
                tracker.add_pending_order_at(pending, now);
                tracker.set_open_order(symbol, Some(order_id));
                true
            },
        }
    }

    /// Handles the venue's answer about a pending sell.
    ///
    /// A filled order closes the position. A canceled or expired order is
    /// dropped and the position, where there is one, is left without
    /// protective order, that is orphaned. Anything else changes nothing.
    pub fn check_pending_sell_order(
        tracker: &mut PositionTracker,
        order: &PendingOrder,
        ack: &OrderAck,
    ) -> (outcome: SellOutcome)
        ensures
            match spec_order_status(ack.status@) {
                OrderStatus::Open => outcome == SellOutcome::StillOpen && final(tracker).pending()
                    == old(tracker).pending()
                        && final(tracker).positions() == old(tracker).positions(),
                OrderStatus::Filled => outcome == SellOutcome::Closed && final(tracker).pending()
                    == old(tracker).pending().remove(order.order_id@)
                        && final(tracker).positions() == old(tracker).positions().remove(order.symbol@),
                OrderStatus::Ended => outcome == SellOutcome::Orphaned && final(tracker).pending()
                    == old(tracker).pending().remove(order.order_id@)
                        && final(tracker).positions() == spec_orphaned(old(tracker).positions(), order.symbol@),
            },
    {
        match order_status(ack.status.as_str()) {
            OrderStatus::Open => SellOutcome::StillOpen,
            OrderStatus::Filled => {
                let _gone: Option<PendingOrder> = tracker.remove_pending_order(
                    order.order_id.as_str(),
                );
                let _closed: Option<PositionInfo> = tracker.remove_position(order.symbol.as_str());
                SellOutcome::Closed
            },
            OrderStatus::Ended => {
                let _gone: Option<PendingOrder> = tracker.remove_pending_order(
                    order.order_id.as_str(),
                );
                tracker.set_open_order(order.symbol.as_str(), None);
                SellOutcome::Orphaned
            },
        }
    }

    /// Stops out a pending sell whose carried stop-loss the price has
    /// reached: the order is dropped (it is to be canceled at the venue) and
    /// the signal that asks execution to sell at market is handed back.
    pub fn stop_out_pending_sell(
        tracker: &mut PositionTracker,
        order: &PendingOrder,
        price: i64,
    ) -> (signal: AnalysisSignal)
        ensures
            final(tracker).pending() == old(tracker).pending().remove(order.order_id@),
            final(tracker).positions() == old(tracker).positions(),
            is_exit_signal(
                signal,
                order.symbol@,
                "stop_loss_limit_cancel"@,
                order.limit_price,
                price,
            ),
    {
        let _gone: Option<PendingOrder> = tracker.remove_pending_order(order.order_id.as_str());
        generate_exit_signal(
            order.symbol.as_str(),
            order.limit_price,
            "stop_loss_limit_cancel",
            price,
        )
    }
}

/// The positions after the protective order of `symbol` went away: that
/// position, where there is one, has no protective order any more.
pub open spec fn spec_orphaned(positions: Map<Seq<char>, PositionInfo>, symbol: Seq<char>) -> Map<
    Seq<char>,
    PositionInfo,
> {
    if positions.contains_key(symbol) {
        positions.insert(symbol, with_open_order(positions[symbol], None))
    } else {
        positions
    }
}


/// What the monitor does about a position on a price update, as a decision
/// on the position alone.
#[derive(Clone, Copy, Debug, PartialEq, Eq, Structural)]
pub enum Review {
    /// The position is already closing: nothing is done.
    Closing,
    /// The position has no protective order and goes through the orphan
    /// flow.
    Orphan(OrphanStep),
    /// The position has a protective order; the price is held against its
    /// take-profit and stop-loss.
    Protected(Option<ExitReason>),
}

/// The decision on a position for a price update.
pub open spec fn spec_review(
    position: PositionInfo,
    sell_pending: bool,
    price: i64,
    now: i64,
) -> Review {
    if position.is_closing {
        Review::Closing
    } else if position.open_order_id is None {
        Review::Orphan(spec_orphan_step(position, sell_pending, now))
    } else {
        Review::Protected(spec_exit_reason(position, price))
    }
}

impl PositionMonitor {
    /// Polices the position of `symbol` on a price update.
    ///
    /// A closing position is left alone. An orphaned position is given up
    /// once its recreation budget is spent, waits out the cooldown, adopts a
    /// sell that is already pending, or else has an attempt counted and asks
    /// for a new protective order. A protected position is exited, and
    /// marked closing, where the price has reached its take-profit or its
    /// stop-loss.
    pub fn review_position(
        tracker: &mut PositionTracker,
        symbol: &str,
        price: i64,
        now: i64,
    ) -> (action: PositionAction)
        ensures
            final(tracker).pending() == old(tracker).pending(),
            !old(tracker).positions().contains_key(symbol@)
                ==> action is Idle && final(tracker).positions() == old(tracker).positions(),
            old(tracker).positions().contains_key(symbol@) ==> {
                let before = old(tracker).positions()[symbol@];
                let all = old(tracker).positions();
                match spec_review(
                    before,
                    has_pending(old(tracker).pending(), symbol@, "sell"@),
                    price,
                    now,
                ) {
                    Review::Closing => action is Idle && final(tracker).positions() == all,
                    Review::Orphan(OrphanStep::Abandon) => action is Abandoned
                        && final(tracker).positions() == all.remove(symbol@),
                    Review::Orphan(OrphanStep::Wait) => action is Idle && final(tracker).positions()
                        == all,
                    Review::Orphan(OrphanStep::Link) => {
                        let after = final(tracker).positions()[symbol@];
                        &&& action matches PositionAction::Linked { order_id }
                        &&& old(tracker).pending().contains_key(order_id@)
                        &&& is_pending_of(old(tracker).pending()[order_id@], symbol@, "sell"@)
                        &&& after.open_order_id matches Some(id) && id@ == order_id@
                        &&& after == with_open_order(before, after.open_order_id)
                        &&& final(tracker).positions() == all.insert(symbol@, after)
                    },
                    Review::Orphan(OrphanStep::Recreate) => action is Recreate
                        && final(tracker).positions() == all.insert(symbol@, after_attempt(before, now)),
                    Review::Protected(None) => action is Idle && final(tracker).positions() == all,
                    Review::Protected(Some(why)) => {
                        &&& action matches PositionAction::Exit { signal, reason }
                        &&& reason == why
                        &&& is_exit_signal(
                            signal,
                            symbol@,
                            spec_reason_text(why),
                            before.entry_price,
                            price,
                        )
                        &&& final(tracker).positions() == all.insert(
                            symbol@,
                            with_closing(before, true),
                        )
                    },
                }
            },
    {
        let position: PositionInfo = match tracker.get_position(symbol) {
            None => {
                return PositionAction::Idle;
            },
            Some(p) => p,
        };
        if position.is_closing {
            return PositionAction::Idle;
        }
        if position.open_order_id.is_none() {
            if position.recreate_attempts >= MAX_RECREATE_ATTEMPTS {
                let _gone: Option<PositionInfo> = tracker.remove_position(symbol);
                return PositionAction::Abandoned;
            }
            if let Some(t) = position.last_recreate_attempt {
                if (now as i128) - (t as i128) < RECREATE_COOLDOWN_MS as i128 {
                    return PositionAction::Idle;
                }
            }
            match tracker.find_pending(symbol, "sell") {
                Some(order_id) => {
                    tracker.set_open_order(symbol, Some(order_id.clone()));
                    PositionAction::Linked { order_id }
                },
                None => {
                    tracker.record_recreate_attempt(symbol, now);
                    PositionAction::Recreate
                },
            }
        } else {
            if price >= position.take_profit {
                let signal: AnalysisSignal = generate_exit_signal(
                    symbol,
                    position.entry_price,
                    "take_profit",
                    price,
                );
                tracker.mark_closing(symbol);
                PositionAction::Exit { signal, reason: ExitReason::TakeProfit }
            } else if price <= position.stop_loss {
                let signal: AnalysisSignal = generate_exit_signal(
                    symbol,
                    position.entry_price,
                    "stop_loss",
                    price,
                );
                tracker.mark_closing(symbol);
                PositionAction::Exit { signal, reason: ExitReason::StopLoss }
            } else {
                PositionAction::Idle
            }
        }
    }

    /// Reconciles the tracked quantity of an orphaned position with the
    /// venue's holdings and builds its protective sell.
    ///
    /// Where the venue holds nothing of the symbol the position closed out
    /// of band and is removed. Where the venue's quantity differs from the
    /// tracked one by more than the tolerance, the tracked one is corrected.
    /// The order sells the reconciled quantity at the position's
    /// take-profit.
    pub fn reconcile_for_recreate(
        tracker: &mut PositionTracker,
        symbol: &str,
        venue: &Vec<Position>,
    ) -> (plan: RecreatePlan)
        ensures
            final(tracker).pending() == old(tracker).pending(),
            !old(tracker).positions().contains_key(symbol@)
                ==> plan is Untracked && final(tracker).positions() == old(tracker).positions(),
            old(tracker).positions().contains_key(symbol@) ==> {
                let before = old(tracker).positions()[symbol@];
                match venue_holding(venue@, symbol@) {
                    None => plan is ClosedElsewhere
                        && final(tracker).positions() == old(tracker).positions().remove(symbol@),
                    Some(held) => {
                        let differs = spec_qty_differs(held.qty, before.qty);
                        let qty = if differs {
                            held.qty
                        } else {
                            before.qty
                        };
                        &&& plan matches RecreatePlan::Submit { order, qty_adjusted }
                        &&& qty_adjusted == differs
                        &&& is_protective_sell(order, symbol@, qty, before.take_profit)
                        &&& final(tracker).positions() == if differs {
                            old(tracker).positions().insert(symbol@, with_qty(before, held.qty))
                        } else {
                            old(tracker).positions()
                        }
                    },
                }
            },
    {
        let position: PositionInfo = match tracker.get_position(symbol) {
            None => {
                return RecreatePlan::Untracked;
            },
            Some(p) => p,
        };
        match find_holding(venue, symbol) {
            None => {
                let _gone: Option<PositionInfo> = tracker.remove_position(symbol);
                RecreatePlan::ClosedElsewhere
            },
            Some(i) => {
                let held_qty: i64 = venue[i].qty;
                let differs: bool = qty_differs(held_qty, position.qty);
                let qty: i64 = if differs {
                    held_qty
                } else {
                    position.qty
                };
                if differs {
                    tracker.set_quantity(symbol, held_qty);
                }
                let order = PlaceOrderRequest {
                    symbol: symbol.to_owned(),
                    side: Side::Sell,
                    order_type: OrderType::Limit,
                    qty: Some(qty),
                    notional: None,
                    limit_price: Some(position.take_profit),
                    time_in_force: TimeInForce::Gtc,
                };
                RecreatePlan::Submit { order, qty_adjusted: differs }
            },
        }
    }

    /// Handles the venue's answer to a protective order: `Ok` carries the
    /// order id, `Err` the venue's error text.
    ///
    /// An accepted order is recorded and linked. Insufficient balance is
    /// answered, once, by reading the holdings again and submitting anew;
    /// any other error, or a second insufficient balance, ends the attempt.
    /// An accepted order whose position is gone meanwhile is not recorded.
    pub fn on_recreate_result(
        tracker: &mut PositionTracker,
        symbol: &str,
        result: Result<String, String>,
        already_retried: bool,
        now: i64,
    ) -> (next: RecreateNext)
        ensures
            match result {
                Err(e) => next == spec_recreate_next(Some(e@), already_retried)
                    && final(tracker).positions() == old(tracker).positions()
                    && final(tracker).pending() == old(tracker).pending(),
                Ok(order_id) => if old(tracker).positions().contains_key(symbol@) {
                    let before = old(tracker).positions()[symbol@];
                    let after = final(tracker).positions()[symbol@];
                    let recorded = final(tracker).pending()[order_id@];
                    &&& next == RecreateNext::Linked
                    &&& final(tracker).positions() == old(tracker).positions().insert(
                        symbol@,
                        after,
                    )
                    &&& after.open_order_id matches Some(id) && id@ == order_id@
                    &&& after == with_open_order(before, after.open_order_id)
                    &&& final(tracker).pending() == old(tracker).pending().insert(
                        order_id@,
                        recorded,
                    )
                    &&& is_protective_pending(
                        recorded,
                        order_id@,
                        symbol@,
                        before.qty,
                        before.take_profit,
                        now,
                    )
                } else {
                    next == RecreateNext::GaveUp
                        && final(tracker).positions() == old(tracker).positions()
                        && final(tracker).pending() == old(tracker).pending()
                },
            },
    {
        match result {
            Ok(order_id) => {
                if PositionMonitor::on_take_profit_placed(tracker, symbol, order_id, now) {
                    RecreateNext::Linked
                } else {
                    RecreateNext::GaveUp
                }
            },
            Err(e) => {
                if is_insufficient_balance_error(e.as_str()) && !already_retried {
                    RecreateNext::RetryWithFreshHoldings
                } else {
                    RecreateNext::GaveUp
                }
            },
        }
    }

    /// Adopts the venue's holdings on start: every holding that names a
    /// symbol, has a positive average entry price and is not tracked yet
    /// becomes a position with the exits in force for its symbol. Tracked
    /// positions and pending orders stay as they are. The symbols adopted
    /// are handed back; each is orphaned until its protective order is
    /// placed.
    pub fn sync_positions(
        &self,
        tracker: &mut PositionTracker,
        venue: &Vec<Position>,
        now: i64,
    ) -> (adopted: Vec<String>)
        ensures
            final(tracker).pending() == old(tracker).pending(),
            forall|k: Seq<char>| #[trigger]
                old(tracker).positions().contains_key(k)
                    ==> final(tracker).positions().contains_key(
                    k,
                ) && final(tracker).positions()[k] == old(tracker).positions()[k],
            adoption_done(
                old(tracker).positions(),
                final(tracker).positions(),
                venue@,
                self.config,
                now,
            ),
            forall|i: int|
                0 <= i < adopted.len() ==> !old(tracker).positions().contains_key(
                    (#[trigger] adopted[i])@,
                ) && final(tracker).positions().contains_key(adopted[i]@),
            forall|k: Seq<char>| #[trigger]
                final(tracker).positions().contains_key(k)
                    && !old(tracker).positions().contains_key(
                    k,
                ) ==> names(adopted@, k),
    {
        let mut adopted: Vec<String> = Vec::new();
        let mut i: usize = 0;
        assert(venue@.take(0).len() == 0);
        while i < venue.len()
            invariant
                i <= venue.len(),
                tracker.pending() == old(tracker).pending(),
                forall|k: Seq<char>| #[trigger]
                    old(tracker).positions().contains_key(k) ==> tracker.positions().contains_key(k)
                        && tracker.positions()[k] == old(tracker).positions()[k],
                adoption_done(
                    old(tracker).positions(),
                    tracker.positions(),
                    venue@.take(i as int),
                    self.config,
                    now,
                ),
                forall|j: int|
                    0 <= j < adopted.len() ==> !old(tracker).positions().contains_key(
                        (#[trigger] adopted[j])@,
                    ) && tracker.positions().contains_key(adopted[j]@),
                forall|k: Seq<char>| #[trigger]
                    tracker.positions().contains_key(k) && !old(tracker).positions().contains_key(k)
                        ==> names(adopted@, k),
            decreases venue.len() - i,
        {
            let held: &Position = &venue[i];
            let ghost before = tracker.positions();
            let ghost seen = venue@.take(i as int);
            let ghost next = venue@.take(i + 1);
            proof {
                assert(next.drop_last() =~= seen);
                assert(next.last() == venue@[i as int]);
            }
            let entry: i64 = match held.avg_entry_price {
                Some(p) => p,
                None => 0,
            };
            let named: bool = held.symbol.as_str().unicode_len() > 0;
            if named && entry > 0 && !tracker.has_position(held.symbol.as_str()) {
                let params: (i64, i64) = self.config.get_symbol_params(held.symbol.as_str());
                let position = PositionInfo {
                    symbol: held.symbol.clone(),
                    entry_price: entry,
                    qty: held.qty,
                    stop_loss: sub_pct(entry, params.1),
                    take_profit: add_pct(entry, params.0),
                    entry_time: timestamp_text(now),
                    side: "buy".to_owned(),
                    is_closing: false,
                    open_order_id: None,
                    last_recreate_attempt: None,
                    recreate_attempts: 0,
                    highest_price: entry,
                    trailing_stop_active: false,
                    trailing_stop_price: 0,
                };
                let ghost listed = adopted@;
                tracker.add_position(position);
                adopted.push(held.symbol.clone());
                proof {
                    assert(adopted@[listed.len() as int]@ == held.symbol@);
                    assert forall|k: Seq<char>| names(listed, k) implies names(adopted@, k) by {
                        let j = choose|j: int| 0 <= j < listed.len()
                            && (#[trigger] listed[j])@ == k;
                        assert(adopted@[j] == listed[j]);
                    }
                    assert(!old(tracker).positions().contains_key(held.symbol@));
                    assert(adopted_as_due(before, seen, held.symbol@, self.config, now));
                    assert(first_adoptable(seen, held.symbol@) is None);
                }
            }
            proof {
                assert forall|k: Seq<char>|
                    !old(tracker).positions().contains_key(k) implies #[trigger] adopted_as_due(
                    tracker.positions(),
                    next,
                    k,
                    self.config,
                    now,
                ) by {
                    assert(adopted_as_due(before, seen, k, self.config, now));
                    if k == held.symbol@ {
                        if first_adoptable(seen, k) is Some {
                            assert(before.contains_key(k));
                        }
                    } else {
                        assert(first_adoptable(next, k) == first_adoptable(seen, k));
                        assert(before.contains_key(k) == tracker.positions().contains_key(k));
                    }
                }
            }
            i = i + 1;
        }
        assert(venue@.take(venue.len() as int) =~= venue@);
        adopted
    }
}

/// The recreation budget is three attempts: an orphaned position that starts
/// with a fresh budget asks for recreation at most three times, whatever the
/// times of the encounters; after the third counted attempt the next
/// encounter gives the position up.
pub proof fn lemma_recreation_budget(
    position: PositionInfo,
    t1: i64,
    t2: i64,
    t3: i64,
    t4: i64,
    sell_pending: bool,
)
    requires
        position.recreate_attempts == 0,
    ensures
        spec_orphan_step(
            after_attempt(after_attempt(after_attempt(position, t1), t2), t3),
            sell_pending,
            t4,
        ) == OrphanStep::Abandon,
        forall|p: PositionInfo, pending: bool, now: i64| #[trigger]
            spec_orphan_step(p, pending, now) == OrphanStep::Recreate ==> p.recreate_attempts
                < MAX_RECREATE_ATTEMPTS,
        forall|p: PositionInfo, pending: bool, now: i64|
            p.recreate_attempts >= MAX_RECREATE_ATTEMPTS ==> #[trigger] spec_orphan_step(
                p,
                pending,
                now,
            ) == OrphanStep::Abandon,
{
}

/// A position whose pending sell was canceled is orphaned at once: it has no
/// protective order, and unless it is already closing the next review takes
/// it through the orphan flow, never through the exit checks.
pub proof fn lemma_cancel_enters_orphan_flow(
    positions: Map<Seq<char>, PositionInfo>,
    symbol: Seq<char>,
    sell_pending: bool,
    price: i64,
    now: i64,
)
    requires
        positions.contains_key(symbol),
    ensures
        spec_orphaned(positions, symbol).contains_key(symbol),
        spec_orphaned(positions, symbol)[symbol].open_order_id is None,
        !positions[symbol].is_closing ==> spec_review(
            spec_orphaned(positions, symbol)[symbol],
            sell_pending,
            price,
            now,
        ) is Orphan,
{
}

/// Handling the cancellation of a pending order twice leaves the tracker as
/// handling it once does.
pub proof fn lemma_cancel_idempotent(
    pending: Map<Seq<char>, PendingOrder>,
    positions: Map<Seq<char>, PositionInfo>,
    order_id: Seq<char>,
    symbol: Seq<char>,
)
    ensures
        pending.remove(order_id).remove(order_id) == pending.remove(order_id),
        spec_orphaned(spec_orphaned(positions, symbol), symbol) == spec_orphaned(positions, symbol),
{
    assert(pending.remove(order_id).remove(order_id) =~= pending.remove(order_id));
    assert(spec_orphaned(spec_orphaned(positions, symbol), symbol) =~= spec_orphaned(
        positions,
        symbol,
    ));
}

/// Exits are computed from the entry price alone: for a positive entry and
/// non-negative percentages within the representable range, the take-profit
/// is `entry * (1 + tp_pct/100)` rounded down to a stored unit and the
/// stop-loss is `entry * (1 - sl_pct/100)` rounded up to one, each less than
/// one unit from the exact value.
pub proof fn lemma_exits_from_entry(entry: i64, tp_pct: i64, sl_pct: i64)
    requires
        entry > 0,
        tp_pct >= 0,
        sl_pct >= 0,
        entry + crate::fixed::spec_share(entry as int, tp_pct as int, 100) <= i64::MAX,
        entry - crate::fixed::spec_share(entry as int, sl_pct as int, 100) >= i64::MIN,
    ensures
        ({
            let tp = spec_take_profit(entry, tp_pct);
            let exact = entry * (100 * SCALE + tp_pct);
            tp * (100 * SCALE) <= exact < (tp + 1) * (100 * SCALE)
        }),
        ({
            let sl = spec_stop_loss(entry, sl_pct);
            let exact = entry * (100 * SCALE - sl_pct);
            (sl - 1) * (100 * SCALE) < exact <= sl * (100 * SCALE)
        }),
        spec_take_profit(entry, tp_pct) >= entry,
        spec_stop_loss(entry, sl_pct) <= entry,
{
    crate::fixed::lemma_raised_within_one_unit(entry as int, tp_pct as int, 100);
    crate::fixed::lemma_lowered_within_one_unit(entry as int, sl_pct as int, 100);
    crate::fixed::lemma_share_nonnegative(entry as int, tp_pct as int, 100);
    crate::fixed::lemma_share_nonnegative(entry as int, sl_pct as int, 100);
}

} // verus!
