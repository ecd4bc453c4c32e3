//! Bounded per-symbol histories of quotes, trades and bars, and recent news.
//!
//! Every history keeps at most `limit` entries: adding to a full history
//! drops its oldest entry, and a store with a limit of zero keeps nothing.
//! Reads hand out copies, never the stored values.

use std::collections::VecDeque;
use vstd::prelude::*;
use crate::collections::TextMap;

verus! {

/// A top-of-book quote.
#[derive(Debug)]
pub struct Quote {
    pub symbol: String,
    pub bid_price: i64,
    pub ask_price: i64,
    pub bid_size: i64,
    pub ask_size: i64,
    pub timestamp: String,
}

impl Clone for Quote {
    fn clone(&self) -> (r: Self)
        ensures
            r == *self,
    {
        Quote {
            symbol: self.symbol.clone(),
            bid_price: self.bid_price,
            ask_price: self.ask_price,
            bid_size: self.bid_size,
            ask_size: self.ask_size,
            timestamp: self.timestamp.clone(),
        }
    }
}

/// An executed trade.
#[derive(Debug)]
pub struct Trade {
    pub symbol: String,
    pub price: i64,
    pub size: i64,
    pub timestamp: String,
    pub id: Option<u64>,
}

impl Clone for Trade {
    fn clone(&self) -> (r: Self)
        ensures
            r == *self,
    {
        Trade {
            symbol: self.symbol.clone(),
            price: self.price,
            size: self.size,
            timestamp: self.timestamp.clone(),
            id: self.id,
        }
    }
}

/// An OHLCV bar.
#[derive(Debug)]
pub struct Bar {
    pub symbol: String,
    pub open: i64,
    pub high: i64,
    pub low: i64,
    pub close: i64,
    pub volume: i64,
    pub timestamp: String,
}

impl Clone for Bar {
    fn clone(&self) -> (r: Self)
        ensures
            r == *self,
    {
        Bar {
            symbol: self.symbol.clone(),
            open: self.open,
            high: self.high,
            low: self.low,
            close: self.close,
            volume: self.volume,
            timestamp: self.timestamp.clone(),
        }
    }
}

/// A news item: its headline where it has one, and the item as received.
#[derive(Debug)]
pub struct NewsItem {
    pub headline: Option<String>,
    pub raw: String,
}

impl Clone for NewsItem {
    fn clone(&self) -> (r: Self)
        ensures
            r == *self,
    {
        NewsItem {
            headline: match &self.headline {
                Some(h) => Some(h.clone()),
                None => None,
            },
            raw: self.raw.clone(),
        }
    }
}

/// A history after one more entry: the newest `limit` entries of the
/// history with the entry added at its end.
pub open spec fn spec_pushed<T>(history: Seq<T>, limit: usize, item: T) -> Seq<T> {
    let all = history.push(item);
    if all.len() > limit {
        all.skip(all.len() - limit)
    } else {
        all
    }
}

/// A history never outgrows its limit, whatever the limit: after an update
/// it has at most `limit` entries. A history below its limit gains the
/// entry; a full one loses its oldest entry for it; under a limit of zero
/// nothing is kept. Where anything is kept, the new entry is the newest.
pub proof fn lemma_history_bounded<T>(history: Seq<T>, limit: usize, item: T)
    ensures
        spec_pushed(history, limit, item).len() <= limit,
        limit == 0 ==> spec_pushed(history, limit, item) == Seq::<T>::empty(),
        history.len() < limit ==> spec_pushed(history, limit, item) == history.push(item),
        limit >= 1 && history.len() == limit ==> spec_pushed(history, limit, item)
            == history.drop_first().push(item),
        limit >= 1 ==> spec_pushed(history, limit, item).len() >= 1 && spec_pushed(
            history,
            limit,
            item,
        ).last() == item,
{
    let all = history.push(item);
    if limit == 0 {
        assert(all.skip(all.len() as int) =~= Seq::<T>::empty());
    } else if history.len() == limit {
        assert(all.skip(1) =~= history.drop_first().push(item));
    }
}

/// Bounded histories of one kind of entry, by symbol.
pub struct History<T> {
    series: TextMap<VecDeque<T>>,
    limit: usize,
}

impl<T> History<T> {
    #[verifier::type_invariant]
    spec fn inv(self) -> bool {
        forall|k: Seq<char>| #[trigger]
            self.series@.contains_key(k) ==> self.series@[k]@.len() <= self.limit
    }

    /// The limit the histories are held to.
    pub closed spec fn limit(&self) -> usize {
        self.limit
    }

    /// The history of a symbol, oldest first; empty for an unknown symbol.
    pub closed spec fn of(&self, symbol: Seq<char>) -> Seq<T> {
        if self.series@.contains_key(symbol) {
            self.series@[symbol]@
        } else {
            Seq::<T>::empty()
        }
    }

    /// No history yet for any symbol.
    pub fn new(limit: usize) -> (h: Self)
        ensures
            h.limit() == limit,
            forall|s: Seq<char>| #[trigger] h.of(s) == Seq::<T>::empty(),
    {
        History { series: TextMap::new(), limit }
    }

    /// Adds an entry to a symbol's history; a full history loses its oldest
    /// entry for it, and under a limit of zero nothing is kept.
    pub fn push(&mut self, symbol: String, item: T)
        ensures
            final(self).limit() == old(self).limit(),
            final(self).of(symbol@) == spec_pushed(old(self).of(symbol@), old(self).limit(), item),
            forall|other: Seq<char>|
                other != symbol@ ==> #[trigger] final(self).of(other) == old(self).of(other),
            final(self).of(symbol@).len() <= old(self).limit(),
    {
        proof {
            use_type_invariant(&*self);
        }
        let limit: usize = self.limit;
        proof {
            lemma_history_bounded(self.of(symbol@), limit, item);
        }
        if limit == 0 {
            assert(self.of(symbol@) =~= Seq::<T>::empty());
            return;
        }
        let mut table: TextMap<VecDeque<T>> = TextMap::new();
        core::mem::swap(&mut self.series, &mut table);
        let ghost before = table@;
        let mut queue: VecDeque<T> = match table.remove(symbol.as_str()) {
            Some(q) => q,
            None => VecDeque::new(),
        };
        let ghost history = queue@;
        proof {
            lemma_history_bounded(history, limit, item);
        }
        if queue.len() >= limit {
            let _oldest: Option<T> = queue.pop_front();
        }
        queue.push_back(item);
        assert(queue@ =~= spec_pushed(history, limit, item));
        let ghost key = symbol@;
        let _previous: Option<VecDeque<T>> = table.insert(symbol, queue);
        assert forall|k: Seq<char>| #[trigger] table@.contains_key(k) implies table@[k]@.len()
            <= limit by {
            if k != key {
                assert(before.contains_key(k));
            }
        }
        self.series = table;
        assert forall|other: Seq<char>| other != key implies #[trigger] self.of(other) == old(
            self,
        ).of(other) by {}
    }

    /// Number of entries in a symbol's history.
    pub fn len_of(&self, symbol: &str) -> (n: usize)
        ensures
            n == self.of(symbol@).len(),
            n <= self.limit(),
    {
        proof {
            use_type_invariant(self);
        }
        match self.series.get(symbol) {
            Some(q) => q.len(),
            None => 0,
        }
    }

    /// The entry at `index` of a symbol's history, oldest first.
    pub fn get(&self, symbol: &str, index: usize) -> (r: Option<&T>)
        ensures
            match r {
                Some(item) => index < self.of(symbol@).len() && *item == self.of(symbol@)[
                    index as int
                ],
                None => index >= self.of(symbol@).len(),
            },
    {
        match self.series.get(symbol) {
            Some(q) => {
                if index < q.len() {
                    Some(&q[index])
                } else {
                    None
                }
            },
            None => None,
        }
    }

    /// The newest entry of a symbol's history.
    pub fn latest(&self, symbol: &str) -> (r: Option<&T>)
        ensures
            match r {
                Some(item) => self.of(symbol@).len() > 0 && *item == self.of(symbol@).last(),
                None => self.of(symbol@).len() == 0,
            },
    {
        let n: usize = self.len_of(symbol);
        if n == 0 {
            None
        } else {
            self.get(symbol, n - 1)
        }
    }
}

/// Recent market data by symbol, and recent news.
pub struct MarketStore {
    bars: History<Bar>,
    trades: History<Trade>,
    quotes: History<Quote>,
    news: Vec<NewsItem>,
    limit: usize,
}

impl MarketStore {
    #[verifier::type_invariant]
    spec fn inv(self) -> bool {
        &&& self.bars.limit() == self.limit
        &&& self.trades.limit() == self.limit
        &&& self.quotes.limit() == self.limit
        &&& self.news@.len() <= self.limit
    }

    /// The limit every history is held to.
    pub closed spec fn spec_limit(&self) -> usize {
        self.limit
    }

    /// The quote history of a symbol, oldest first.
    pub closed spec fn quote_history(&self, symbol: Seq<char>) -> Seq<Quote> {
        self.quotes.of(symbol)
    }

    /// The trade history of a symbol, oldest first.
    pub closed spec fn trade_history(&self, symbol: Seq<char>) -> Seq<Trade> {
        self.trades.of(symbol)
    }

    /// The bar history of a symbol, oldest first.
    pub closed spec fn bar_history(&self, symbol: Seq<char>) -> Seq<Bar> {
        self.bars.of(symbol)
    }

    /// The news items held, oldest first.
    pub closed spec fn news_items(&self) -> Seq<NewsItem> {
        self.news@
    }

    /// An empty store whose histories keep at most `limit` entries.
    pub fn new(limit: usize) -> (s: Self)
        ensures
            s.spec_limit() == limit,
            forall|k: Seq<char>| #[trigger] s.quote_history(k) == Seq::<Quote>::empty(),
            forall|k: Seq<char>| #[trigger] s.trade_history(k) == Seq::<Trade>::empty(),
            forall|k: Seq<char>| #[trigger] s.bar_history(k) == Seq::<Bar>::empty(),
            s.news_items() == Seq::<NewsItem>::empty(),
    {
        MarketStore {
            bars: History::new(limit),
            trades: History::new(limit),
            quotes: History::new(limit),
            news: Vec::new(),
            limit,
        }
    }

    /// The limit every history is held to.
    pub fn limit(&self) -> (l: usize)
        ensures
            l == self.spec_limit(),
    {
        self.limit
    }

    /// Adds a bar to a symbol's history.
    pub fn update_bar(&mut self, symbol: String, bar: Bar)
        ensures
            final(self).spec_limit() == old(self).spec_limit(),
            final(self).bar_history(symbol@) == spec_pushed(
                old(self).bar_history(symbol@),
                old(self).spec_limit(),
                bar,
            ),
            final(self).bar_history(symbol@).len() <= old(self).spec_limit(),
            forall|other: Seq<char>|
                other != symbol@ ==> #[trigger] final(self).bar_history(other) == old(
                    self,
                ).bar_history(other),
            forall|k: Seq<char>| #[trigger] final(self).quote_history(k) == old(self).quote_history(k),
            forall|k: Seq<char>| #[trigger] final(self).trade_history(k) == old(self).trade_history(k),
            final(self).news_items() == old(self).news_items(),
    {
        proof {
            use_type_invariant(&*self);
        }
        let mut series: History<Bar> = History::new(self.limit);
        core::mem::swap(&mut self.bars, &mut series);
        series.push(symbol, bar);
        self.bars = series;
    }

    /// Adds a trade to a symbol's history.
    pub fn update_trade(&mut self, symbol: String, trade: Trade)
        ensures
            final(self).spec_limit() == old(self).spec_limit(),
            final(self).trade_history(symbol@) == spec_pushed(
                old(self).trade_history(symbol@),
                old(self).spec_limit(),
                trade,
            ),
            final(self).trade_history(symbol@).len() <= old(self).spec_limit(),
            forall|other: Seq<char>|
                other != symbol@ ==> #[trigger] final(self).trade_history(other) == old(
                    self,
                ).trade_history(other),
            forall|k: Seq<char>| #[trigger] final(self).quote_history(k) == old(self).quote_history(k),
            forall|k: Seq<char>| #[trigger] final(self).bar_history(k) == old(self).bar_history(k),
            final(self).news_items() == old(self).news_items(),
    {
        proof {
            use_type_invariant(&*self);
        }
        let mut series: History<Trade> = History::new(self.limit);
        core::mem::swap(&mut self.trades, &mut series);
        series.push(symbol, trade);
        self.trades = series;
    }

    /// Adds a quote to a symbol's history.
    pub fn update_quote(&mut self, symbol: String, quote: Quote)
        ensures
            final(self).spec_limit() == old(self).spec_limit(),
            final(self).quote_history(symbol@) == spec_pushed(
                old(self).quote_history(symbol@),
                old(self).spec_limit(),
                quote,
            ),
            final(self).quote_history(symbol@).len() <= old(self).spec_limit(),
            forall|other: Seq<char>|
                other != symbol@ ==> #[trigger] final(self).quote_history(other) == old(
                    self,
                ).quote_history(other),
            forall|k: Seq<char>| #[trigger] final(self).trade_history(k) == old(self).trade_history(k),
            forall|k: Seq<char>| #[trigger] final(self).bar_history(k) == old(self).bar_history(k),
            final(self).news_items() == old(self).news_items(),
    {
        proof {
            use_type_invariant(&*self);
        }
        let mut series: History<Quote> = History::new(self.limit);
        core::mem::swap(&mut self.quotes, &mut series);
        series.push(symbol, quote);
        self.quotes = series;
    }

    /// Adds a news item; at the limit the oldest item is dropped first, and
    /// under a limit of zero nothing is kept.
    pub fn add_news(&mut self, news_item: NewsItem)
        ensures
            final(self).spec_limit() == old(self).spec_limit(),
            final(self).news_items() == spec_pushed(
                old(self).news_items(),
                old(self).spec_limit(),
                news_item,
            ),
            final(self).news_items().len() <= old(self).spec_limit(),
            forall|k: Seq<char>| #[trigger] final(self).quote_history(k) == old(self).quote_history(k),
            forall|k: Seq<char>| #[trigger] final(self).trade_history(k) == old(self).trade_history(k),
            forall|k: Seq<char>| #[trigger] final(self).bar_history(k) == old(self).bar_history(k),
    {
        proof {
            use_type_invariant(&*self);
        }
        let mut items: Vec<NewsItem> = Vec::new();
        core::mem::swap(&mut self.news, &mut items);
        let ghost before = items@;
        proof {
            lemma_history_bounded(before, self.limit, news_item);
        }
        if self.limit == 0 {
            assert(before =~= Seq::<NewsItem>::empty());
            self.news = items;
            return;
        }
        if items.len() >= self.limit {
            let _oldest: NewsItem = items.remove(0);
            assert(items@ =~= before.drop_first());
        }
        items.push(news_item);
        assert(items@ =~= spec_pushed(before, self.limit, news_item));
        self.news = items;
    }

    /// The newest bar of a symbol.
    pub fn get_latest_bar(&self, symbol: &str) -> (r: Option<Bar>)
        ensures
            r == if self.bar_history(symbol@).len() > 0 {
                Some(self.bar_history(symbol@).last())
            } else {
                None::<Bar>
            },
    {
        match self.bars.latest(symbol) {
            Some(b) => Some(b.clone()),
            None => None,
        }
    }

    /// A copy of a symbol's bar history, oldest first.
    pub fn get_bar_history(&self, symbol: &str) -> (list: Vec<Bar>)
        ensures
            list@ == self.bar_history(symbol@),
            list@.len() <= self.spec_limit(),
    {
        proof {
            use_type_invariant(self);
        }
        let n: usize = self.bars.len_of(symbol);
        let mut list: Vec<Bar> = Vec::new();
        let mut i: usize = 0;
        while i < n
            invariant
                i <= n,
                n == self.bars.of(symbol@).len(),
                list@ == self.bars.of(symbol@).take(i as int),
            decreases n - i,
        {
            match self.bars.get(symbol, i) {
                Some(b) => {
                    list.push(b.clone());
                },
                None => {},
            }
            i = i + 1;
            assert(list@ =~= self.bars.of(symbol@).take(i as int));
        }
        assert(self.bars.of(symbol@).take(n as int) =~= self.bars.of(symbol@));
        list
    }

    /// A copy of a symbol's bar history, oldest first.
    pub fn get_history(&self, symbol: &str) -> (list: Vec<Bar>)
        ensures
            list@ == self.bar_history(symbol@),
            list@.len() <= self.spec_limit(),
    {
        self.get_bar_history(symbol)
    }

    /// A copy of a symbol's trade history, oldest first.
    pub fn get_trade_history(&self, symbol: &str) -> (list: Vec<Trade>)
        ensures
            list@ == self.trade_history(symbol@),
            list@.len() <= self.spec_limit(),
    {
        proof {
            use_type_invariant(self);
        }
        let n: usize = self.trades.len_of(symbol);
        let mut list: Vec<Trade> = Vec::new();
        let mut i: usize = 0;
        while i < n
            invariant
                i <= n,
                n == self.trades.of(symbol@).len(),
                list@ == self.trades.of(symbol@).take(i as int),
            decreases n - i,
        {
            match self.trades.get(symbol, i) {
                Some(t) => {
                    list.push(t.clone());
                },
                None => {},
            }
            i = i + 1;
            assert(list@ =~= self.trades.of(symbol@).take(i as int));
        }
        assert(self.trades.of(symbol@).take(n as int) =~= self.trades.of(symbol@));
        list
    }

    /// A copy of a symbol's quote history, oldest first.
    pub fn get_quote_history(&self, symbol: &str) -> (list: Vec<Quote>)
        ensures
            list@ == self.quote_history(symbol@),
            list@.len() <= self.spec_limit(),
    {
        proof {
            use_type_invariant(self);
        }
        let n: usize = self.quotes.len_of(symbol);
        let mut list: Vec<Quote> = Vec::new();
        let mut i: usize = 0;
        while i < n
            invariant
                i <= n,
                n == self.quotes.of(symbol@).len(),
                list@ == self.quotes.of(symbol@).take(i as int),
            decreases n - i,
        {
            match self.quotes.get(symbol, i) {
                Some(q) => {
                    list.push(q.clone());
                },
                None => {},
            }
            i = i + 1;
            assert(list@ =~= self.quotes.of(symbol@).take(i as int));
        }
        assert(self.quotes.of(symbol@).take(n as int) =~= self.quotes.of(symbol@));
        list
    }

    /// Number of quotes held for a symbol.
    pub fn quote_count(&self, symbol: &str) -> (n: usize)
        ensures
            n == self.quote_history(symbol@).len(),
            n <= self.spec_limit(),
    {
        proof {
            use_type_invariant(self);
        }
        self.quotes.len_of(symbol)
    }

    /// The newest quote of a symbol.
    pub fn get_latest_quote(&self, symbol: &str) -> (r: Option<Quote>)
        ensures
            r == if self.quote_history(symbol@).len() > 0 {
                Some(self.quote_history(symbol@).last())
            } else {
                None::<Quote>
            },
    {
        match self.quotes.latest(symbol) {
            Some(q) => Some(q.clone()),
            None => None,
        }
    }

    /// A copy of the news items held, oldest first.
    pub fn get_latest_news(&self) -> (list: Vec<NewsItem>)
        ensures
            list@ == self.news_items(),
            list@.len() <= self.spec_limit(),
    {
        proof {
            use_type_invariant(self);
        }
        let n: usize = self.news.len();
        let mut list: Vec<NewsItem> = Vec::new();
        let mut i: usize = 0;
        while i < n
            invariant
                i <= n,
                n == self.news@.len(),
                list@ == self.news@.take(i as int),
            decreases n - i,
        {
            list.push(self.news[i].clone());
            i = i + 1;
            assert(list@ =~= self.news@.take(i as int));
        }
        assert(self.news@.take(n as int) =~= self.news@);
        list
    }
}

} // verus!
