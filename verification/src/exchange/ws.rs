//! Market data streams: which venue, which endpoint, and how a venue's
//! frames become canonical quotes and trades.

use vstd::prelude::*;
use crate::data::store::Bar;
use crate::data::store::MarketStore;
use crate::data::store::NewsItem;
use crate::data::store::Quote;
use crate::data::store::Trade;
use crate::data::store::spec_pushed;
use crate::decimal::parse_number;
use crate::decimal::parse_u64;
use crate::decimal::spec_parse_number;
use crate::decimal::spec_parse_u64;
use crate::events::Event;
use crate::events::MarketEvent;
use crate::exchange::symbols::from_coinbase_product_id;
use crate::exchange::symbols::from_kraken_pair;
use crate::json::items;
use crate::json::json_items;
use crate::json::json_member;
use crate::json::json_number;
use crate::json::json_string;
use crate::json::json_text;
use crate::json::list_view;
use crate::json::member;
use crate::json::number_field;
use crate::json::opt_view;
use crate::json::string_field;
use crate::json::text_value;
use crate::text::spec_eq_ignore_ascii_case;
use crate::text::spec_replace;
use crate::text::str_eq;
use crate::text::str_replace;

verus! {

/// The venue a stream connects to.
#[derive(Clone, Copy, Debug, PartialEq, Eq, Structural)]
pub enum WsProvider {
    AlpacaCrypto,
    AlpacaStocks,
    Binance,
    Coinbase,
    Kraken,
}

/// A market data stream and the credentials it authenticates with.
#[derive(Debug)]
pub struct GenericWsStream {
    pub provider: WsProvider,
    pub api_key: Option<String>,
    pub api_secret: Option<String>,
}

impl Clone for GenericWsStream {
    fn clone(&self) -> (r: Self)
        ensures
            r == *self,
    {
        GenericWsStream {
            provider: self.provider,
            api_key: match &self.api_key {
                Some(k) => Some(k.clone()),
                None => None,
            },
            api_secret: match &self.api_secret {
                Some(k) => Some(k.clone()),
                None => None,
            },
        }
    }
}

/// The endpoint of each venue's stream.
pub open spec fn spec_ws_url(provider: WsProvider) -> Seq<char> {
    match provider {
        WsProvider::AlpacaCrypto => "wss://stream.data.alpaca.markets/v1beta3/crypto/us"@,
        WsProvider::AlpacaStocks => "wss://stream.data.alpaca.markets/v2/iex"@,
        WsProvider::Binance => "wss://stream.binance.com:9443/ws"@,
        WsProvider::Coinbase => "wss://advanced-trade-ws.coinbase.com"@,
        WsProvider::Kraken => "wss://ws.kraken.com"@,
    }
}

impl GenericWsStream {
    /// An Alpaca stream, for crypto or for stocks, with its credentials.
    pub fn alpaca(api_key: String, api_secret: String, is_crypto: bool) -> (s: Self)
        ensures
            s.provider == if is_crypto {
                WsProvider::AlpacaCrypto
            } else {
                WsProvider::AlpacaStocks
            },
            s.api_key == Some(api_key),
            s.api_secret == Some(api_secret),
    {
        GenericWsStream {
            provider: if is_crypto {
                WsProvider::AlpacaCrypto
            } else {
                WsProvider::AlpacaStocks
            },
            api_key: Some(api_key),
            api_secret: Some(api_secret),
        }
    }

    /// A Binance stream; public data needs no credentials.
    pub fn binance() -> (s: Self)
        ensures
            s.provider == WsProvider::Binance,
            s.api_key is None,
            s.api_secret is None,
    {
        GenericWsStream { provider: WsProvider::Binance, api_key: None, api_secret: None }
    }

    /// A Coinbase stream; public data needs no credentials.
    pub fn coinbase() -> (s: Self)
        ensures
            s.provider == WsProvider::Coinbase,
            s.api_key is None,
            s.api_secret is None,
    {
        GenericWsStream { provider: WsProvider::Coinbase, api_key: None, api_secret: None }
    }

    /// A Kraken stream; public data needs no credentials.
    pub fn kraken() -> (s: Self)
        ensures
            s.provider == WsProvider::Kraken,
            s.api_key is None,
            s.api_secret is None,
    {
        GenericWsStream { provider: WsProvider::Kraken, api_key: None, api_secret: None }
    }

    /// The endpoint this stream connects to.
    pub fn ws_url(&self) -> (url: &'static str)
        ensures
            url@ == spec_ws_url(self.provider),
    {
        match self.provider {
            WsProvider::AlpacaCrypto => "wss://stream.data.alpaca.markets/v1beta3/crypto/us",
            WsProvider::AlpacaStocks => "wss://stream.data.alpaca.markets/v2/iex",
            WsProvider::Binance => "wss://stream.binance.com:9443/ws",
            WsProvider::Coinbase => "wss://advanced-trade-ws.coinbase.com",
            WsProvider::Kraken => "wss://ws.kraken.com",
        }
    }

    /// Whether the stream authenticates before subscribing.
    pub fn needs_auth(&self) -> (r: bool)
        ensures
            r == (self.provider == WsProvider::AlpacaCrypto || self.provider
                == WsProvider::AlpacaStocks),
    {
        match self.provider {
            WsProvider::AlpacaCrypto => true,
            WsProvider::AlpacaStocks => true,
            _ => false,
        }
    }
}


/// One piece of market data read from a venue's frame, in canonical form.
#[derive(Debug)]
pub enum StreamUpdate {
    Quote(Quote),
    Trade(Trade),
    Bar(Bar),
}

/// What a piece of market data says, text by its characters.
pub enum UpdateView {
    Quote {
        symbol: Seq<char>,
        bid: i64,
        ask: i64,
        bid_size: i64,
        ask_size: i64,
        timestamp: Seq<char>,
    },
    Trade { symbol: Seq<char>, price: i64, size: i64, timestamp: Seq<char>, id: Option<u64> },
    Bar {
        symbol: Seq<char>,
        open: i64,
        high: i64,
        low: i64,
        close: i64,
        volume: i64,
        timestamp: Seq<char>,
    },
}

/// What an update says.
pub open spec fn update_view(update: StreamUpdate) -> UpdateView {
    match update {
        StreamUpdate::Quote(q) => UpdateView::Quote {
            symbol: q.symbol@,
            bid: q.bid_price,
            ask: q.ask_price,
            bid_size: q.bid_size,
            ask_size: q.ask_size,
            timestamp: q.timestamp@,
        },
        StreamUpdate::Trade(t) => UpdateView::Trade {
            symbol: t.symbol@,
            price: t.price,
            size: t.size,
            timestamp: t.timestamp@,
            id: t.id,
        },
        StreamUpdate::Bar(b) => UpdateView::Bar {
            symbol: b.symbol@,
            open: b.open,
            high: b.high,
            low: b.low,
            close: b.close,
            volume: b.volume,
            timestamp: b.timestamp@,
        },
    }
}

/// What an optional update says.
pub open spec fn opt_update_view(update: Option<StreamUpdate>) -> Option<UpdateView> {
    match update {
        Some(u) => Some(update_view(u)),
        None => None,
    }
}

/// What each update of a list says.
pub open spec fn update_views(list: Seq<StreamUpdate>) -> Seq<UpdateView> {
    Seq::new(list.len(), |i: int| update_view(list[i]))
}

/// A text field of a frame, empty where it is missing.
pub open spec fn spec_text_or_empty(value: Option<Seq<char>>) -> Seq<char> {
    match value {
        Some(t) => t,
        None => Seq::<char>::empty(),
    }
}

/// An amount given as decimal text, zero where it is missing or malformed.
pub open spec fn spec_amount_or_zero(value: Option<Seq<char>>) -> i64 {
    match value {
        Some(t) => match spec_parse_number(t) {
            Some(a) => a,
            None => 0,
        },
        None => 0,
    }
}

/// A quote the engine can use: positive bid, ask not below it.
pub open spec fn usable(bid: i64, ask: i64) -> bool {
    bid > 0 && ask >= bid
}

fn text_or_empty(value: Option<String>) -> (r: String)
    ensures
        r@ == spec_text_or_empty(opt_view(value)),
{
    match value {
        Some(t) => t,
        None => String::new(),
    }
}

fn amount_or_zero(value: Option<String>) -> (r: i64)
    ensures
        r == spec_amount_or_zero(opt_view(value)),
{
    match value {
        Some(t) => match parse_number(t.as_str()) {
            Some(a) => a,
            None => 0,
        },
        None => 0,
    }
}

/// What one item of an Alpaca frame says.
///
/// The item's `T` names its kind: `t` a trade, `q` a quote, `b` a bar; every
/// kind needs the symbol `S`. Numbers that are missing count as zero. A
/// trade without positive price and a quote that is not usable are dropped;
/// so is every other kind of item.
pub open spec fn spec_alpaca_update(item: Seq<char>) -> Option<UpdateView> {
    match (json_string(item, "T"@), json_string(item, "S"@)) {
        (Some(kind), Some(symbol)) => {
            let timestamp = spec_text_or_empty(json_string(item, "t"@));
            if kind == "t"@ {
                let price = spec_amount_or_zero(json_number(item, "p"@));
                if price > 0 {
                    Some(
                        UpdateView::Trade {
                            symbol,
                            price,
                            size: spec_amount_or_zero(json_number(item, "s"@)),
                            timestamp,
                            id: match json_number(item, "i"@) {
                                Some(n) => spec_parse_u64(n),
                                None => None,
                            },
                        },
                    )
                } else {
                    None
                }
            } else if kind == "q"@ {
                let bid = spec_amount_or_zero(json_number(item, "bp"@));
                let ask = spec_amount_or_zero(json_number(item, "ap"@));
                if usable(bid, ask) {
                    Some(
                        UpdateView::Quote {
                            symbol,
                            bid,
                            ask,
                            bid_size: spec_amount_or_zero(json_number(item, "bs"@)),
                            ask_size: spec_amount_or_zero(json_number(item, "as"@)),
                            timestamp,
                        },
                    )
                } else {
                    None
                }
            } else if kind == "b"@ {
                Some(
                    UpdateView::Bar {
                        symbol,
                        open: spec_amount_or_zero(json_number(item, "o"@)),
                        high: spec_amount_or_zero(json_number(item, "h"@)),
                        low: spec_amount_or_zero(json_number(item, "l"@)),
                        close: spec_amount_or_zero(json_number(item, "c"@)),
                        volume: spec_amount_or_zero(json_number(item, "v"@)),
                        timestamp,
                    },
                )
            } else {
                None
            }
        },
        _ => None,
    }
}

/// Reads one item of an Alpaca frame.
pub fn alpaca_update(item: &str) -> (r: Option<StreamUpdate>)
    ensures
        opt_update_view(r) == spec_alpaca_update(item@),
{
    let kind: String = match string_field(item, "T") {
        Some(k) => k,
        None => {
            return None;
        },
    };
    let symbol: String = match string_field(item, "S") {
        Some(s) => s,
        None => {
            return None;
        },
    };
    let timestamp: String = text_or_empty(string_field(item, "t"));
    if str_eq(kind.as_str(), "t") {
        let price: i64 = amount_or_zero(number_field(item, "p"));
        if price > 0 {
            let size: i64 = amount_or_zero(number_field(item, "s"));
            let id: Option<u64> = match number_field(item, "i") {
                Some(n) => parse_u64(n.as_str()),
                None => None,
            };
            Some(StreamUpdate::Trade(Trade { symbol, price, size, timestamp, id }))
        } else {
            None
        }
    } else if str_eq(kind.as_str(), "q") {
        let bid: i64 = amount_or_zero(number_field(item, "bp"));
        let ask: i64 = amount_or_zero(number_field(item, "ap"));
        if bid > 0 && ask >= bid {
            let bid_size: i64 = amount_or_zero(number_field(item, "bs"));
            let ask_size: i64 = amount_or_zero(number_field(item, "as"));
            Some(
                StreamUpdate::Quote(
                    Quote { symbol, bid_price: bid, ask_price: ask, bid_size, ask_size, timestamp },
                ),
            )
        } else {
            None
        }
    } else if str_eq(kind.as_str(), "b") {
        let open: i64 = amount_or_zero(number_field(item, "o"));
        let high: i64 = amount_or_zero(number_field(item, "h"));
        let low: i64 = amount_or_zero(number_field(item, "l"));
        let close: i64 = amount_or_zero(number_field(item, "c"));
        let volume: i64 = amount_or_zero(number_field(item, "v"));
        Some(StreamUpdate::Bar(Bar { symbol, open, high, low, close, volume, timestamp }))
    } else {
        None
    }
}

/// The updates a list of items gives, item by item, under a reading `f` of
/// one item.
pub open spec fn spec_collect(
    list: Seq<Seq<char>>,
    f: spec_fn(Seq<char>) -> Option<UpdateView>,
) -> Seq<UpdateView>
    decreases list.len(),
{
    if list.len() == 0 {
        Seq::<UpdateView>::empty()
    } else {
        match f(list.last()) {
            Some(u) => spec_collect(list.drop_last(), f).push(u),
            None => spec_collect(list.drop_last(), f),
        }
    }
}

/// What an Alpaca frame says: the updates of its items in order; nothing
/// where the frame is no JSON array.
pub open spec fn spec_normalize_alpaca(text: Seq<char>) -> Seq<UpdateView> {
    match json_items(text) {
        Some(list) => spec_collect(list, |item: Seq<char>| spec_alpaca_update(item)),
        None => Seq::<UpdateView>::empty(),
    }
}

/// Reads an Alpaca market data frame.
pub fn normalize_alpaca(text: &str) -> (updates: Vec<StreamUpdate>)
    ensures
        update_views(updates@) == spec_normalize_alpaca(text@),
{
    let mut updates: Vec<StreamUpdate> = Vec::new();
    let list: Vec<String> = match items(text) {
        Some(l) => l,
        None => {
            assert(update_views(updates@) =~= Seq::<UpdateView>::empty());
            return updates;
        },
    };
    let ghost f = |item: Seq<char>| spec_alpaca_update(item);
    let ghost all = list_view(list@);
    let mut i: usize = 0;
    assert(all.take(0).len() == 0);
    assert(update_views(updates@) =~= spec_collect(all.take(0), f));
    while i < list.len()
        invariant
            i <= list.len(),
            all == list_view(list@),
            f == (|item: Seq<char>| spec_alpaca_update(item)),
            update_views(updates@) == spec_collect(all.take(i as int), f),
        decreases list.len() - i,
    {
        let ghost before = updates@;
        proof {
            let next = all.take(i + 1);
            assert(next.drop_last() =~= all.take(i as int));
            assert(next.last() == list@[i as int]@);
        }
        match alpaca_update(list[i].as_str()) {
            Some(u) => {
                updates.push(u);
                assert(update_views(updates@) =~= update_views(before).push(update_view(u)));
            },
            None => {},
        }
        i = i + 1;
    }
    assert(all.take(list.len() as int) =~= all);
    updates
}

/// The canonical symbol a venue's slash-less symbol stands for: the first
/// configured symbol that reads the same with its slash dropped, whatever
/// the case; the venue's symbol itself where none does.
pub open spec fn spec_canonical(venue_symbol: Seq<char>, known: Seq<String>) -> Seq<char>
    decreases known.len(),
{
    if known.len() == 0 {
        venue_symbol
    } else if spec_eq_ignore_ascii_case(spec_replace(known[0]@, "/"@, ""@), venue_symbol) {
        known[0]@
    } else {
        spec_canonical(venue_symbol, known.drop_first())
    }
}

/// The canonical symbol for a venue's slash-less symbol.
pub fn canonical_symbol(venue_symbol: &str, known: &Vec<String>) -> (r: String)
    ensures
        r@ == spec_canonical(venue_symbol@, known@),
{
    let mut i: usize = 0;
    proof {
        assert(known@.skip(0) =~= known@);
    }
    while i < known.len()
        invariant
            i <= known.len(),
            spec_canonical(venue_symbol@, known@) == spec_canonical(
                venue_symbol@,
                known@.skip(i as int),
            ),
        decreases known.len() - i,
    {
        proof {
            let rest = known@.skip(i as int);
            assert(rest[0] == known@[i as int]);
            assert(rest.drop_first() =~= known@.skip(i + 1));
        }
        let joined: String = str_replace(known[i].as_str(), "/", "");
        if crate::text::eq_ignore_ascii_case(joined.as_str(), venue_symbol) {
            return known[i].clone();
        }
        i = i + 1;
    }
    proof {
        assert(known@.skip(known.len() as int).len() == 0);
    }
    venue_symbol.to_owned()
}

/// What a Binance frame says.
///
/// A `trade` event gives a trade, a `bookTicker` event a quote; both need a
/// non-empty symbol `s`, which is made canonical against the configured
/// symbols. Prices come as decimal text. A trade without positive price
/// and a quote that is not usable are dropped.
pub open spec fn spec_binance_update(text: Seq<char>, known: Seq<String>) -> Option<UpdateView> {
    let symbol = spec_text_or_empty(json_string(text, "s"@));
    if symbol.len() == 0 {
        None
    } else if json_string(text, "e"@) == Some("trade"@) {
        let price = spec_amount_or_zero(json_string(text, "p"@));
        if price > 0 {
            Some(
                UpdateView::Trade {
                    symbol: spec_canonical(symbol, known),
                    price,
                    size: spec_amount_or_zero(json_string(text, "q"@)),
                    timestamp: spec_text_or_empty(json_number(text, "T"@)),
                    id: None,
                },
            )
        } else {
            None
        }
    } else if json_string(text, "e"@) == Some("bookTicker"@) {
        let bid = spec_amount_or_zero(json_string(text, "b"@));
        let ask = spec_amount_or_zero(json_string(text, "a"@));
        if usable(bid, ask) {
            Some(
                UpdateView::Quote {
                    symbol: spec_canonical(symbol, known),
                    bid,
                    ask,
                    bid_size: 0,
                    ask_size: 0,
                    timestamp: spec_text_or_empty(json_number(text, "E"@)),
                },
            )
        } else {
            None
        }
    } else {
        None
    }
}

/// Reads a Binance frame.
pub fn normalize_binance(text: &str, known: &Vec<String>) -> (r: Option<StreamUpdate>)
    ensures
        opt_update_view(r) == spec_binance_update(text@, known@),
{
    let symbol: String = text_or_empty(string_field(text, "s"));
    if symbol.as_str().unicode_len() == 0 {
        return None;
    }
    let kind: String = match string_field(text, "e") {
        Some(k) => k,
        None => {
            return None;
        },
    };
    if str_eq(kind.as_str(), "trade") {
        let price: i64 = amount_or_zero(string_field(text, "p"));
        if price > 0 {
            Some(
                StreamUpdate::Trade(
                    Trade {
                        symbol: canonical_symbol(symbol.as_str(), known),
                        price,
                        size: amount_or_zero(string_field(text, "q")),
                        timestamp: text_or_empty(number_field(text, "T")),
                        id: None,
                    },
                ),
            )
        } else {
            None
        }
    } else if str_eq(kind.as_str(), "bookTicker") {
        let bid: i64 = amount_or_zero(string_field(text, "b"));
        let ask: i64 = amount_or_zero(string_field(text, "a"));
        if bid > 0 && ask >= bid {
            Some(
                StreamUpdate::Quote(
                    Quote {
                        symbol: canonical_symbol(symbol.as_str(), known),
                        bid_price: bid,
                        ask_price: ask,
                        bid_size: 0,
                        ask_size: 0,
                        timestamp: text_or_empty(number_field(text, "E")),
                    },
                ),
            )
        } else {
            None
        }
    } else {
        None
    }
}

/// What one trade of a Coinbase `market_trades` frame says: the product id
/// with its dash turned into a slash, price and size from decimal text. A
/// trade without positive price is dropped.
pub open spec fn spec_coinbase_trade(trade: Seq<char>) -> Option<UpdateView> {
    let price = spec_amount_or_zero(json_string(trade, "price"@));
    if price > 0 {
        Some(
            UpdateView::Trade {
                symbol: spec_replace(
                    spec_text_or_empty(json_string(trade, "product_id"@)),
                    "-"@,
                    "/"@,
                ),
                price,
                size: spec_amount_or_zero(json_string(trade, "size"@)),
                timestamp: spec_text_or_empty(json_string(trade, "time"@)),
                id: None,
            },
        )
    } else {
        None
    }
}

/// Reads one trade of a Coinbase frame.
pub fn coinbase_trade(trade: &str) -> (r: Option<StreamUpdate>)
    ensures
        opt_update_view(r) == spec_coinbase_trade(trade@),
{
    let price: i64 = amount_or_zero(string_field(trade, "price"));
    if price > 0 {
        let product: String = text_or_empty(string_field(trade, "product_id"));
        Some(
            StreamUpdate::Trade(
                Trade {
                    symbol: from_coinbase_product_id(product.as_str()),
                    price,
                    size: amount_or_zero(string_field(trade, "size")),
                    timestamp: text_or_empty(string_field(trade, "time")),
                    id: None,
                },
            ),
        )
    } else {
        None
    }
}

/// The trades of one event of a Coinbase frame; none where the event lists
/// no trades.
pub open spec fn spec_coinbase_event(event: Seq<char>) -> Seq<UpdateView> {
    match json_member(event, "trades"@) {
        Some(trades) => match json_items(trades) {
            Some(list) => spec_collect(list, |t: Seq<char>| spec_coinbase_trade(t)),
            None => Seq::<UpdateView>::empty(),
        },
        None => Seq::<UpdateView>::empty(),
    }
}

/// The trades of a list of events, event by event.
pub open spec fn spec_coinbase_events(events: Seq<Seq<char>>) -> Seq<UpdateView>
    decreases events.len(),
{
    if events.len() == 0 {
        Seq::<UpdateView>::empty()
    } else {
        spec_coinbase_events(events.drop_last()) + spec_coinbase_event(events.last())
    }
}

/// What a Coinbase frame says: the trades of the events of a
/// `market_trades` frame, in order; nothing for any other frame.
pub open spec fn spec_normalize_coinbase(text: Seq<char>) -> Seq<UpdateView> {
    if json_string(text, "channel"@) == Some("market_trades"@) {
        match json_member(text, "events"@) {
            Some(events) => match json_items(events) {
                Some(list) => spec_coinbase_events(list),
                None => Seq::<UpdateView>::empty(),
            },
            None => Seq::<UpdateView>::empty(),
        }
    } else {
        Seq::<UpdateView>::empty()
    }
}

fn coinbase_event(event: &str, updates: &mut Vec<StreamUpdate>)
    ensures
        update_views(final(updates)@) == update_views(old(updates)@) + spec_coinbase_event(event@),
{
    let ghost start = updates@;
    let trades: String = match member(event, "trades") {
        Some(t) => t,
        None => {
            assert(update_views(updates@) =~= update_views(start) + Seq::<UpdateView>::empty());
            return ;
        },
    };
    let list: Vec<String> = match items(trades.as_str()) {
        Some(l) => l,
        None => {
            assert(update_views(updates@) =~= update_views(start) + Seq::<UpdateView>::empty());
            return ;
        },
    };
    let ghost f = |t: Seq<char>| spec_coinbase_trade(t);
    let ghost all = list_view(list@);
    let mut i: usize = 0;
    assert(all.take(0).len() == 0);
    assert(update_views(updates@) =~= update_views(start) + spec_collect(all.take(0), f));
    while i < list.len()
        invariant
            i <= list.len(),
            all == list_view(list@),
            f == (|t: Seq<char>| spec_coinbase_trade(t)),
            update_views(updates@) == update_views(start) + spec_collect(all.take(i as int), f),
        decreases list.len() - i,
    {
        let ghost before = updates@;
        proof {
            let next = all.take(i + 1);
            assert(next.drop_last() =~= all.take(i as int));
            assert(next.last() == list@[i as int]@);
        }
        match coinbase_trade(list[i].as_str()) {
            Some(u) => {
                updates.push(u);
                assert(update_views(updates@) =~= update_views(before).push(update_view(u)));
                assert(update_views(updates@) =~= update_views(start) + spec_collect(
                    all.take(i + 1),
                    f,
                ));
            },
            None => {},
        }
        i = i + 1;
    }
    assert(all.take(list.len() as int) =~= all);
}

/// Reads a Coinbase frame.
pub fn normalize_coinbase(text: &str) -> (updates: Vec<StreamUpdate>)
    ensures
        update_views(updates@) == spec_normalize_coinbase(text@),
{
    let mut updates: Vec<StreamUpdate> = Vec::new();
    assert(update_views(updates@) =~= Seq::<UpdateView>::empty());
    let channel: String = match string_field(text, "channel") {
        Some(c) => c,
        None => {
            return updates;
        },
    };
    if !str_eq(channel.as_str(), "market_trades") {
        return updates;
    }
    let events: String = match member(text, "events") {
        Some(e) => e,
        None => {
            return updates;
        },
    };
    let list: Vec<String> = match items(events.as_str()) {
        Some(l) => l,
        None => {
            return updates;
        },
    };
    let ghost all = list_view(list@);
    let mut i: usize = 0;
    assert(all.take(0).len() == 0);
    while i < list.len()
        invariant
            i <= list.len(),
            all == list_view(list@),
            update_views(updates@) == spec_coinbase_events(all.take(i as int)),
        decreases list.len() - i,
    {
        proof {
            let next = all.take(i + 1);
            assert(next.drop_last() =~= all.take(i as int));
            assert(next.last() == list@[i as int]@);
        }
        coinbase_event(list[i].as_str(), &mut updates);
        i = i + 1;
    }
    assert(all.take(list.len() as int) =~= all);
    updates
}

/// What one entry of a Kraken trade list says, for the symbol of its frame:
/// the entry is an array of price, size and time, each as text. An entry
/// that is no array or has no positive price is dropped.
pub open spec fn spec_kraken_trade(entry: Seq<char>, symbol: Seq<char>) -> Option<UpdateView> {
    match json_items(entry) {
        Some(fields) => {
            let price = spec_amount_or_zero(
                if fields.len() > 0 {
                    json_text(fields[0])
                } else {
                    None
                },
            );
            if price > 0 {
                Some(
                    UpdateView::Trade {
                        symbol,
                        price,
                        size: spec_amount_or_zero(
                            if fields.len() > 1 {
                                json_text(fields[1])
                            } else {
                                None
                            },
                        ),
                        timestamp: spec_text_or_empty(
                            if fields.len() > 2 {
                                json_text(fields[2])
                            } else {
                                None
                            },
                        ),
                        id: None,
                    },
                )
            } else {
                None
            }
        },
        None => None,
    }
}

fn field_text(fields: &Vec<String>, index: usize) -> (r: Option<String>)
    ensures
        opt_view(r) == if index < fields.len() {
            json_text(fields@[index as int]@)
        } else {
            None::<Seq<char>>
        },
{
    if index < fields.len() {
        text_value(fields[index].as_str())
    } else {
        None
    }
}

/// Reads one entry of a Kraken trade list.
pub fn kraken_trade(entry: &str, symbol: &str) -> (r: Option<StreamUpdate>)
    ensures
        opt_update_view(r) == spec_kraken_trade(entry@, symbol@),
{
    let fields: Vec<String> = match items(entry) {
        Some(f) => f,
        None => {
            return None;
        },
    };
    proof {
        assert(forall|k: int| 0 <= k < fields.len() ==> list_view(fields@)[k] == fields@[k]@);
    }
    let price: i64 = amount_or_zero(field_text(&fields, 0));
    if price > 0 {
        Some(
            StreamUpdate::Trade(
                Trade {
                    symbol: symbol.to_owned(),
                    price,
                    size: amount_or_zero(field_text(&fields, 1)),
                    timestamp: text_or_empty(field_text(&fields, 2)),
                    id: None,
                },
            ),
        )
    } else {
        None
    }
}

/// The best price of one side of a Kraken ticker: the first entry of the
/// side's array, as decimal text; zero where it is missing.
pub open spec fn spec_kraken_best(ticker: Seq<char>, side: Seq<char>) -> i64 {
    match json_member(ticker, side) {
        Some(levels) => match json_items(levels) {
            Some(list) => spec_amount_or_zero(
                if list.len() > 0 {
                    json_text(list[0])
                } else {
                    None
                },
            ),
            None => 0,
        },
        None => 0,
    }
}

fn kraken_best(ticker: &str, side: &str) -> (r: i64)
    ensures
        r == spec_kraken_best(ticker@, side@),
{
    match member(ticker, side) {
        Some(levels) => match items(levels.as_str()) {
            Some(list) => {
                proof {
                    assert(forall|k: int| 0 <= k < list.len() ==> list_view(list@)[k] == list@[k]@);
                }
                amount_or_zero(field_text(&list, 0))
            },
            None => 0,
        },
        None => 0,
    }
}

/// What a Kraken frame says.
///
/// Data frames are arrays of at least three entries: the last names the
/// pair (`XBT` is written back as `BTC`), the one before it the channel. A
/// `trade` frame lists trades in its second entry; a `ticker` frame gives a
/// quote from the best bid and ask of its second entry, stamped with the
/// time of receipt, and is dropped where that quote is not usable.
pub open spec fn spec_normalize_kraken(text: Seq<char>, received_at: Seq<char>) -> Seq<UpdateView> {
    match json_items(text) {
        Some(frame) => if frame.len() < 3 {
            Seq::<UpdateView>::empty()
        } else {
            let channel = spec_text_or_empty(json_text(frame[frame.len() - 2]));
            let symbol = spec_replace(
                spec_text_or_empty(json_text(frame[frame.len() - 1])),
                "XBT/"@,
                "BTC/"@,
            );
            if channel == "trade"@ {
                match json_items(frame[1]) {
                    Some(list) => spec_collect(list, |e: Seq<char>| spec_kraken_trade(e, symbol)),
                    None => Seq::<UpdateView>::empty(),
                }
            } else if channel == "ticker"@ {
                let bid = spec_kraken_best(frame[1], "b"@);
                let ask = spec_kraken_best(frame[1], "a"@);
                if usable(bid, ask) {
                    seq![
                        UpdateView::Quote {
                            symbol,
                            bid,
                            ask,
                            bid_size: 0,
                            ask_size: 0,
                            timestamp: received_at,
                        },
                    ]
                } else {
                    Seq::<UpdateView>::empty()
                }
            } else {
                Seq::<UpdateView>::empty()
            }
        },
        None => Seq::<UpdateView>::empty(),
    }
}

/// Reads a Kraken frame received at the time `received_at` names.
pub fn normalize_kraken(text: &str, received_at: &str) -> (updates: Vec<StreamUpdate>)
    ensures
        update_views(updates@) == spec_normalize_kraken(text@, received_at@),
{
    let mut updates: Vec<StreamUpdate> = Vec::new();
    assert(update_views(updates@) =~= Seq::<UpdateView>::empty());
    let frame: Vec<String> = match items(text) {
        Some(f) => f,
        None => {
            return updates;
        },
    };
    proof {
        assert(forall|k: int| 0 <= k < frame.len() ==> list_view(frame@)[k] == frame@[k]@);
    }
    let n: usize = frame.len();
    if n < 3 {
        return updates;
    }
    let channel: String = text_or_empty(text_value(frame[n - 2].as_str()));
    let pair: String = text_or_empty(text_value(frame[n - 1].as_str()));
    let symbol: String = from_kraken_pair(pair.as_str());
    if str_eq(channel.as_str(), "trade") {
        let list: Vec<String> = match items(frame[1].as_str()) {
            Some(l) => l,
            None => {
                return updates;
            },
        };
        let ghost f = |e: Seq<char>| spec_kraken_trade(e, symbol@);
        let ghost all = list_view(list@);
        let mut i: usize = 0;
        assert(all.take(0).len() == 0);
        assert(update_views(updates@) =~= spec_collect(all.take(0), f));
        while i < list.len()
            invariant
                i <= list.len(),
                all == list_view(list@),
                f == (|e: Seq<char>| spec_kraken_trade(e, symbol@)),
                update_views(updates@) == spec_collect(all.take(i as int), f),
            decreases list.len() - i,
        {
            let ghost before = updates@;
            proof {
                let next = all.take(i + 1);
                assert(next.drop_last() =~= all.take(i as int));
                assert(next.last() == list@[i as int]@);
            }
            match kraken_trade(list[i].as_str(), symbol.as_str()) {
                Some(u) => {
                    updates.push(u);
                    assert(update_views(updates@) =~= update_views(before).push(update_view(u)));
                },
                None => {},
            }
            i = i + 1;
        }
        assert(all.take(list.len() as int) =~= all);
        updates
    } else if str_eq(channel.as_str(), "ticker") {
        let bid: i64 = kraken_best(frame[1].as_str(), "b");
        let ask: i64 = kraken_best(frame[1].as_str(), "a");
        if bid > 0 && ask >= bid {
            let quote = Quote {
                symbol,
                bid_price: bid,
                ask_price: ask,
                bid_size: 0,
                ask_size: 0,
                timestamp: received_at.to_owned(),
            };
            updates.push(StreamUpdate::Quote(quote));
            assert(update_views(updates@) =~= seq![update_view(StreamUpdate::Quote(quote))]);
        }
        updates
    } else {
        updates
    }
}

/// The event the bus carries for an update; bars are stored only.
pub open spec fn spec_event_of(update: StreamUpdate) -> Option<Event> {
    match update {
        StreamUpdate::Quote(q) => Some(
            Event::Market(
                MarketEvent::Quote {
                    symbol: q.symbol,
                    bid: q.bid_price,
                    ask: q.ask_price,
                    timestamp: q.timestamp,
                },
            ),
        ),
        StreamUpdate::Trade(t) => Some(
            Event::Market(
                MarketEvent::Trade {
                    symbol: t.symbol,
                    price: t.price,
                    size: t.size,
                    timestamp: t.timestamp,
                },
            ),
        ),
        StreamUpdate::Bar(b) => None,
    }
}

/// Stores an update under its symbol and gives the event to publish for it.
pub fn apply_update(store: &mut MarketStore, update: StreamUpdate) -> (event: Option<Event>)
    ensures
        event == spec_event_of(update),
        final(store).spec_limit() == old(store).spec_limit(),
        final(store).news_items() == old(store).news_items(),
        match update {
            StreamUpdate::Quote(q) => {
                &&& final(store).quote_history(q.symbol@) == spec_pushed(
                    old(store).quote_history(q.symbol@),
                    old(store).spec_limit(),
                    q,
                )
                &&& forall|k: Seq<char>|
                    k != q.symbol@
                        ==> #[trigger] final(store).quote_history(k) == old(store).quote_history(k)
                &&& forall|k: Seq<char>| #[trigger]
                    final(store).trade_history(k) == old(store).trade_history(k)
                &&& forall|k: Seq<char>| #[trigger]
                    final(store).bar_history(k) == old(store).bar_history(k)
            },
            StreamUpdate::Trade(t) => {
                &&& final(store).trade_history(t.symbol@) == spec_pushed(
                    old(store).trade_history(t.symbol@),
                    old(store).spec_limit(),
                    t,
                )
                &&& forall|k: Seq<char>|
                    k != t.symbol@
                        ==> #[trigger] final(store).trade_history(k) == old(store).trade_history(k)
                &&& forall|k: Seq<char>| #[trigger]
                    final(store).quote_history(k) == old(store).quote_history(k)
                &&& forall|k: Seq<char>| #[trigger]
                    final(store).bar_history(k) == old(store).bar_history(k)
            },
            StreamUpdate::Bar(b) => {
                &&& final(store).bar_history(b.symbol@) == spec_pushed(
                    old(store).bar_history(b.symbol@),
                    old(store).spec_limit(),
                    b,
                )
                &&& forall|k: Seq<char>|
                    k != b.symbol@
                        ==> #[trigger] final(store).bar_history(k) == old(store).bar_history(k)
                &&& forall|k: Seq<char>| #[trigger]
                    final(store).quote_history(k) == old(store).quote_history(k)
                &&& forall|k: Seq<char>| #[trigger]
                    final(store).trade_history(k) == old(store).trade_history(k)
            },
        },
{
    match update {
        StreamUpdate::Quote(q) => {
            let event = Event::Market(
                MarketEvent::Quote {
                    symbol: q.symbol.clone(),
                    bid: q.bid_price,
                    ask: q.ask_price,
                    timestamp: q.timestamp.clone(),
                },
            );
            store.update_quote(q.symbol.clone(), q);
            Some(event)
        },
        StreamUpdate::Trade(t) => {
            let event = Event::Market(
                MarketEvent::Trade {
                    symbol: t.symbol.clone(),
                    price: t.price,
                    size: t.size,
                    timestamp: t.timestamp.clone(),
                },
            );
            store.update_trade(t.symbol.clone(), t);
            Some(event)
        },
        StreamUpdate::Bar(b) => {
            store.update_bar(b.symbol.clone(), b);
            None
        },
    }
}

/// What one item of an Alpaca news frame says: an item of kind `n` is a news
/// item, with its headline where it has one.
pub open spec fn spec_is_news(item: Seq<char>) -> bool {
    json_string(item, "T"@) == Some("n"@)
}

/// Reads one item of an Alpaca news frame.
pub fn news_item(item: &str) -> (r: Option<NewsItem>)
    ensures
        r is Some == spec_is_news(item@),
        r matches Some(n) ==> n.raw@ == item@ && opt_view(n.headline) == json_string(
            item@,
            "headline"@,
        ),
{
    match string_field(item, "T") {
        Some(kind) => {
            if str_eq(kind.as_str(), "n") {
                Some(NewsItem { headline: string_field(item, "headline"), raw: item.to_owned() })
            } else {
                None
            }
        },
        None => None,
    }
}


impl Clone for StreamUpdate {
    fn clone(&self) -> (r: Self)
        ensures
            r == *self,
    {
        match self {
            StreamUpdate::Quote(q) => StreamUpdate::Quote(q.clone()),
            StreamUpdate::Trade(t) => StreamUpdate::Trade(t.clone()),
            StreamUpdate::Bar(b) => StreamUpdate::Bar(b.clone()),
        }
    }
}

/// The events to publish for a run of updates, in order.
pub open spec fn spec_events_of(updates: Seq<StreamUpdate>) -> Seq<Event>
    decreases updates.len(),
{
    if updates.len() == 0 {
        Seq::<Event>::empty()
    } else {
        match spec_event_of(updates.last()) {
            Some(e) => spec_events_of(updates.drop_last()).push(e),
            None => spec_events_of(updates.drop_last()),
        }
    }
}

/// A symbol's quote history after a run of updates.
pub open spec fn spec_quotes_after(
    history: Seq<Quote>,
    updates: Seq<StreamUpdate>,
    symbol: Seq<char>,
    limit: usize,
) -> Seq<Quote>
    decreases updates.len(),
{
    if updates.len() == 0 {
        history
    } else {
        let before = spec_quotes_after(history, updates.drop_last(), symbol, limit);
        match updates.last() {
            StreamUpdate::Quote(q) => if q.symbol@ == symbol {
                spec_pushed(before, limit, q)
            } else {
                before
            },
            _ => before,
        }
    }
}

/// A symbol's trade history after a run of updates.
pub open spec fn spec_trades_after(
    history: Seq<Trade>,
    updates: Seq<StreamUpdate>,
    symbol: Seq<char>,
    limit: usize,
) -> Seq<Trade>
    decreases updates.len(),
{
    if updates.len() == 0 {
        history
    } else {
        let before = spec_trades_after(history, updates.drop_last(), symbol, limit);
        match updates.last() {
            StreamUpdate::Trade(t) => if t.symbol@ == symbol {
                spec_pushed(before, limit, t)
            } else {
                before
            },
            _ => before,
        }
    }
}

/// A symbol's bar history after a run of updates.
pub open spec fn spec_bars_after(
    history: Seq<Bar>,
    updates: Seq<StreamUpdate>,
    symbol: Seq<char>,
    limit: usize,
) -> Seq<Bar>
    decreases updates.len(),
{
    if updates.len() == 0 {
        history
    } else {
        let before = spec_bars_after(history, updates.drop_last(), symbol, limit);
        match updates.last() {
            StreamUpdate::Bar(b) => if b.symbol@ == symbol {
                spec_pushed(before, limit, b)
            } else {
                before
            },
            _ => before,
        }
    }
}

/// The store holds, for every symbol, what `updates` make of `before`.
pub open spec fn store_follows(
    before: MarketStore,
    after: MarketStore,
    updates: Seq<StreamUpdate>,
) -> bool {
    &&& after.spec_limit() == before.spec_limit()
    &&& after.news_items() == before.news_items()
    &&& forall|k: Seq<char>| #[trigger]
        after.quote_history(k) == spec_quotes_after(
            before.quote_history(k),
            updates,
            k,
            before.spec_limit(),
        )
    &&& forall|k: Seq<char>| #[trigger]
        after.trade_history(k) == spec_trades_after(
            before.trade_history(k),
            updates,
            k,
            before.spec_limit(),
        )
    &&& forall|k: Seq<char>| #[trigger]
        after.bar_history(k) == spec_bars_after(
            before.bar_history(k),
            updates,
            k,
            before.spec_limit(),
        )
}

/// Stores a run of updates in order and gives the events to publish for
/// them, in the same order.
pub fn apply_updates(store: &mut MarketStore, updates: &Vec<StreamUpdate>) -> (events: Vec<Event>)
    ensures
        events@ == spec_events_of(updates@),
        store_follows(*old(store), *final(store), updates@),
{
    let mut events: Vec<Event> = Vec::new();
    let mut i: usize = 0;
    assert(updates@.take(0).len() == 0);
    assert(events@ =~= spec_events_of(updates@.take(0)));
    while i < updates.len()
        invariant
            i <= updates.len(),
            events@ == spec_events_of(updates@.take(i as int)),
            store_follows(*old(store), *store, updates@.take(i as int)),
        decreases updates.len() - i,
    {
        let ghost mid = *store;
        let ghost seen = updates@.take(i as int);
        let ghost next = updates@.take(i + 1);
        proof {
            assert(next.drop_last() =~= seen);
            assert(next.last() == updates@[i as int]);
        }
        let update: StreamUpdate = updates[i].clone();
        match apply_update(store, update) {
            Some(e) => {
                events.push(e);
            },
            None => {},
        }
        proof {
            let limit = old(store).spec_limit();
            assert forall|k: Seq<char>| #[trigger]
                store.quote_history(k) == spec_quotes_after(
                    old(store).quote_history(k),
                    next,
                    k,
                    limit,
                ) by {
                assert(mid.quote_history(k) == spec_quotes_after(
                    old(store).quote_history(k),
                    seen,
                    k,
                    limit,
                ));
            }
            assert forall|k: Seq<char>| #[trigger]
                store.trade_history(k) == spec_trades_after(
                    old(store).trade_history(k),
                    next,
                    k,
                    limit,
                ) by {
                assert(mid.trade_history(k) == spec_trades_after(
                    old(store).trade_history(k),
                    seen,
                    k,
                    limit,
                ));
            }
            assert forall|k: Seq<char>| #[trigger]
                store.bar_history(k) == spec_bars_after(
                    old(store).bar_history(k),
                    next,
                    k,
                    limit,
                ) by {
                assert(mid.bar_history(k) == spec_bars_after(
                    old(store).bar_history(k),
                    seen,
                    k,
                    limit,
                ));
            }
        }
        i = i + 1;
    }
    assert(updates@.take(updates.len() as int) =~= updates@);
    events
}

impl GenericWsStream {
    /// Reads one text frame of this stream's venue.
    ///
    /// `known` are the configured canonical symbols (Binance names symbols
    /// without slash), `received_at` the time of receipt as text (Kraken's
    /// tickers carry no time).
    pub fn normalize(&self, text: &str, known: &Vec<String>, received_at: &str) -> (updates: Vec<
        StreamUpdate,
    >)
        ensures
            update_views(updates@) == match self.provider {
                WsProvider::AlpacaCrypto => spec_normalize_alpaca(text@),
                WsProvider::AlpacaStocks => spec_normalize_alpaca(text@),
                WsProvider::Binance => match spec_binance_update(text@, known@) {
                    Some(u) => seq![u],
                    None => Seq::<UpdateView>::empty(),
                },
                WsProvider::Coinbase => spec_normalize_coinbase(text@),
                WsProvider::Kraken => spec_normalize_kraken(text@, received_at@),
            },
    {
        match self.provider {
            WsProvider::AlpacaCrypto => normalize_alpaca(text),
            WsProvider::AlpacaStocks => normalize_alpaca(text),
            WsProvider::Binance => {
                let mut updates: Vec<StreamUpdate> = Vec::new();
                match normalize_binance(text, known) {
                    Some(u) => {
                        updates.push(u);
                        assert(update_views(updates@) =~= seq![update_view(u)]);
                    },
                    None => {
                        assert(update_views(updates@) =~= Seq::<UpdateView>::empty());
                    },
                }
                updates
            },
            WsProvider::Coinbase => normalize_coinbase(text),
            WsProvider::Kraken => normalize_kraken(text, received_at),
        }
    }

    /// Takes in one text frame: what it says is stored, and the events to
    /// publish for it are handed back in order.
    pub fn process(
        &self,
        text: &str,
        store: &mut MarketStore,
        known: &Vec<String>,
        received_at: &str,
    ) -> (events: Vec<Event>)
        ensures
            exists|updates: Seq<StreamUpdate>|
                update_views(updates) == (match self.provider {
                    WsProvider::AlpacaCrypto => spec_normalize_alpaca(text@),
                    WsProvider::AlpacaStocks => spec_normalize_alpaca(text@),
                    WsProvider::Binance => match spec_binance_update(text@, known@) {
                        Some(u) => seq![u],
                        None => Seq::<UpdateView>::empty(),
                    },
                    WsProvider::Coinbase => spec_normalize_coinbase(text@),
                    WsProvider::Kraken => spec_normalize_kraken(text@, received_at@),
                }) && events@ == spec_events_of(updates) && #[trigger] store_follows(
                    *old(store),
                    *final(store),
                    updates,
                ),
    {
        let updates: Vec<StreamUpdate> = self.normalize(text, known, received_at);
        apply_updates(store, &updates)
    }
}

} // verus!
