//! The strategy engine: turns market events into trade signals under one of
//! three modes (high-frequency momentum, language-model analysis, or
//! high-frequency behind a language-model gate).

use std::collections::VecDeque;
use vstd::prelude::*;
use crate::config::AppConfig;
use crate::config::HftConfig;
use crate::data::store::NewsItem;
use crate::data::store::Quote;
use crate::decimal::format_fixed;
use crate::decimal::spec_format_fixed;
use crate::events::AnalysisSignal;
use crate::events::Event;
use crate::events::MarketEvent;
use crate::fixed::add_bps;
use crate::fixed::bps_above;
use crate::fixed::bps_at_least;
use crate::fixed::div_floor;
use crate::fixed::midpoint;
use crate::fixed::saturate;
use crate::fixed::saturated;
use crate::fixed::spec_bps_at_least;
use crate::fixed::spec_lowered;
use crate::fixed::spec_midpoint;
use crate::fixed::spec_raised;
use crate::fixed::sub_bps;
use crate::fixed::BPS_PER_UNIT;
use crate::fixed::SCALE;
use crate::shared_map::gate_entries;
use crate::shared_map::gate_new;
use crate::shared_map::gate_peek;
use crate::shared_map::gate_put;
use crate::shared_map::gate_take;
use crate::shared_map::momentum_entries;
use crate::shared_map::momentum_new;
use crate::shared_map::momentum_put;
use crate::shared_map::momentum_take;
use crate::shared_map::table_entries;
use crate::shared_map::table_get;
use crate::shared_map::table_insert;
use crate::shared_map::table_new;
use crate::shared_map::table_remove;
use crate::shared_map::GateTable;
use crate::shared_map::MomentumTable;
use crate::shared_map::SymbolTable;
use crate::text::append_str;
use crate::text::chars_of;
use crate::text::lowercase;
use crate::text::slice_chars;
use crate::text::spec_contains;
use crate::text::str_contains;
use crate::text::str_eq;
use crate::text::string_of;
use crate::text::to_lowercase;

verus! {

/// Mids kept per symbol for the momentum estimate.
pub const MID_RING_CAPACITY: usize = 30;

/// How far back, in quotes, momentum is measured at most.
pub const MAX_LOOKBACK: usize = 10;

/// The three decision modes.
#[derive(Clone, Copy, Debug, PartialEq, Eq, Structural)]
pub enum StrategyMode {
    Hft,
    Hybrid,
    Llm,
}

/// The mode a configured name selects: `hft`, `hybrid`, and the
/// language-model pipeline for anything else, whatever the case.
pub open spec fn spec_strategy_mode(name: Seq<char>) -> StrategyMode {
    if lowercase(name) == "hft"@ {
        StrategyMode::Hft
    } else if lowercase(name) == "hybrid"@ {
        StrategyMode::Hybrid
    } else {
        StrategyMode::Llm
    }
}

/// The mode a configured name selects.
pub fn strategy_mode(name: &str) -> (mode: StrategyMode)
    ensures
        mode == spec_strategy_mode(name@),
{
    let low: String = to_lowercase(name);
    if str_eq(low.as_str(), "hft") {
        StrategyMode::Hft
    } else if str_eq(low.as_str(), "hybrid") {
        StrategyMode::Hybrid
    } else {
        StrategyMode::Llm
    }
}

/// The symbol, bid and ask a market event stands for: a trade counts as a
/// quote with bid and ask at its price.
pub open spec fn spec_quote_of(event: Event) -> Option<(String, i64, i64)> {
    match event {
        Event::Market(MarketEvent::Quote { symbol, bid, ask, timestamp }) => Some(
            (symbol, bid, ask),
        ),
        Event::Market(MarketEvent::Trade { symbol, price, size, timestamp }) => Some(
            (symbol, price, price),
        ),
        _ => None,
    }
}

/// The symbol, bid and ask a market event stands for.
pub fn quote_of(event: &Event) -> (r: Option<(String, i64, i64)>)
    ensures
        r == spec_quote_of(*event),
{
    match event {
        Event::Market(MarketEvent::Quote { symbol, bid, ask, timestamp: _ }) => Some(
            (symbol.clone(), *bid, *ask),
        ),
        Event::Market(MarketEvent::Trade { symbol, price, size: _, timestamp: _ }) => Some(
            (symbol.clone(), *price, *price),
        ),
        _ => None,
    }
}

/// A quote the strategy can use: positive bid, ask not below bid.
pub open spec fn usable_quote(bid: i64, ask: i64) -> bool {
    bid > 0 && ask >= bid
}

/// The spread of a quote, in basis points of its mid, exceeds `max_spread_bps`.
pub open spec fn spread_too_wide(bid: i64, ask: i64, max_spread_bps: i64) -> bool {
    (ask - bid) * (BPS_PER_UNIT * SCALE) > max_spread_bps * spec_midpoint(bid as int, ask as int)
}

/// The ring of mids after one more: the newest thirty are kept.
pub open spec fn spec_ring_pushed(mids: Seq<i64>, mid: i64) -> Seq<i64> {
    let pushed = mids.push(mid);
    if pushed.len() > MID_RING_CAPACITY {
        pushed.subrange(pushed.len() - MID_RING_CAPACITY, pushed.len() as int)
    } else {
        pushed
    }
}

/// How far back momentum is measured in a ring: ten quotes, or as far as the
/// ring reaches.
pub open spec fn spec_lookback(ring: Seq<i64>) -> int {
    if ring.len() - 1 < MAX_LOOKBACK {
        ring.len() - 1
    } else {
        MAX_LOOKBACK as int
    }
}

/// The mid that the newest mid of a ring is measured against.
pub open spec fn spec_past_mid(ring: Seq<i64>) -> i64 {
    ring[ring.len() - 1 - spec_lookback(ring)]
}

/// A counter after one more quote.
pub open spec fn spec_counted(count: usize) -> usize {
    if count < usize::MAX {
        (count + 1) as usize
    } else {
        count
    }
}

/// What the momentum evaluator does with a quote.
#[derive(Clone, Copy, Debug, PartialEq, Eq, Structural)]
pub enum HftVerdict {
    /// The quote is unusable or its spread too wide: the state is untouched.
    Rejected,
    /// The quote is taken in; it is not yet time to evaluate.
    Collected,
    /// Evaluated: the ring is too short to measure momentum.
    NoHistory,
    /// Evaluated: the edge is below the minimum.
    NoEdge,
    /// Evaluated: buy, with these exits.
    Buy { mid: i64, past: i64, take_profit: i64, stop_loss: i64 },
}

/// The verdict on a quote, given the state before it.
pub open spec fn spec_hft_verdict(
    count: usize,
    mids: Seq<i64>,
    bid: i64,
    ask: i64,
    config: HftConfig,
) -> HftVerdict {
    let mid = spec_midpoint(bid as int, ask as int) as i64;
    let ring = spec_ring_pushed(mids, mid);
    if !usable_quote(bid, ask) || spread_too_wide(bid, ask, config.max_spread_bps) {
        HftVerdict::Rejected
    } else if spec_counted(count) < config.evaluate_every_quotes {
        HftVerdict::Collected
    } else if spec_lookback(ring) == 0 {
        HftVerdict::NoHistory
    } else if !spec_bps_at_least(
        mid - spec_past_mid(ring),
        spec_past_mid(ring) as int,
        config.min_edge_bps as int,
    ) {
        HftVerdict::NoEdge
    } else {
        HftVerdict::Buy {
            mid,
            past: spec_past_mid(ring),
            take_profit: spec_raised(
                mid as int,
                config.take_profit_bps as int,
                BPS_PER_UNIT as int,
            ) as i64,
            stop_loss: spec_lowered(mid as int, config.stop_loss_bps as int, BPS_PER_UNIT as int) as i64,
        }
    }
}

/// The exits as the signal's market context carries them.
pub open spec fn spec_exit_context(take_profit: i64, stop_loss: i64) -> Seq<char> {
    "tp="@ + spec_format_fixed(take_profit as int) + ", sl="@ + spec_format_fixed(stop_loss as int)
}

/// `(hi - lo) / den` in basis points, rounded down and pinned into `i64`.
pub open spec fn spec_bps_of(hi: i64, lo: i64, den: i64) -> int {
    saturated(((hi - lo) * (BPS_PER_UNIT * SCALE)) / (den as int))
}

/// The thesis of a momentum signal. It starts with `HFT`, by which the risk
/// gate knows it.
pub open spec fn spec_hft_thesis(bid: i64, ask: i64, mid: i64, past: i64) -> Seq<char> {
    "HFT momentum: edge_bps="@ + spec_format_fixed(spec_bps_of(mid, past, past))
        + ", spread_bps="@ + spec_format_fixed(spec_bps_of(ask, bid, mid)) + ", mid="@
        + spec_format_fixed(mid as int) + ", past="@ + spec_format_fixed(past as int)
}

/// The buy signal of the momentum evaluator.
pub open spec fn is_hft_signal(
    signal: AnalysisSignal,
    symbol: Seq<char>,
    bid: i64,
    ask: i64,
    mid: i64,
    past: i64,
    take_profit: i64,
    stop_loss: i64,
) -> bool {
    &&& signal.symbol@ == symbol
    &&& signal.signal@ == "buy"@
    &&& signal.confidence == SCALE
    &&& signal.thesis@ == spec_hft_thesis(bid, ask, mid, past)
    &&& signal.market_context@ == spec_exit_context(take_profit, stop_loss)
}

/// `(hi - lo) / den` in basis points, for a positive `den`.
pub fn bps_of(hi: i64, lo: i64, den: i64) -> (r: i64)
    requires
        den > 0,
    ensures
        r == spec_bps_of(hi, lo, den),
{
    let diff: i128 = hi as i128 - lo as i128;
    let scaled: i128 = diff * 1_000_000_000_000i128;
    saturate(div_floor(scaled, den as i128))
}

/// What one quote does to a symbol's state, and the signal it gives: the
/// state `after` follows from the count, ring and last mid before it by the
/// verdict on the quote.
pub open spec fn hft_step(
    count: usize,
    ring: Seq<i64>,
    last: Option<i64>,
    after: HftSymbolState,
    signal: Option<AnalysisSignal>,
    symbol: Seq<char>,
    bid: i64,
    ask: i64,
    config: HftConfig,
) -> bool {
    let verdict = spec_hft_verdict(count, ring, bid, ask, config);
    let mid = spec_midpoint(bid as int, ask as int) as i64;
    &&& match verdict {
        HftVerdict::Rejected => after.count() == count && after.ring() == ring && after.last()
            == last,
        HftVerdict::Collected => after.count() == spec_counted(count) && after.ring()
            == spec_ring_pushed(ring, mid) && after.last() == Some(mid),
        _ => after.count() == 0 && after.ring() == spec_ring_pushed(ring, mid) && after.last()
            == Some(mid),
    }
    &&& match verdict {
        HftVerdict::Buy { mid: m, past, take_profit, stop_loss } => signal matches Some(s)
            && is_hft_signal(s, symbol, bid, ask, m, past, take_profit, stop_loss),
        _ => signal is None,
    }
}

/// What one quote for `symbol` does to the states of all symbols: the
/// symbol's state, fresh where the symbol was not seen before, takes the
/// step; every other state stays.
pub open spec fn hft_engine_step(
    before: Map<Seq<char>, HftSymbolState>,
    after: Map<Seq<char>, HftSymbolState>,
    signal: Option<AnalysisSignal>,
    symbol: Seq<char>,
    bid: i64,
    ask: i64,
    config: HftConfig,
) -> bool {
    let seen = before.contains_key(symbol);
    &&& after.dom() == before.dom().insert(symbol)
    &&& forall|k: Seq<char>| k != symbol && before.contains_key(k)
        ==> #[trigger] after[k] == before[k]
    &&& hft_step(
        if seen {
            before[symbol].count()
        } else {
            0
        },
        if seen {
            before[symbol].ring()
        } else {
            Seq::<i64>::empty()
        },
        if seen {
            before[symbol].last()
        } else {
            None
        },
        after[symbol],
        signal,
        symbol,
        bid,
        ask,
        config,
    )
}

/// Per-symbol state of the momentum evaluator: quotes taken in since the
/// last evaluation, and the newest mids (at most thirty, all positive).
pub struct HftSymbolState {
    quotes_since_eval: usize,
    last_mid: Option<i64>,
    mids: VecDeque<i64>,
}

impl HftSymbolState {
    #[verifier::type_invariant]
    spec fn inv(self) -> bool {
        &&& self.mids@.len() <= MID_RING_CAPACITY
        &&& forall|i: int| 0 <= i < self.mids@.len() ==> #[trigger] self.mids@[i] > 0
    }

    /// Quotes taken in since the last evaluation.
    pub closed spec fn count(&self) -> usize {
        self.quotes_since_eval
    }

    /// The mids held, oldest first.
    pub closed spec fn ring(&self) -> Seq<i64> {
        self.mids@
    }

    /// The mid of the last quote taken in.
    pub closed spec fn last(&self) -> Option<i64> {
        self.last_mid
    }

    /// The state of a symbol no quote was seen for.
    pub fn new() -> (s: Self)
        ensures
            s.count() == 0,
            s.ring() == Seq::<i64>::empty(),
            s.last() is None,
    {
        HftSymbolState { quotes_since_eval: 0, last_mid: None, mids: VecDeque::new() }
    }

    /// Number of mids held.
    pub fn ring_len(&self) -> (n: usize)
        ensures
            n == self.ring().len(),
            n <= MID_RING_CAPACITY,
    {
        proof {
            use_type_invariant(self);
        }
        self.mids.len()
    }

    /// Takes in one quote and decides.
    ///
    /// An unusable quote or one with too wide a spread leaves the state
    /// untouched. Any other quote puts its mid into the ring and counts;
    /// every `evaluate_every_quotes`-th such quote resets the count and is
    /// evaluated: the mid is held against the mid ten quotes back (or the
    /// oldest held), and an edge of at least `min_edge_bps` gives a buy
    /// signal whose exits lie `take_profit_bps` above and `stop_loss_bps`
    /// below the mid.
    pub fn evaluate(
        &mut self,
        symbol: &str,
        bid: i64,
        ask: i64,
        config: &HftConfig,
    ) -> (signal: Option<
        AnalysisSignal,
    >)
        ensures
            hft_step(
                old(self).count(),
                old(self).ring(),
                old(self).last(),
                *final(self),
                signal,
                symbol@,
                bid,
                ask,
                *config,
            ),
    {
        proof {
            use_type_invariant(&*self);
        }
        if bid <= 0 || ask < bid {
            return None;
        }
        let mid: i64 = midpoint(bid, ask);
        assert(mid > 0);
        if bps_above(ask, bid, mid, config.max_spread_bps) {
            return None;
        }
        let mut ring: VecDeque<i64> = VecDeque::new();
        core::mem::swap(&mut self.mids, &mut ring);
        let ghost before = ring@;
        ring.push_back(mid);
        if ring.len() > MID_RING_CAPACITY {
            let _oldest: Option<i64> = ring.pop_front();
        }
        assert(ring@ =~= spec_ring_pushed(before, mid));
        let n: usize = ring.len();
        let lookback: usize = if n - 1 < MAX_LOOKBACK {
            n - 1
        } else {
            MAX_LOOKBACK
        };
        let past: i64 = ring[n - 1 - lookback];
        self.mids = ring;
        self.last_mid = Some(mid);
        let counted: usize = if self.quotes_since_eval < usize::MAX {
            self.quotes_since_eval + 1
        } else {
            self.quotes_since_eval
        };
        if counted < config.evaluate_every_quotes {
            self.quotes_since_eval = counted;
            return None;
        }
        self.quotes_since_eval = 0;
        if lookback == 0 {
            return None;
        }
        if !bps_at_least(mid, past, past, config.min_edge_bps) {
            return None;
        }
        let take_profit: i64 = add_bps(mid, config.take_profit_bps);
        let stop_loss: i64 = sub_bps(mid, config.stop_loss_bps);
        let mut thesis: String = "HFT momentum: edge_bps=".to_owned();
        let edge_text: String = format_fixed(bps_of(mid, past, past));
        append_str(&mut thesis, edge_text.as_str());
        append_str(&mut thesis, ", spread_bps=");
        let spread_text: String = format_fixed(bps_of(ask, bid, mid));
        append_str(&mut thesis, spread_text.as_str());
        append_str(&mut thesis, ", mid=");
        let mid_text: String = format_fixed(mid);
        append_str(&mut thesis, mid_text.as_str());
        append_str(&mut thesis, ", past=");
        let past_text: String = format_fixed(past);
        append_str(&mut thesis, past_text.as_str());
        let mut context: String = "tp=".to_owned();
        let tp_text: String = format_fixed(take_profit);
        append_str(&mut context, tp_text.as_str());
        append_str(&mut context, ", sl=");
        let sl_text: String = format_fixed(stop_loss);
        append_str(&mut context, sl_text.as_str());
        Some(
            AnalysisSignal {
                symbol: symbol.to_owned(),
                signal: "buy".to_owned(),
                confidence: SCALE,
                thesis,
                market_context: context,
            },
        )
    }
}

/// Whether the director's reply declines: it says `no_trade` or `no trade`,
/// or speaks neither of a trade nor of an opportunity.
pub open spec fn spec_declines(reply: Seq<char>) -> bool {
    let low = lowercase(reply);
    spec_contains(low, "no_trade"@) || spec_contains(low, "no trade"@) || (!spec_contains(
        low,
        "trade"@,
    ) && !spec_contains(low, "opportunity"@))
}

/// Whether the director's reply declines to trade.
pub fn declines(reply: &str) -> (r: bool)
    ensures
        r == spec_declines(reply@),
{
    let low: String = to_lowercase(reply);
    str_contains(low.as_str(), "no_trade") || str_contains(low.as_str(), "no trade") || (
    !str_contains(low.as_str(), "trade") && !str_contains(low.as_str(), "opportunity"))
}

/// Per-symbol state of the hybrid gate.
#[derive(Debug)]
pub struct HybridGateState {
    pub quotes_until_refresh: usize,
    pub cooldown_quotes_remaining: usize,
    pub allowed: bool,
    pub last_reason: Option<String>,
}

/// What one quote does to the hybrid gate.
#[derive(Clone, Copy, Debug, PartialEq, Eq, Structural)]
pub struct GateTick {
    /// The director is to be asked again.
    pub should_refresh: bool,
    /// The hybrid gate lets the momentum evaluator run.
    pub currently_allowed: bool,
}

/// A counter after one quote: one less, never below zero.
pub open spec fn spec_ticked(count: usize) -> usize {
    if count > 0 {
        (count - 1) as usize
    } else {
        0
    }
}

/// Whether a quote makes the hybrid gate ask the director again: the refresh count
/// runs out on it and no cooldown was running when it came.
pub open spec fn spec_should_refresh(until_refresh: usize, cooldown: usize) -> bool {
    spec_ticked(until_refresh) == 0 && cooldown == 0
}

impl HybridGateState {
    /// The hybrid gate of a symbol no quote was seen for: open, first refresh after
    /// `gate_refresh_quotes` quotes.
    pub fn new(gate_refresh_quotes: usize) -> (g: Self)
        ensures
            g.quotes_until_refresh == gate_refresh_quotes,
            g.cooldown_quotes_remaining == 0,
            g.allowed,
            g.last_reason is None,
    {
        HybridGateState {
            quotes_until_refresh: gate_refresh_quotes,
            cooldown_quotes_remaining: 0,
            allowed: true,
            last_reason: None,
        }
    }

    /// Whether the hybrid gate lets the momentum evaluator run.
    pub open spec fn spec_open(&self) -> bool {
        self.allowed && self.cooldown_quotes_remaining == 0
    }

    /// Whether the hybrid gate lets the momentum evaluator run.
    pub fn is_open(&self) -> (r: bool)
        ensures
            r == self.spec_open(),
    {
        self.allowed && self.cooldown_quotes_remaining == 0
    }

    /// Counts one quote. Both counters go down by one. A quote that finds a
    /// cooldown running keeps the hybrid gate closed and never refreshes; a quote
    /// on which the refresh count runs out with no cooldown running asks
    /// for a refresh and starts the refresh count anew.
    pub fn tick(&mut self, gate_refresh_quotes: usize) -> (t: GateTick)
        ensures
            final(self).cooldown_quotes_remaining == spec_ticked(
                old(self).cooldown_quotes_remaining,
            ),
            final(self).allowed == (old(self).allowed && old(self).cooldown_quotes_remaining == 0),
            t.should_refresh == spec_should_refresh(
                old(self).quotes_until_refresh,
                old(self).cooldown_quotes_remaining,
            ),
            final(self).quotes_until_refresh == if t.should_refresh {
                gate_refresh_quotes
            } else {
                spec_ticked(old(self).quotes_until_refresh)
            },
            final(self).last_reason == old(self).last_reason,
            t.currently_allowed == final(self).spec_open(),
            old(self).cooldown_quotes_remaining > 0 ==> !t.currently_allowed && !t.should_refresh,
    {
        let cooling: bool = self.cooldown_quotes_remaining > 0;
        if cooling {
            self.cooldown_quotes_remaining = self.cooldown_quotes_remaining - 1;
            self.allowed = false;
        }
        if self.quotes_until_refresh > 0 {
            self.quotes_until_refresh = self.quotes_until_refresh - 1;
        }
        let should_refresh: bool = self.quotes_until_refresh == 0 && !cooling;
        if should_refresh {
            self.quotes_until_refresh = gate_refresh_quotes;
        }
        GateTick {
            should_refresh,
            currently_allowed: self.allowed && self.cooldown_quotes_remaining == 0,
        }
    }

    /// Takes in the director's reply: the hybrid gate opens unless the reply
    /// declines; a declining reply closes it for `no_trade_cooldown_quotes`
    /// quotes.
    pub fn apply_director(&mut self, reply: &str, no_trade_cooldown_quotes: usize)
        ensures
            final(self).allowed == !spec_declines(reply@),
            final(self).cooldown_quotes_remaining == if spec_declines(reply@) {
                no_trade_cooldown_quotes
            } else {
                old(self).cooldown_quotes_remaining
            },
            final(self).quotes_until_refresh == old(self).quotes_until_refresh,
            final(self).last_reason matches Some(r) && r@ == reply@,
    {
        let declined: bool = declines(reply);
        self.allowed = !declined;
        self.last_reason = Some(reply.to_owned());
        if declined {
            self.cooldown_quotes_remaining = no_trade_cooldown_quotes;
        }
    }
}

/// A gate that a declining director closed stays closed, and does not ask
/// again, for every one of the next `cooldown` quotes.
pub proof fn lemma_cooldown_blocks(until_refresh: usize, cooldown: usize)
    requires
        cooldown > 0,
    ensures
        !spec_should_refresh(until_refresh, cooldown),
        spec_ticked(cooldown) == cooldown - 1,
{
}

/// The headline section of an analysis prompt for a list of headlines, as
/// Rust's debug formatting writes a list of strings.
pub uninterp spec fn debug_list(items: Seq<Seq<char>>) -> Seq<char>;

/// The views of a list of strings.
pub open spec fn views_of(items: Seq<String>) -> Seq<Seq<char>> {
    Seq::new(items.len(), |i: int| items[i]@)
}

/// `format!` with `{:?}` on a list of strings: the list in debug form. The
/// result depends on the strings alone.
#[verifier::external_body]
pub(crate) fn debug_text(items: &Vec<String>) -> (r: String)
    ensures
        r@ == debug_list(views_of(items@)),
{
    format!("{:?}", items)
}

/// News items looked at for a prompt at most.
pub const NEWS_IN_PROMPT: usize = 5;

/// The headlines of the first five news items, skipping items without one.
pub open spec fn spec_headlines(news: Seq<NewsItem>) -> Seq<Seq<char>>
    decreases news.len(),
{
    if news.len() == 0 {
        Seq::<Seq<char>>::empty()
    } else if news.len() > NEWS_IN_PROMPT {
        spec_headlines(news.take(NEWS_IN_PROMPT as int))
    } else {
        match news.last().headline {
            Some(h) => spec_headlines(news.drop_last()).push(h@),
            None => spec_headlines(news.drop_last()),
        }
    }
}

/// The news section of an analysis prompt.
pub open spec fn spec_news_summary(news: Seq<NewsItem>) -> Seq<char> {
    if news.len() == 0 {
        "No recent news."@
    } else {
        "Recent News: "@ + debug_list(spec_headlines(news))
    }
}

/// The news section of an analysis prompt.
pub fn news_summary(news: &Vec<NewsItem>) -> (r: String)
    ensures
        r@ == spec_news_summary(news@),
{
    if news.len() == 0 {
        return "No recent news.".to_owned();
    }
    let limit: usize = if news.len() > NEWS_IN_PROMPT {
        NEWS_IN_PROMPT
    } else {
        news.len()
    };
    let mut headlines: Vec<String> = Vec::new();
    let mut i: usize = 0;
    assert(news@.take(0).len() == 0);
    while i < limit
        invariant
            i <= limit,
            limit <= news.len(),
            limit <= NEWS_IN_PROMPT,
            views_of(headlines@) == spec_headlines(news@.take(i as int)),
        decreases limit - i,
    {
        proof {
            let next = news@.take(i + 1);
            assert(next.drop_last() =~= news@.take(i as int));
            assert(next.last() == news@[i as int]);
        }
        let ghost before = headlines@;
        match &news[i].headline {
            Some(h) => {
                headlines.push(h.clone());
                assert(views_of(headlines@) =~= views_of(before).push(h@));
            },
            None => {},
        }
        i = i + 1;
    }
    proof {
        if news.len() > NEWS_IN_PROMPT {
        } else {
            assert(news@.take(limit as int) =~= news@);
        }
    }
    let mut out: String = "Recent News: ".to_owned();
    let listed: String = debug_text(&headlines);
    append_str(&mut out, listed.as_str());
    out
}

/// The header of the quote table.
pub const QUOTE_TABLE_HEADER: &'static str =
    "Recent Quote History (Last 50 Quotes):\nTime | Bid | BidSz | Ask | AskSz\n";

/// The time of day of a timestamp: its characters 11 to 22, as far as it has
/// them; a timestamp of at most eleven characters is taken whole.
pub open spec fn spec_time_short(timestamp: Seq<char>) -> Seq<char> {
    if timestamp.len() > 11 {
        timestamp.subrange(
            11,
            if timestamp.len() < 23 {
                timestamp.len() as int
            } else {
                23
            },
        )
    } else {
        timestamp
    }
}

/// One line of the quote table.
pub open spec fn spec_quote_line(quote: Quote) -> Seq<char> {
    spec_time_short(quote.timestamp@) + " | "@ + spec_format_fixed(quote.bid_price as int)
        + " | "@ + spec_format_fixed(quote.bid_size as int) + " | "@ + spec_format_fixed(
        quote.ask_price as int,
    ) + " | "@ + spec_format_fixed(quote.ask_size as int) + "\n"@
}

/// The lines of the quote table, oldest quote first.
pub open spec fn spec_quote_lines(history: Seq<Quote>) -> Seq<char>
    decreases history.len(),
{
    if history.len() == 0 {
        Seq::<char>::empty()
    } else {
        spec_quote_lines(history.drop_last()) + spec_quote_line(history.last())
    }
}

/// One line of the quote table.
pub fn quote_line(quote: &Quote) -> (line: String)
    ensures
        line@ == spec_quote_line(*quote),
{
    let stamp: Vec<char> = chars_of(quote.timestamp.as_str());
    let mut line: String = if stamp.len() > 11 {
        let end: usize = if stamp.len() < 23 {
            stamp.len()
        } else {
            23
        };
        let cut: Vec<char> = slice_chars(&stamp, 11, end);
        string_of(&cut)
    } else {
        quote.timestamp.clone()
    };
    assert(line@ == spec_time_short(quote.timestamp@));
    append_str(&mut line, " | ");
    let bid: String = format_fixed(quote.bid_price);
    append_str(&mut line, bid.as_str());
    append_str(&mut line, " | ");
    let bid_size: String = format_fixed(quote.bid_size);
    append_str(&mut line, bid_size.as_str());
    append_str(&mut line, " | ");
    let ask: String = format_fixed(quote.ask_price);
    append_str(&mut line, ask.as_str());
    append_str(&mut line, " | ");
    let ask_size: String = format_fixed(quote.ask_size);
    append_str(&mut line, ask_size.as_str());
    append_str(&mut line, "\n");
    line
}

/// The quote history as the table the director reads.
pub fn format_quote_history_table(history: &Vec<Quote>) -> (table: String)
    ensures
        table@ == QUOTE_TABLE_HEADER@ + spec_quote_lines(history@),
{
    let mut table: String = QUOTE_TABLE_HEADER.to_owned();
    let mut i: usize = 0;
    assert(history@.take(0).len() == 0);
    assert(table@ =~= QUOTE_TABLE_HEADER@ + spec_quote_lines(history@.take(0)));
    while i < history.len()
        invariant
            i <= history.len(),
            table@ == QUOTE_TABLE_HEADER@ + spec_quote_lines(history@.take(i as int)),
        decreases history.len() - i,
    {
        let ghost before = table@;
        proof {
            let next = history@.take(i + 1);
            assert(next.drop_last() =~= history@.take(i as int));
            assert(next.last() == history@[i as int]);
        }
        let line: String = quote_line(&history[i]);
        append_str(&mut table, line.as_str());
        assert(table@ =~= QUOTE_TABLE_HEADER@ + (spec_quote_lines(history@.take(i as int))
            + spec_quote_line(history@[i as int])));
        i = i + 1;
    }
    assert(history@.take(history.len() as int) =~= history@);
    table
}

/// The market data and news a prompt carries.
pub fn combined_data(history: &Vec<Quote>, news: &Vec<NewsItem>) -> (r: String)
    ensures
        r@ == QUOTE_TABLE_HEADER@ + spec_quote_lines(history@) + "\n"@ + spec_news_summary(news@),
{
    let mut out: String = format_quote_history_table(history);
    append_str(&mut out, "\n");
    let summary: String = news_summary(news);
    append_str(&mut out, summary.as_str());
    out
}

/// The question put to the director.
pub fn director_prompt(symbol: &str, market_context: &str) -> (r: String)
    ensures
        r@ == "Symbol: "@ + symbol@ + ", Market Context: "@ + market_context@,
{
    let mut out: String = "Symbol: ".to_owned();
    append_str(&mut out, symbol);
    append_str(&mut out, ", Market Context: ");
    append_str(&mut out, market_context);
    out
}

/// The question put to the quant.
pub fn quant_prompt(thesis: &str, market_data: &str) -> (r: String)
    ensures
        r@ == "Thesis: "@ + thesis@ + "\n\nMarket Data:\n"@ + market_data@,
{
    let mut out: String = "Thesis: ".to_owned();
    append_str(&mut out, thesis);
    append_str(&mut out, "\n\nMarket Data:\n");
    append_str(&mut out, market_data);
    out
}

/// The buy signal of the language-model pipeline: the director's reply is
/// its thesis, the data it was shown its context.
pub fn llm_signal(
    symbol: &str,
    director_reply: &str,
    market_context: &str,
) -> (signal: AnalysisSignal)
    ensures
        signal.symbol@ == symbol@,
        signal.signal@ == "buy"@,
        signal.confidence == 0,
        signal.thesis@ == director_reply@,
        signal.market_context@ == market_context@,
{
    AnalysisSignal {
        symbol: symbol.to_owned(),
        signal: "buy".to_owned(),
        confidence: 0,
        thesis: director_reply.to_owned(),
        market_context: market_context.to_owned(),
    }
}

/// Whether a symbol is analyzed on this quote in language-model mode, given
/// the quotes its cooldown still has to run and the history held.
pub open spec fn spec_llm_due(
    cooldown: Option<i64>,
    history_len: usize,
    warmup_count: usize,
) -> bool {
    !(cooldown matches Some(c) && c > 0) && history_len >= warmup_count
}

/// The cooldowns after a quote for `symbol`: a running cooldown goes down by
/// one, a finished one is forgotten.
pub open spec fn spec_cooldowns_after(cooldowns: Map<Seq<char>, i64>, symbol: Seq<char>) -> Map<
    Seq<char>,
    i64,
> {
    if cooldowns.contains_key(symbol) {
        if cooldowns[symbol] > 0 {
            cooldowns.insert(symbol, (cooldowns[symbol] - 1) as i64)
        } else {
            cooldowns.remove(symbol)
        }
    } else {
        cooldowns
    }
}

/// What one quote does in hybrid mode before any reply of the director.
#[derive(Clone, Copy, Debug, PartialEq, Eq, Structural)]
pub enum HybridStep {
    /// The quote is unusable: nothing changed.
    Rejected,
    /// The hybrid gate asks for a refresh and the history is warm: ask the
    /// director, hand the reply in, then evaluate.
    AskDirector,
    /// No refresh is due, or the history is not warm yet: evaluate.
    Evaluate,
}

/// The strategy engine's own state.
pub struct StrategyEngine {
    pub config: AppConfig,
    pub cooldowns: SymbolTable,
    pub hft_state: MomentumTable,
    pub hybrid_gate: GateTable,
}

impl StrategyEngine {
    /// Quotes each symbol's cooldown still has to run (language-model mode).
    pub open spec fn cooldowns(&self) -> Map<Seq<char>, i64> {
        table_entries(self.cooldowns)
    }

    /// The momentum state of each symbol seen.
    pub open spec fn hft_states(&self) -> Map<Seq<char>, HftSymbolState> {
        momentum_entries(self.hft_state)
    }

    /// The hybrid gate of each symbol seen (hybrid mode).
    pub open spec fn gates(&self) -> Map<Seq<char>, HybridGateState> {
        gate_entries(self.hybrid_gate)
    }

    /// An engine that has seen nothing.
    pub fn new(config: AppConfig) -> (e: Self)
        ensures
            e.config == config,
            e.cooldowns() == Map::<Seq<char>, i64>::empty(),
            e.hft_states() == Map::<Seq<char>, HftSymbolState>::empty(),
            e.gates() == Map::<Seq<char>, HybridGateState>::empty(),
    {
        StrategyEngine {
            config,
            cooldowns: table_new(),
            hft_state: momentum_new(),
            hybrid_gate: gate_new(),
        }
    }

    /// The mode the engine runs in.
    pub fn mode(&self) -> (m: StrategyMode)
        ensures
            m == spec_strategy_mode(self.config.strategy_mode@),
    {
        strategy_mode(self.config.strategy_mode.as_str())
    }

    /// High-frequency mode: takes in a quote for `symbol` and gives the buy
    /// signal where the momentum evaluator decides for one. A symbol seen
    /// for the first time starts from an empty state.
    pub fn evaluate_hft(
        &mut self,
        symbol: &str,
        bid: i64,
        ask: i64,
    ) -> (signal: Option<AnalysisSignal>)
        ensures
            final(self).config == old(self).config,
            final(self).cooldowns() == old(self).cooldowns(),
            final(self).gates() == old(self).gates(),
            hft_engine_step(
                old(self).hft_states(),
                final(self).hft_states(),
                signal,
                symbol@,
                bid,
                ask,
                old(self).config.hft,
            ),
    {
        let ghost before = self.hft_states();
        let mut state: HftSymbolState = match momentum_take(&mut self.hft_state, symbol) {
            Some(s) => s,
            None => HftSymbolState::new(),
        };
        let signal: Option<AnalysisSignal> = state.evaluate(symbol, bid, ask, &self.config.hft);
        momentum_put(&mut self.hft_state, symbol, state);
        assert(self.hft_states().dom() =~= before.dom().insert(symbol@));
        signal
    }

    /// Language-model mode: counts a quote for `symbol` and tells whether
    /// the symbol is to be analyzed now. A running cooldown goes down by one
    /// and blocks; otherwise the symbol is analyzed once the store holds
    /// `warmup_count` quotes of it.
    pub fn llm_due(&mut self, symbol: &str, history_len: usize) -> (due: bool)
        ensures
            final(self).config == old(self).config,
            final(self).hft_states() == old(self).hft_states(),
            final(self).gates() == old(self).gates(),
            final(self).cooldowns() == spec_cooldowns_after(old(self).cooldowns(), symbol@),
            due == spec_llm_due(
                if old(self).cooldowns().contains_key(symbol@) {
                    Some(old(self).cooldowns()[symbol@])
                } else {
                    None
                },
                history_len,
                old(self).config.warmup_count,
            ),
    {
        match table_get(&self.cooldowns, symbol) {
            Some(remaining) => {
                if remaining > 0 {
                    table_insert(&mut self.cooldowns, symbol, remaining - 1);
                    return false;
                }
                table_remove(&mut self.cooldowns, symbol);
            },
            None => {},
        }
        history_len >= self.config.warmup_count
    }

    /// Language-model mode: takes in the director's reply for `symbol`. A
    /// declining reply starts the symbol's cooldown and ends the analysis;
    /// any other reply lets it go on to the quant.
    pub fn llm_director_reply(&mut self, symbol: &str, reply: &str) -> (go_on: bool)
        ensures
            final(self).config == old(self).config,
            final(self).hft_states() == old(self).hft_states(),
            final(self).gates() == old(self).gates(),
            go_on == !spec_declines(reply@),
            final(self).cooldowns() == if spec_declines(reply@) {
                old(self).cooldowns().insert(
                    symbol@,
                    saturated(old(self).config.no_trade_cooldown_quotes as int) as i64,
                )
            } else {
                old(self).cooldowns()
            },
    {
        if declines(reply) {
            let quotes: i64 = saturate(self.config.no_trade_cooldown_quotes as i128);
            table_insert(&mut self.cooldowns, symbol, quotes);
            false
        } else {
            true
        }
    }

    /// Hybrid mode, first half: counts a quote at the symbol's gate and
    /// tells what is next. A symbol seen for the first time starts with an
    /// open gate.
    pub fn hybrid_begin(&mut self, symbol: &str, bid: i64, ask: i64, history_len: usize) -> (step: HybridStep)
        ensures
            final(self).config == old(self).config,
            final(self).cooldowns() == old(self).cooldowns(),
            final(self).hft_states() == old(self).hft_states(),
            !(bid > 0 && ask > 0 && ask >= bid)
                ==> step == HybridStep::Rejected && final(self).gates() == old(self).gates(),
            bid > 0 && ask > 0 && ask >= bid ==> {
                let fresh = !old(self).gates().contains_key(symbol@);
                let until = if fresh {
                    old(self).config.hybrid.gate_refresh_quotes
                } else {
                    old(self).gates()[symbol@].quotes_until_refresh
                };
                let cooldown = if fresh {
                    0
                } else {
                    old(self).gates()[symbol@].cooldown_quotes_remaining
                };
                let allowed = fresh || old(self).gates()[symbol@].allowed;
                let refresh = spec_should_refresh(until, cooldown);
                let after = final(self).gates()[symbol@];
                &&& final(self).gates().dom() == old(self).gates().dom().insert(symbol@)
                &&& forall|k: Seq<char>|
                    k != symbol@ && old(self).gates().contains_key(k)
                        ==> #[trigger] final(self).gates()[k] == old(self).gates()[k]
                &&& after.cooldown_quotes_remaining == spec_ticked(cooldown)
                &&& after.allowed == (allowed && cooldown == 0)
                &&& after.last_reason == if fresh {
                    None::<String>
                } else {
                    old(self).gates()[symbol@].last_reason
                }
                &&& after.quotes_until_refresh == if refresh {
                    old(self).config.hybrid.gate_refresh_quotes
                } else {
                    spec_ticked(until)
                }
                &&& step == if refresh && history_len >= old(self).config.warmup_count {
                    HybridStep::AskDirector
                } else {
                    HybridStep::Evaluate
                }
            },
    {
        if bid <= 0 || ask <= 0 || ask < bid {
            return HybridStep::Rejected;
        }
        let ghost before = self.gates();
        let mut gate: HybridGateState = match gate_take(&mut self.hybrid_gate, symbol) {
            Some(g) => g,
            None => HybridGateState::new(self.config.hybrid.gate_refresh_quotes),
        };
        let tick: GateTick = gate.tick(self.config.hybrid.gate_refresh_quotes);
        gate_put(&mut self.hybrid_gate, symbol, gate);
        assert(self.gates().dom() =~= before.dom().insert(symbol@));
        if tick.should_refresh && history_len >= self.config.warmup_count {
            HybridStep::AskDirector
        } else {
            HybridStep::Evaluate
        }
    }

    /// Hybrid mode: takes in the director's reply at the symbol's gate.
    pub fn hybrid_director_reply(&mut self, symbol: &str, reply: &str)
        ensures
            final(self).config == old(self).config,
            final(self).cooldowns() == old(self).cooldowns(),
            final(self).hft_states() == old(self).hft_states(),
            final(self).gates().dom() == old(self).gates().dom().insert(symbol@),
            forall|k: Seq<char>|
                k != symbol@ && old(self).gates().contains_key(k)
                    ==> #[trigger] final(self).gates()[k] == old(self).gates()[k],
            ({
                let after = final(self).gates()[symbol@];
                &&& after.quotes_until_refresh == if old(self).gates().contains_key(symbol@) {
                    old(self).gates()[symbol@].quotes_until_refresh
                } else {
                    0
                }
                &&& !spec_declines(reply@) && !old(self).gates().contains_key(symbol@)
                    ==> after.cooldown_quotes_remaining == 0
                &&& after.allowed == !spec_declines(reply@)
                &&& spec_declines(reply@)
                    ==> after.cooldown_quotes_remaining == old(self).config.hybrid.no_trade_cooldown_quotes
                &&& !spec_declines(reply@) && old(self).gates().contains_key(symbol@)
                    ==> after.cooldown_quotes_remaining == old(self).gates()[symbol@].cooldown_quotes_remaining
                &&& after.last_reason matches Some(r) && r@ == reply@
            }),
    {
        let ghost before = self.gates();
        let mut gate: HybridGateState = match gate_take(&mut self.hybrid_gate, symbol) {
            Some(g) => g,
            None => HybridGateState {
                quotes_until_refresh: 0,
                cooldown_quotes_remaining: 0,
                allowed: false,
                last_reason: None,
            },
        };
        gate.apply_director(reply, self.config.hybrid.no_trade_cooldown_quotes);
        gate_put(&mut self.hybrid_gate, symbol, gate);
        assert(self.gates().dom() =~= before.dom().insert(symbol@));
    }

    /// Whether the hybrid gate of `symbol` lets the momentum evaluator run. A
    /// symbol without gate is not let through.
    pub fn gate_open(&self, symbol: &str) -> (open: bool)
        ensures
            open == (self.gates().contains_key(symbol@) && self.gates()[symbol@].spec_open()),
    {
        match gate_peek(&self.hybrid_gate, symbol) {
            Some(gate) => gate.0 && gate.1 == 0,
            None => false,
        }
    }

    /// Hybrid mode, second half: runs the momentum evaluator where the
    /// symbol's gate is open. Behind a closed gate nothing is taken in and
    /// no signal is given.
    pub fn hybrid_evaluate(
        &mut self,
        symbol: &str,
        bid: i64,
        ask: i64,
    ) -> (signal: Option<AnalysisSignal>)
        ensures
            final(self).config == old(self).config,
            final(self).cooldowns() == old(self).cooldowns(),
            final(self).gates() == old(self).gates(),
            if old(self).gates().contains_key(symbol@) && old(self).gates()[symbol@].spec_open() {
                hft_engine_step(
                    old(self).hft_states(),
                    final(self).hft_states(),
                    signal,
                    symbol@,
                    bid,
                    ask,
                    old(self).config.hft,
                )
            } else {
                signal is None && final(self).hft_states() == old(self).hft_states()
            },
    {
        if self.gate_open(symbol) {
            self.evaluate_hft(symbol, bid, ask)
        } else {
            None
        }
    }
}

} // verus!
