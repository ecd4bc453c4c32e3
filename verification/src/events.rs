//! The events that components exchange over the bus.

use vstd::prelude::*;

verus! {

/// A market data update in canonical form.
#[derive(Debug)]
pub enum MarketEvent {
    Quote { symbol: String, bid: i64, ask: i64, timestamp: String },
    Trade { symbol: String, price: i64, size: i64, timestamp: String },
}

impl Clone for MarketEvent {
    fn clone(&self) -> (r: Self)
        ensures
            r == *self,
    {
        match self {
            MarketEvent::Quote { symbol, bid, ask, timestamp } => MarketEvent::Quote {
                symbol: symbol.clone(),
                bid: *bid,
                ask: *ask,
                timestamp: timestamp.clone(),
            },
            MarketEvent::Trade { symbol, price, size, timestamp } => MarketEvent::Trade {
                symbol: symbol.clone(),
                price: *price,
                size: *size,
                timestamp: timestamp.clone(),
            },
        }
    }
}

/// Trade intent produced by the strategy or by the position monitor.
/// `signal` is `buy`, `sell` or `no_trade`; `confidence` is a fixed-point
/// value between zero and one.
#[derive(Debug)]
pub struct AnalysisSignal {
    pub symbol: String,
    pub signal: String,
    pub confidence: i64,
    pub thesis: String,
    pub market_context: String,
}

impl Clone for AnalysisSignal {
    fn clone(&self) -> (r: Self)
        ensures
            r == *self,
    {
        AnalysisSignal {
            symbol: self.symbol.clone(),
            signal: self.signal.clone(),
            confidence: self.confidence,
            thesis: self.thesis.clone(),
            market_context: self.market_context.clone(),
        }
    }
}

/// A concrete order intent. `order_type` is `market`, `limit` or `hft_buy`.
#[derive(Debug)]
pub struct OrderRequest {
    pub symbol: String,
    pub action: String,
    pub qty: i64,
    pub order_type: String,
    pub limit_price: Option<i64>,
    pub stop_loss: Option<i64>,
    pub take_profit: Option<i64>,
}

impl Clone for OrderRequest {
    fn clone(&self) -> (r: Self)
        ensures
            r == *self,
    {
        OrderRequest {
            symbol: self.symbol.clone(),
            action: self.action.clone(),
            qty: self.qty,
            order_type: self.order_type.clone(),
            limit_price: self.limit_price,
            stop_loss: self.stop_loss,
            take_profit: self.take_profit,
        }
    }
}

/// What became of an order at the venue.
#[derive(Debug)]
pub struct ExecutionReport {
    pub symbol: String,
    pub order_id: String,
    pub status: String,
    pub side: String,
    pub price: Option<i64>,
    pub qty: Option<i64>,
}

impl Clone for ExecutionReport {
    fn clone(&self) -> (r: Self)
        ensures
            r == *self,
    {
        ExecutionReport {
            symbol: self.symbol.clone(),
            order_id: self.order_id.clone(),
            status: self.status.clone(),
            side: self.side.clone(),
            price: self.price,
            qty: self.qty,
        }
    }
}

/// Everything that travels over the bus.
#[derive(Debug)]
pub enum Event {
    Market(MarketEvent),
    Signal(AnalysisSignal),
    Order(OrderRequest),
    Execution(ExecutionReport),
}

impl Clone for Event {
    fn clone(&self) -> (r: Self)
        ensures
            r == *self,
    {
        match self {
            Event::Market(m) => Event::Market(m.clone()),
            Event::Signal(s) => Event::Signal(s.clone()),
            Event::Order(o) => Event::Order(o.clone()),
            Event::Execution(e) => Event::Execution(e.clone()),
        }
    }
}

} // verus!
