//! Venue-neutral order and account types.

use vstd::prelude::*;

verus! {

/// What the venue reports of the account, in fixed-point units.
#[derive(Debug)]
pub struct AccountSummary {
    pub buying_power: Option<i64>,
    pub cash: Option<i64>,
    pub portfolio_value: Option<i64>,
}

impl Clone for AccountSummary {
    fn clone(&self) -> (r: Self)
        ensures
            r == *self,
    {
        AccountSummary {
            buying_power: self.buying_power,
            cash: self.cash,
            portfolio_value: self.portfolio_value,
        }
    }
}

/// A holding at the venue.
#[derive(Debug)]
pub struct Position {
    pub symbol: String,
    pub qty: i64,
    pub avg_entry_price: Option<i64>,
}

impl Clone for Position {
    fn clone(&self) -> (r: Self)
        ensures
            r == *self,
    {
        Position {
            symbol: self.symbol.clone(),
            qty: self.qty,
            avg_entry_price: self.avg_entry_price,
        }
    }
}

#[derive(Clone, Copy, Debug, PartialEq, Eq, Structural)]
pub enum Side {
    Buy,
    Sell,
}

#[derive(Clone, Copy, Debug, PartialEq, Eq, Structural)]
pub enum OrderType {
    Market,
    Limit,
}

#[derive(Clone, Copy, Debug, PartialEq, Eq, Structural)]
pub enum TimeInForce {
    Day,
    Gtc,
    /// Immediate or cancel, for crypto limit orders.
    Ioc,
}

/// An order as it is handed to a venue adapter.
#[derive(Debug)]
pub struct PlaceOrderRequest {
    pub symbol: String,
    pub side: Side,
    pub order_type: OrderType,
    /// Quantity in base units. Where `notional` is set this may be `None`.
    pub qty: Option<i64>,
    /// Notional in quote currency. Where `qty` is set this may be `None`.
    pub notional: Option<i64>,
    pub limit_price: Option<i64>,
    pub time_in_force: TimeInForce,
}

impl Clone for PlaceOrderRequest {
    fn clone(&self) -> (r: Self)
        ensures
            r == *self,
    {
        PlaceOrderRequest {
            symbol: self.symbol.clone(),
            side: self.side,
            order_type: self.order_type,
            qty: self.qty,
            notional: self.notional,
            limit_price: self.limit_price,
            time_in_force: self.time_in_force,
        }
    }
}

/// The venue's answer to a submitted or queried order. `raw` is the venue's
/// own text, carried through untouched; `filled_qty` is the executed
/// quantity where the venue reports one.
#[derive(Debug)]
pub struct OrderAck {
    pub id: String,
    pub status: String,
    pub filled_qty: Option<i64>,
    pub raw: String,
}

impl Clone for OrderAck {
    fn clone(&self) -> (r: Self)
        ensures
            r == *self,
    {
        OrderAck {
            id: self.id.clone(),
            status: self.status.clone(),
            filled_qty: self.filled_qty,
            raw: self.raw.clone(),
        }
    }
}

/// A quote in canonical form.
#[derive(Debug)]
pub struct NormalizedQuote {
    pub symbol: String,
    pub bid: i64,
    pub ask: i64,
    pub timestamp: String,
    pub raw: String,
}

impl Clone for NormalizedQuote {
    fn clone(&self) -> (r: Self)
        ensures
            r == *self,
    {
        NormalizedQuote {
            symbol: self.symbol.clone(),
            bid: self.bid,
            ask: self.ask,
            timestamp: self.timestamp.clone(),
            raw: self.raw.clone(),
        }
    }
}

/// A trade in canonical form.
#[derive(Debug)]
pub struct NormalizedTrade {
    pub symbol: String,
    pub price: i64,
    pub size: i64,
    pub timestamp: String,
    pub raw: String,
}

impl Clone for NormalizedTrade {
    fn clone(&self) -> (r: Self)
        ensures
            r == *self,
    {
        NormalizedTrade {
            symbol: self.symbol.clone(),
            price: self.price,
            size: self.size,
            timestamp: self.timestamp.clone(),
            raw: self.raw.clone(),
        }
    }
}

/// What a venue adapter can do.
#[derive(Clone, Copy, Debug, PartialEq, Eq, Structural)]
pub struct ExchangeCapabilities {
    pub supports_notional_market_buy: bool,
    pub supports_ws_quotes: bool,
    pub supports_ws_trades: bool,
    pub supports_news: bool,
}

} // verus!
