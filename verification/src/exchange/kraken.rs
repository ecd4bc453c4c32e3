//! Kraken: what it offers and how its order answers are read.

use vstd::prelude::*;
use crate::exchange::types::ExchangeCapabilities;
use crate::exchange::types::OrderAck;

verus! {

/// The adapter's name.
pub const NAME: &'static str = "kraken";

/// What Kraken offers: quotes and trades; no notional market buys, no news.
pub fn capabilities() -> (c: ExchangeCapabilities)
    ensures
        c == (ExchangeCapabilities {
            supports_notional_market_buy: false,
            supports_ws_quotes: true,
            supports_ws_trades: true,
            supports_news: false,
        }),
{
    ExchangeCapabilities {
        supports_notional_market_buy: false,
        supports_ws_quotes: true,
        supports_ws_trades: true,
        supports_news: false,
    }
}

/// Kraken's order answer names neither id nor status in a form the engine
/// reads: both are `unknown`.
pub fn order_ack(raw: &str) -> (ack: OrderAck)
    ensures
        ack.id@ == "unknown"@,
        ack.status@ == "unknown"@,
        ack.filled_qty is None,
        ack.raw@ == raw@,
{
    OrderAck {
        id: "unknown".to_owned(),
        status: "unknown".to_owned(),
        filled_qty: None,
        raw: raw.to_owned(),
    }
}

} // verus!
