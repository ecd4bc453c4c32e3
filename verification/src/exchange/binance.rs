//! Binance: what it offers and how its order answers are read.

use vstd::prelude::*;
use crate::exchange::alpaca::or_unknown;
use crate::exchange::alpaca::spec_or_unknown;
use crate::exchange::types::ExchangeCapabilities;
use crate::exchange::types::OrderAck;
use crate::json::json_number;
use crate::json::json_string;
use crate::json::number_field;
use crate::json::string_field;

verus! {

/// The adapter's name.
pub const NAME: &'static str = "binance";

/// What Binance offers: everything but news.
pub fn capabilities() -> (c: ExchangeCapabilities)
    ensures
        c == (ExchangeCapabilities {
            supports_notional_market_buy: true,
            supports_ws_quotes: true,
            supports_ws_trades: true,
            supports_news: false,
        }),
{
    ExchangeCapabilities {
        supports_notional_market_buy: true,
        supports_ws_quotes: true,
        supports_ws_trades: true,
        supports_news: false,
    }
}

/// Reads Binance's order object: the numeric `orderId` as the id, and the
/// status; each `unknown` where missing.
pub fn order_ack(raw: &str) -> (ack: OrderAck)
    ensures
        ack.id@ == spec_or_unknown(json_number(raw@, "orderId"@)),
        ack.status@ == spec_or_unknown(json_string(raw@, "status"@)),
        ack.filled_qty is None,
        ack.raw@ == raw@,
{
    OrderAck {
        id: or_unknown(number_field(raw, "orderId")),
        status: or_unknown(string_field(raw, "status")),
        filled_qty: None,
        raw: raw.to_owned(),
    }
}

} // verus!
