//! Coinbase: what it offers and how its order answers are read.

use vstd::prelude::*;
use crate::exchange::alpaca::or_unknown;
use crate::exchange::alpaca::spec_or_unknown;
use crate::exchange::types::ExchangeCapabilities;
use crate::exchange::types::OrderAck;
use crate::exchange::types::Side;
use crate::json::json_member;
use crate::json::json_string;
use crate::json::member;
use crate::json::string_field;
use crate::text::str_eq;

verus! {

/// The adapter's name.
pub const NAME: &'static str = "coinbase";

/// What Coinbase offers: trades and notional market buys, no quote stream
/// and no news.
pub fn capabilities() -> (c: ExchangeCapabilities)
    ensures
        c == (ExchangeCapabilities {
            supports_notional_market_buy: true,
            supports_ws_quotes: false,
            supports_ws_trades: true,
            supports_news: false,
        }),
{
    ExchangeCapabilities {
        supports_notional_market_buy: true,
        supports_ws_quotes: false,
        supports_ws_trades: true,
        supports_news: false,
    }
}

/// The word Coinbase uses for a side.
pub fn side_word(side: Side) -> (w: &'static str)
    ensures
        w@ == (match side {
            Side::Buy => "BUY"@,
            Side::Sell => "SELL"@,
        }),
{
    match side {
        Side::Buy => "BUY",
        Side::Sell => "SELL",
    }
}

/// The status Coinbase's `success` flag stands for.
pub open spec fn spec_status(success: Option<Seq<char>>) -> Seq<char> {
    if success == Some("true"@) {
        "accepted"@
    } else if success == Some("false"@) {
        "rejected"@
    } else {
        "unknown"@
    }
}

/// Reads Coinbase's order answer: the `order_id` (`unknown` where missing),
/// and `accepted` or `rejected` by its `success` flag.
pub fn order_ack(raw: &str) -> (ack: OrderAck)
    ensures
        ack.id@ == spec_or_unknown(json_string(raw@, "order_id"@)),
        ack.status@ == spec_status(json_member(raw@, "success"@)),
        ack.filled_qty is None,
        ack.raw@ == raw@,
{
    let status: String = match member(raw, "success") {
        Some(flag) => {
            if str_eq(flag.as_str(), "true") {
                "accepted".to_owned()
            } else if str_eq(flag.as_str(), "false") {
                "rejected".to_owned()
            } else {
                "unknown".to_owned()
            }
        },
        None => "unknown".to_owned(),
    };
    OrderAck {
        id: or_unknown(string_field(raw, "order_id")),
        status,
        filled_qty: None,
        raw: raw.to_owned(),
    }
}

} // verus!
