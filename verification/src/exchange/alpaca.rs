//! Alpaca: how the engine's orders are written for it and how its answers
//! are read.

use vstd::prelude::*;
use crate::data::alpaca::OrderRequest;
use crate::decimal::format_fixed;
use crate::decimal::parse_number;
use crate::decimal::spec_format_fixed;
use crate::decimal::spec_parse_number;
use crate::exchange::types::ExchangeCapabilities;
use crate::exchange::types::OrderAck;
use crate::exchange::types::OrderType;
use crate::exchange::types::PlaceOrderRequest;
use crate::exchange::types::Position;
use crate::exchange::types::Side;
use crate::exchange::types::TimeInForce;
use crate::json::items;
use crate::json::json_items;
use crate::json::json_number;
use crate::json::json_string;
use crate::json::list_view;
use crate::json::number_field;
use crate::json::opt_view;
use crate::json::string_field;
use crate::text::eq_ignore_ascii_case;
use crate::text::spec_eq_ignore_ascii_case;

verus! {

/// The adapter's name.
pub const NAME: &'static str = "alpaca";

/// What Alpaca offers: everything; notional market buys for crypto only.
pub fn capabilities(trading_mode: &str) -> (c: ExchangeCapabilities)
    ensures
        c == (ExchangeCapabilities {
            supports_notional_market_buy: spec_eq_ignore_ascii_case(trading_mode@, "crypto"@),
            supports_ws_quotes: true,
            supports_ws_trades: true,
            supports_news: true,
        }),
{
    ExchangeCapabilities {
        supports_notional_market_buy: eq_ignore_ascii_case(trading_mode, "crypto"),
        supports_ws_quotes: true,
        supports_ws_trades: true,
        supports_news: true,
    }
}

/// The word Alpaca uses for a side.
pub open spec fn spec_side_word(side: Side) -> Seq<char> {
    match side {
        Side::Buy => "buy"@,
        Side::Sell => "sell"@,
    }
}

/// The word Alpaca uses for an order type.
pub open spec fn spec_type_word(order_type: OrderType) -> Seq<char> {
    match order_type {
        OrderType::Market => "market"@,
        OrderType::Limit => "limit"@,
    }
}

/// The word Alpaca uses for a time-in-force.
pub open spec fn spec_tif_word(tif: TimeInForce) -> Seq<char> {
    match tif {
        TimeInForce::Day => "day"@,
        TimeInForce::Gtc => "gtc"@,
        TimeInForce::Ioc => "ioc"@,
    }
}

/// An optional amount as optional decimal text.
pub open spec fn spec_amount_text(amount: Option<i64>) -> Option<Seq<char>> {
    match amount {
        Some(a) => Some(spec_format_fixed(a as int)),
        None => None,
    }
}

fn amount_text(amount: Option<i64>) -> (r: Option<String>)
    ensures
        opt_view(r) == spec_amount_text(amount),
{
    match amount {
        Some(a) => Some(format_fixed(a)),
        None => None,
    }
}

/// Writes an order the way Alpaca's order endpoint takes it.
pub fn order_request(order: &PlaceOrderRequest) -> (r: OrderRequest)
    ensures
        r.symbol@ == order.symbol@,
        opt_view(r.qty) == spec_amount_text(order.qty),
        opt_view(r.notional) == spec_amount_text(order.notional),
        r.side@ == spec_side_word(order.side),
        r.type_@ == spec_type_word(order.order_type),
        r.time_in_force@ == spec_tif_word(order.time_in_force),
        opt_view(r.limit_price) == spec_amount_text(order.limit_price),
{
    OrderRequest {
        symbol: order.symbol.clone(),
        qty: amount_text(order.qty),
        notional: amount_text(order.notional),
        side: match order.side {
            Side::Buy => "buy".to_owned(),
            Side::Sell => "sell".to_owned(),
        },
        type_: match order.order_type {
            OrderType::Market => "market".to_owned(),
            OrderType::Limit => "limit".to_owned(),
        },
        time_in_force: match order.time_in_force {
            TimeInForce::Day => "day".to_owned(),
            TimeInForce::Gtc => "gtc".to_owned(),
            TimeInForce::Ioc => "ioc".to_owned(),
        },
        limit_price: amount_text(order.limit_price),
    }
}

/// A text field, or `unknown` where it is missing.
pub open spec fn spec_or_unknown(value: Option<Seq<char>>) -> Seq<char> {
    match value {
        Some(t) => t,
        None => "unknown"@,
    }
}

/// An amount that a venue gives either as decimal text or as a number.
pub open spec fn spec_flexible_amount(object: Seq<char>, key: Seq<char>) -> Option<i64> {
    match json_string(object, key) {
        Some(t) => match spec_parse_number(t) {
            Some(a) => Some(a),
            None => match json_number(object, key) {
                Some(n) => spec_parse_number(n),
                None => None,
            },
        },
        None => match json_number(object, key) {
            Some(n) => spec_parse_number(n),
            None => None,
        },
    }
}

/// Reads an amount that a venue gives either as decimal text or as a number.
pub fn flexible_amount(object: &str, key: &str) -> (r: Option<i64>)
    ensures
        r == spec_flexible_amount(object@, key@),
{
    let from_text: Option<i64> = match string_field(object, key) {
        Some(t) => parse_number(t.as_str()),
        None => None,
    };
    match from_text {
        Some(a) => Some(a),
        None => match number_field(object, key) {
            Some(n) => parse_number(n.as_str()),
            None => None,
        },
    }
}

/// Whether an order response names an order id; one that does not is an
/// error.
pub fn names_order(raw: &str) -> (r: bool)
    ensures
        r == (crate::json::json_member(raw@, "id"@) is Some),
{
    crate::json::member(raw, "id").is_some()
}

/// Reads Alpaca's order object: id and status (`unknown` where missing) and
/// the filled quantity where it reports one.
pub fn order_ack(raw: &str) -> (ack: OrderAck)
    ensures
        ack.id@ == spec_or_unknown(json_string(raw@, "id"@)),
        ack.status@ == spec_or_unknown(json_string(raw@, "status"@)),
        ack.filled_qty == spec_flexible_amount(raw@, "filled_qty"@),
        ack.raw@ == raw@,
{
    OrderAck {
        id: or_unknown(string_field(raw, "id")),
        status: or_unknown(string_field(raw, "status")),
        filled_qty: flexible_amount(raw, "filled_qty"),
        raw: raw.to_owned(),
    }
}

/// A text field, or `unknown` where it is missing.
pub fn or_unknown(value: Option<String>) -> (r: String)
    ensures
        r@ == spec_or_unknown(opt_view(value)),
{
    match value {
        Some(t) => t,
        None => "unknown".to_owned(),
    }
}

/// What one entry of Alpaca's position list says: the symbol (empty where
/// missing), the quantity (zero where missing) and the average entry price.
pub open spec fn holds(p: Position, entry: Seq<char>) -> bool {
    &&& p.symbol@ == match json_string(entry, "symbol"@) {
        Some(s) => s,
        None => Seq::<char>::empty(),
    }
    &&& p.qty == match spec_flexible_amount(entry, "qty"@) {
        Some(q) => q,
        None => 0,
    }
    &&& p.avg_entry_price == spec_flexible_amount(entry, "avg_entry_price"@)
}

/// Reads one entry of Alpaca's position list.
pub fn position(entry: &str) -> (p: Position)
    ensures
        holds(p, entry@),
{
    Position {
        symbol: match string_field(entry, "symbol") {
            Some(s) => s,
            None => String::new(),
        },
        qty: match flexible_amount(entry, "qty") {
            Some(q) => q,
            None => 0,
        },
        avg_entry_price: flexible_amount(entry, "avg_entry_price"),
    }
}

/// Reads Alpaca's position list: one position per entry, in order; `None`
/// where the text is no JSON array.
pub fn positions(text: &str) -> (r: Option<Vec<Position>>)
    ensures
        r is Some == json_items(text@) is Some,
        r matches Some(list) ==> list.len() == json_items(text@)->0.len() && forall|i: int|
            0 <= i < list.len() ==> holds(#[trigger] list[i], json_items(text@)->0[i]),
{
    let entries: Vec<String> = match items(text) {
        Some(e) => e,
        None => {
            return None;
        },
    };
    let mut list: Vec<Position> = Vec::new();
    let mut i: usize = 0;
    while i < entries.len()
        invariant
            i <= entries.len(),
            list.len() == i,
            forall|j: int| 0 <= j < i ==> holds(#[trigger] list[j], entries@[j]@),
        decreases entries.len() - i,
    {
        list.push(position(entries[i].as_str()));
        i = i + 1;
    }
    proof {
        assert forall|j: int| 0 <= j < list.len() implies holds(
            #[trigger] list[j],
            json_items(text@)->0[j],
        ) by {
            assert(list_view(entries@)[j] == entries@[j]@);
        }
    }
    Some(list)
}

} // verus!
