//! Error values of the trading system, and recognition of the venue's
//! insufficient-balance answer.

use vstd::prelude::*;
use crate::text::spec_contains;
use crate::text::str_contains;
use crate::text::joined;
use crate::text::chars_of;
use crate::text::find_next;
use crate::text::slice_chars;
use crate::text::spec_find;
use crate::text::string_of;
use crate::text::trim;
use crate::text::trimmed;

verus! {

/// Top-level trading errors.
#[derive(Debug)]
pub enum TradingError {
    InsufficientBalance { symbol: String, requested: i64, available: i64 },
    RateLimited { symbol: String, cooldown_ms: u64 },
    PositionNotFound { symbol: String },
    InvalidQuantity { symbol: String, qty: i64 },
    InvalidPrice { symbol: String, price: i64 },
    OrderNotFound { order_id: String },
    PendingOrderExists { symbol: String },
    Exchange(ExchangeError),
    /// A transport failure, with the transport's own message.
    Network(String),
    Config(String),
    Parse(String),
}

/// Errors reported by or about a venue.
#[derive(Debug)]
pub enum ExchangeError {
    Http { status: u16, body: String },
    OrderRejected { reason: String },
    AuthFailed { reason: String },
    InvalidSymbol { symbol: String },
    MarketClosed { symbol: String },
    OrderTooSmall { symbol: String, min: i64 },
    OrderTooLarge { symbol: String, max: i64 },
    WebSocket(String),
    /// A payload that could not be decoded, with the decoder's own message.
    Deserialization(String),
}

/// Position tracker errors.
#[derive(Debug)]
pub enum TrackerError {
    PositionNotFound { symbol: String },
    OrderNotFound { order_id: String },
    PositionExists { symbol: String },
}

/// Strategy errors.
#[derive(Debug)]
pub enum StrategyError {
    InvalidQuote { bid: i64, ask: i64 },
    SpreadTooWide { symbol: String, spread_bps: i64, max_spread_bps: i64 },
    InsufficientEdge { symbol: String, edge_bps: i64, min_edge_bps: i64 },
    InsufficientData { symbol: String, count: usize, required: usize },
}

impl TrackerError {
    /// The text of the error.
    pub open spec fn spec_message(self) -> Seq<char> {
        match self {
            TrackerError::PositionNotFound { symbol } => "Position not found: "@ + symbol@,
            TrackerError::OrderNotFound { order_id } => "Order not found: "@ + order_id@,
            TrackerError::PositionExists { symbol } => "Position already exists: "@ + symbol@,
        }
    }

    /// The text of the error.
    pub fn message(&self) -> (r: String)
        ensures
            r@ == self.spec_message(),
    {
        match self {
            TrackerError::PositionNotFound { symbol } => joined(
                "Position not found: ",
                symbol.as_str(),
            ),
            TrackerError::OrderNotFound { order_id } => joined(
                "Order not found: ",
                order_id.as_str(),
            ),
            TrackerError::PositionExists { symbol } => joined(
                "Position already exists: ",
                symbol.as_str(),
            ),
        }
    }
}

/// An error text that reports insufficient balance: HTTP 403 together with
/// Alpaca's code, or the plain words.
pub open spec fn spec_is_insufficient_balance_error(error: Seq<char>) -> bool {
    (spec_contains(error, "403"@) && spec_contains(error, "40310000"@)) || spec_contains(
        error,
        "insufficient balance"@,
    )
}

/// Whether an error text reports insufficient balance.
pub fn is_insufficient_balance_error(error: &str) -> (r: bool)
    ensures
        r == spec_is_insufficient_balance_error(error@),
{
    (str_contains(error, "403") && str_contains(error, "40310000")) || str_contains(
        error,
        "insufficient balance",
    )
}


/// The symbol an insufficient-balance text names: what stands between the
/// first `balance for ` and the next ` (` (or the next `balance for `, or
/// the end), without the whitespace at its ends.
pub open spec fn spec_balance_symbol(error: Seq<char>) -> Option<Seq<char>> {
    let tag = "balance for "@;
    match spec_find(error, tag, 0) {
        None => None,
        Some(at) => {
            let start = at + tag.len();
            let end = match spec_find(error, tag, start) {
                Some(next) => next,
                None => error.len() as int,
            };
            let part = error.subrange(start, end);
            let cut = match spec_find(part, " ("@, 0) {
                Some(paren) => paren,
                None => part.len() as int,
            };
            Some(trimmed(part.subrange(0, cut)))
        },
    }
}

/// Reads the details of an insufficient-balance text: the symbol it names.
/// The requested and available amounts are not read and given as zero.
/// `None` where the text reports no insufficient balance or names no symbol.
pub fn parse_insufficient_balance(error: &str) -> (r: Option<(String, i64, i64)>)
    ensures
        match r {
            Some(d) => spec_is_insufficient_balance_error(error@) && spec_balance_symbol(error@)
                == Some(d.0@) && d.1 == 0 && d.2 == 0,
            None => !spec_is_insufficient_balance_error(error@) || spec_balance_symbol(error@)
                is None,
        },
{
    if !is_insufficient_balance_error(error) {
        return None;
    }
    let text: Vec<char> = chars_of(error);
    let tag: Vec<char> = chars_of("balance for ");
    let paren: Vec<char> = chars_of(" (");
    let at: usize = match find_next(&text, &tag, 0) {
        Some(i) => i,
        None => {
            return None;
        },
    };
    let total: usize = text.len();
    let start: usize = at + tag.len();
    let end: usize = match find_next(&text, &tag, start) {
        Some(next) => next,
        None => total,
    };
    let part: Vec<char> = slice_chars(&text, start, end);
    let cut: usize = match find_next(&part, &paren, 0) {
        Some(p) => p,
        None => part.len(),
    };
    let name: Vec<char> = slice_chars(&part, 0, cut);
    let raw: String = string_of(&name);
    Some((trim(raw.as_str()), 0, 0))
}

} // verus!
