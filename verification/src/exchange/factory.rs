//! Which venue a configuration selects.

use vstd::prelude::*;
use crate::text::lowercase;
use crate::text::str_eq;
use crate::text::to_lowercase;

verus! {

/// The venues the engine can trade at.
#[derive(Clone, Copy, Debug, PartialEq, Eq, Structural)]
pub enum ExchangeKind {
    Alpaca,
    Binance,
    Coinbase,
    Kraken,
}

/// The venue a configured name selects, whatever its case; `None` for an
/// unknown name.
pub open spec fn spec_exchange_kind(name: Seq<char>) -> Option<ExchangeKind> {
    let low = lowercase(name);
    if low == "alpaca"@ {
        Some(ExchangeKind::Alpaca)
    } else if low == "binance"@ {
        Some(ExchangeKind::Binance)
    } else if low == "coinbase"@ {
        Some(ExchangeKind::Coinbase)
    } else if low == "kraken"@ {
        Some(ExchangeKind::Kraken)
    } else {
        None
    }
}

/// The venue a configured name selects.
pub fn exchange_kind(name: &str) -> (r: Option<ExchangeKind>)
    ensures
        r == spec_exchange_kind(name@),
{
    let low: String = to_lowercase(name);
    if str_eq(low.as_str(), "alpaca") {
        Some(ExchangeKind::Alpaca)
    } else if str_eq(low.as_str(), "binance") {
        Some(ExchangeKind::Binance)
    } else if str_eq(low.as_str(), "coinbase") {
        Some(ExchangeKind::Coinbase)
    } else if str_eq(low.as_str(), "kraken") {
        Some(ExchangeKind::Kraken)
    } else {
        None
    }
}

} // verus!
