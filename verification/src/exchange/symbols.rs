//! Symbol mapping between the canonical `BASE/QUOTE` form and the forms
//! the venues use.

use vstd::prelude::*;
use crate::text::spec_replace;
use crate::text::str_replace;
use crate::text::lowercase;
use crate::text::to_lowercase;

verus! {

/// Coinbase product id: `BTC/USD` becomes `BTC-USD`.
pub fn to_coinbase_product_id(canonical: &str) -> (r: String)
    ensures
        r@ == spec_replace(canonical@, "/"@, "-"@),
{
    str_replace(canonical, "/", "-")
}

/// Kraken pair: Kraken writes `XBT` for `BTC`, everything else stays.
pub fn to_kraken_pair(canonical: &str) -> (r: String)
    ensures
        r@ == spec_replace(canonical@, "BTC/"@, "XBT/"@),
{
    str_replace(canonical, "BTC/", "XBT/")
}

/// Binance stream symbol: the slash dropped, then lowercase.
pub fn to_binance_stream_symbol(canonical: &str) -> (r: String)
    ensures
        r@ == lowercase(spec_replace(canonical@, "/"@, ""@)),
{
    let joined: String = str_replace(canonical, "/", "");
    to_lowercase(joined.as_str())
}

/// The canonical symbol for a Coinbase product id: `BTC-USD` becomes `BTC/USD`.
pub fn from_coinbase_product_id(product_id: &str) -> (r: String)
    ensures
        r@ == spec_replace(product_id@, "-"@, "/"@),
{
    str_replace(product_id, "-", "/")
}

/// The canonical symbol for a Kraken pair: `XBT/USD` becomes `BTC/USD`.
pub fn from_kraken_pair(pair: &str) -> (r: String)
    ensures
        r@ == spec_replace(pair@, "XBT/"@, "BTC/"@),
{
    str_replace(pair, "XBT/", "BTC/")
}

} // verus!
