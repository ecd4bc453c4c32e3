use autohedge::exchange::symbols::{
    from_coinbase_product_id, from_kraken_pair, to_binance_stream_symbol, to_coinbase_product_id,
    to_kraken_pair,
};

#[test]
fn test_to_coinbase_btc() {
    let result = to_coinbase_product_id("BTC/USD");
    assert_eq!(result, "BTC-USD");
}

#[test]
fn test_to_coinbase_eth() {
    let result = to_coinbase_product_id("ETH/USD");
    assert_eq!(result, "ETH-USD");
}

#[test]
fn test_to_coinbase_various() {
    assert_eq!(to_coinbase_product_id("SOL/USD"), "SOL-USD");
    assert_eq!(to_coinbase_product_id("DOGE/USD"), "DOGE-USD");
    assert_eq!(to_coinbase_product_id("XRP/USD"), "XRP-USD");
}

#[test]
fn test_to_kraken_btc() {
    let result = to_kraken_pair("BTC/USD");
    assert_eq!(result, "XBT/USD");
}

#[test]
fn test_to_kraken_eth_unchanged() {
    let result = to_kraken_pair("ETH/USD");
    assert_eq!(result, "ETH/USD"); // ETH stays as ETH
}

#[test]
fn test_to_kraken_various() {
    assert_eq!(to_kraken_pair("SOL/USD"), "SOL/USD");
    assert_eq!(to_kraken_pair("DOGE/USD"), "DOGE/USD");
}

#[test]
fn test_to_binance_btc() {
    let result = to_binance_stream_symbol("BTC/USD");
    assert_eq!(result, "btcusd");
}

#[test]
fn test_to_binance_eth() {
    let result = to_binance_stream_symbol("ETH/USD");
    assert_eq!(result, "ethusd");
}

#[test]
fn test_to_binance_lowercase() {
    // Binance uses lowercase
    let result = to_binance_stream_symbol("DOGE/USD");
    assert_eq!(result, "dogeusd");
    assert!(result.chars().all(|c| c.is_lowercase() || c.is_numeric()));
}

#[test]
fn coinbase_product_id_round_trip() {
    assert_eq!(from_coinbase_product_id("BTC-USD"), "BTC/USD");
    assert_eq!(from_coinbase_product_id(&to_coinbase_product_id("ETH/USD")), "ETH/USD");
}

#[test]
fn kraken_pair_round_trip() {
    assert_eq!(from_kraken_pair("XBT/USD"), "BTC/USD");
    assert_eq!(from_kraken_pair("ETH/USD"), "ETH/USD");
}

#[test]
fn kraken_replaces_every_occurrence() {
    assert_eq!(to_kraken_pair("BTC/BTC/USD"), "XBT/XBT/USD");
    assert_eq!(to_kraken_pair("WBTC/USD"), "WXBT/USD");
    assert_eq!(to_kraken_pair(""), "");
}
