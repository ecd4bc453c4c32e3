//! Venue-neutral types, symbol mapping, venue answers and stream
//! normalization.

pub mod alpaca;
pub mod binance;
pub mod coinbase;
pub mod factory;
pub mod kraken;
pub mod symbols;
pub mod types;
pub mod ws;
