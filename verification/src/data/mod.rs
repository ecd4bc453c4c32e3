//! Market data held in memory and the venue's account record.

pub mod alpaca;
pub mod store;
