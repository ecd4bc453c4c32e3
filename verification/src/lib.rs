//! Core of an automated trading engine: market data store, strategy,
//! risk gate, order execution and position monitoring, with every decision
//! stated as a contract over fixed-point amounts.

pub mod fixed;
pub mod text;
pub mod decimal;
pub mod collections;
pub mod exchange;
pub mod config;
pub mod error;
pub mod llm;
pub mod events;
pub mod bus;
pub mod agents;
pub mod data;
pub mod clock;
pub mod shared_map;
pub mod json;
pub mod services;
pub mod constants;
