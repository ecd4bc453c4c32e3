//! The engine's components: execution, position monitoring, strategy, risk.

pub mod execution;
pub mod execution_fast;
pub mod execution_utils;
pub mod position_monitor;
pub mod reporting;
pub mod risk;
pub mod strategy;
