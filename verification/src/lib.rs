//! Verified core of a grid-trading bot: the decisions of the DynaGrid
//! strategy, its risk limits, its configuration rules and the exchange
//! message handling, written over fixed-point decimals.

pub mod fixed;
pub mod risk;
pub mod text;
pub mod api;
pub mod clock;
pub mod config;
pub mod db;
pub mod decimal;
pub mod error;
pub mod strategy;
