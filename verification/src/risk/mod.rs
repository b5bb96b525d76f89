//! Global risk limits.

pub mod manager;
