//! Records that the bot stores and exchanges.

pub mod models;
