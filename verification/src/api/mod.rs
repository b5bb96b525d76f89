//! The exchange: its message types, the request signing and the decisions
//! that the REST and WebSocket clients take on what comes back.

pub mod client;
pub mod rest;
pub mod types;
pub mod websocket;
