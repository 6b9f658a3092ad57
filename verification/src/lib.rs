//! Relay of trading-signal webhooks to a brokerage's order endpoint.
//!
//! A webhook names an action, a ticker and a price. The relay turns it into a
//! one-unit limit order for the day, describes the HTTP call that places the
//! order, and maps what the broker answered to the reply for the webhook's
//! sender. Sending and receiving are left to the caller: every function here
//! goes from plain values to plain values.

pub mod broker;
pub mod handler;
pub mod laws;
pub mod order;
pub mod settings;
pub mod text;
pub mod wire;
