//! Framing, configuration and the two benchmark state machines of a paired
//! client/server latency and throughput benchmark that runs over one
//! connection of a message-oriented transport.
//!
//! Everything here is a function of plain values: the caller owns the
//! connection and the clock, performs each action that a state machine asks
//! for and hands back what came of it.

pub mod client;
pub mod clock;
pub mod config;
pub mod decimal;
pub mod error;
pub mod exchange;
pub mod frame;
pub mod receive;
pub mod report;
pub mod server;
pub mod transport;
