//! Periodic-polling telemetry: the connection-handling protocol between
//! polling client sessions and pooled status servers, as pure state
//! machines and text codecs with machine-checked contracts.
//!
//! The library decides and never performs: a driver reads sockets, sleeps
//! and logs, tells a state machine what happened, and is told what to do
//! next.

pub mod clock;
pub mod decimal;
pub mod poller;
pub mod pool;
pub mod server;
pub mod session;
pub mod status;
pub mod store;
pub mod text;
pub mod wire;
