//! Verified core of a blockchain whale-transfer monitor.
//!
//! A streaming subscription produces transaction log events; successful
//! events are queued, each queued identifier is enriched with full
//! transaction detail, the balance delta is computed and classified
//! against a configured threshold, and qualifying transfers become
//! alert messages handed to a best-effort notification dispatcher.
//!
//! This crate holds the verified decision logic of that pipeline:
//! the source-side success filter, the bounded FIFO queue that gives
//! the producer backpressure, balance-delta resolution and threshold
//! classification, decimal amount formatting, alert message
//! construction, and delivery planning. The surrounding I/O (the
//! websocket subscription, the RPC detail lookup, the outbound HTTP
//! notification) lives outside this crate and hands plain values in
//! and out.

pub mod alert;
pub mod event;
pub mod numfmt;
pub mod pipeline;
pub mod queue;
pub mod resolve;
