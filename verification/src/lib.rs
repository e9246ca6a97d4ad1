//! A bidirectional byte-stream bridge between a TCP peer and a serial
//! device.
//!
//! The crate holds the bridge's logic: resolving the serial configuration
//! from raw inputs, and the relay state machine that decides, for each
//! read outcome on either endpoint, which bytes are forwarded where.
//! The surrounding process performs the actual I/O and feeds every read
//! outcome to the relay as an event.

pub mod config;
pub mod relay;
