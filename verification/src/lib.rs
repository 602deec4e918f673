//! Serial acquisition and telemetry relay for an air-quality sensor.
//!
//! The sensor hangs on a serial line and is polled at a fixed interval. What a
//! read returns is decoded into a reading, the reading waits in a bounded
//! queue, and a relay sends it to a remote time-series store.
//!
//! This crate holds the rules of that pipeline and proves them: which bits
//! program the line, what a frame decodes to, what the queue keeps, what is
//! sent for a reading and how the answers are counted. It opens no device and
//! no connection. The caller does, and hands the results in as plain values.

pub mod acquisition;
pub mod cancel;
pub mod clock;
pub mod config;
pub mod configure;
pub mod decimal;
pub mod frame;
pub mod line;
pub mod queue;
pub mod relay;
