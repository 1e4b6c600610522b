//! Throughput measurement engine for an iperf-style benchmark.
//!
//! A client connects to a server, tells it how large each transfer unit
//! should be, and counts how many such units arrive in each one-second
//! window. This crate holds the rules of that exchange: backend selection,
//! the unit-size handshake, the per-connection streaming state, the window
//! sampler and the rendering of rates. Sockets, clocks and printing are left
//! to the caller.

pub mod backend;
pub mod cert;
pub mod config;
pub mod decimal;
pub mod fixed;
pub mod handshake;
pub mod report;
pub mod sampler;
pub mod session;
pub mod units;
