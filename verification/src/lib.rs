//! A serial-port multiplexer: the rules by which one serial device is shared
//! between many network clients.
//!
//! This crate holds the decisions of the service — configuration checks, the
//! audit-log line format, payload decoding, the per-port session state, the
//! session registry and the stream bridge — as functions on plain values,
//! each with a machine-checked contract. The program around it performs the
//! device, file and network operations and feeds their outcomes in.

pub mod cli;
pub mod codec;
pub mod config;
pub mod logging;
pub mod mock_device;
pub mod serial;
pub mod text;
pub mod web;
