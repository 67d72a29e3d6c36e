//! A verified register-mapped bridge between a physical-process simulation
//! and the Modbus TCP protocol.
//!
//! The crate has three parts: a register/coil store ([`store`]), a stateless
//! protocol service that translates decoded Modbus requests into store
//! operations ([`service`]), and the decision logic of the periodic
//! simulation driver that republishes scaled sensor values ([`driver`]).
//! Transport framing, the process model itself, and configuration parsing
//! live outside the verified core; they exchange plain values with it.

pub mod config;
pub mod driver;
pub mod scale;
pub mod service;
pub mod store;
