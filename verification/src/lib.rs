//! A test-time simulation layer for decentralized-exchange smart contracts.
//!
//! The crate answers contract-to-contract queries out of programmable
//! registries (a mock query dispatcher) and drives two structurally different
//! exchange protocols through one capability interface, against a shared
//! in-process simulated chain.

pub mod astroport_controller;
pub mod chain;
pub mod common_integration;
pub mod dispatch;
pub mod drivers;
pub mod encoding;
pub mod help;
pub mod registry;
pub mod scenarios;
pub mod terraswap_controller;
