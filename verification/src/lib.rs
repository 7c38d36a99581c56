//! A shipment contract with escrowed payment.

pub mod calls;
pub mod circuit_breaker;
pub mod config;
pub mod consistency;
pub mod contract;
pub mod diagnostics;
pub mod env;
pub mod escrow;
pub mod fixtures;
pub mod laws;
pub mod model;
pub mod settlement;
pub mod storage;
pub mod token;
pub mod types;
