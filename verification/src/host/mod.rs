//! The shared dispatch boundary of the gateway: the taxonomy error, tool
//! routing, the decisions the tool calls make around the engine, and the
//! composition of the gateway from its environment.

pub mod error;
pub mod tools;
pub mod setup;
