//! The execution tools bounded context: plan execution, validation and
//! enforcement through the engine, and the tool results they produce.

pub mod value;
pub mod error;
pub mod facade;
pub mod repository;
pub mod handlers;
pub mod dto;
