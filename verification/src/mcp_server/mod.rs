//! The MCP server bounded context: server and session lifecycle, the tool
//! registry, the JSON-RPC message model and the application service.

pub mod error;
pub mod value;
pub mod event;
pub mod registry;
pub mod entity;
pub mod dto;
pub mod repository;
pub mod service;
pub mod factory;
pub mod handlers;
