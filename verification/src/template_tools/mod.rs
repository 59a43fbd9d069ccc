//! The template tools bounded context: named plan templates, their
//! validation, listing and conversion.

pub mod error;
pub mod value;
pub mod repository;
pub mod handlers;
pub mod dto;
