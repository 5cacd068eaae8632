//! Core of a small Q&A REST service: establishing a caller's identity from a
//! signed token, gating mutations on resource ownership and moderator
//! privilege, guarding moderator enrollment at account creation, and mapping
//! every failure kind to one transport-level outcome.

pub mod auth;
pub mod errors;
pub mod ownership;
pub mod pagination;
pub mod questions;
pub mod shared;
pub mod store;
pub mod text;
pub mod text_processing;
pub mod users;
