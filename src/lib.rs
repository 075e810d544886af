//! Credential and session lifecycle: signed token claims, API keys,
//! refresh sessions, and the request-time authentication gate.

pub mod api_key;
pub mod model;
pub mod error;
pub mod token;
pub mod store;
pub mod config;
pub mod dto;
pub mod session;
pub mod gate;
