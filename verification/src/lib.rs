//! Core of a command-line chat client for an HTTP completion service.

pub mod error;
pub mod json;
pub mod message;
pub mod reply;
pub mod request;
pub mod session;
pub mod stream;
pub mod text;
pub mod wire;
