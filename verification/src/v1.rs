//! Version 1 of the service protocol.

pub mod client;
pub mod json;
pub mod types;

pub use client::Client;
