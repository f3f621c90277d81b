//! A typed client library for a task execution service speaking a REST/JSON
//! protocol.
//!
//! The crate is organised around the request-execution engine: building a
//! request from structured parameters, classifying outcomes into retryable
//! and terminal failures, resolving responses into view-dependent shapes,
//! and walking multi-page result sets.

pub mod v1;
