//! Entities exchanged with a service.

pub mod requests;
pub mod responses;
pub mod task;

pub use requests::Task;
pub use task::State;
