//! Responses related to tasks.

use vstd::prelude::*;
use vstd::view::View as _;
use crate::v1::types::requests::Task;
use crate::v1::types::task::State;

verus! {

/// A requested view of tasks.
#[derive(Clone, Debug, Eq, PartialEq, Structural)]
pub enum View {
    /// The `MINIMAL` view.
    Minimal,

    /// The `BASIC` view.
    Basic,

    /// The `FULL` view.
    Full,
}

/// A response for when the minimal view was requested in a task endpoint.
#[derive(Clone, Debug, Default, Eq, PartialEq)]
pub struct MinimalTask {
    /// The ID.
    pub id: String,

    /// The current state.
    pub state: Option<State>,
}

/// A generalized response for getting tasks with the view parameter.
#[derive(Clone, Debug, Eq, PartialEq)]
pub enum Response {
    /// A response for when the minimal view was requested.
    Minimal(MinimalTask),

    /// A response for when the basic view was requested. All the fields
    /// that the basic view may omit are optional on [`Task`], so the same
    /// shape serves.
    Basic(Task),

    /// A response for when the full view was requested.
    Full(Task),
}

impl Response {
    /// Retrieves a reference to the inner [`MinimalTask`] response if the
    /// variant is [`Response::Minimal`].
    pub fn as_minimal(&self) -> (r: Option<&MinimalTask>)
        ensures
            match *self {
                Response::Minimal(t) => r matches Some(x) && *x == t,
                _ => r is None,
            },
    {
        match self {
            Response::Minimal(task) => Some(task),
            _ => None,
        }
    }

    /// Consumes `self` and returns the inner [`MinimalTask`] response if
    /// the variant is [`Response::Minimal`].
    pub fn into_minimal(self) -> (r: Option<MinimalTask>)
        ensures
            match self {
                Response::Minimal(t) => r == Some(t),
                _ => r is None,
            },
    {
        match self {
            Response::Minimal(task) => Some(task),
            _ => None,
        }
    }

    /// Retrieves a reference to the inner [`Task`] response if the variant
    /// is [`Response::Basic`] or [`Response::Full`].
    pub fn as_task(&self) -> (r: Option<&Task>)
        ensures
            match *self {
                Response::Basic(t) => r matches Some(x) && *x == t,
                Response::Full(t) => r matches Some(x) && *x == t,
                _ => r is None,
            },
    {
        match self {
            Response::Basic(task) | Response::Full(task) => Some(task),
            _ => None,
        }
    }

    /// Consumes `self` and returns the inner [`Task`] response if the
    /// variant is [`Response::Basic`] or [`Response::Full`].
    pub fn into_task(self) -> (r: Option<Task>)
        ensures
            match self {
                Response::Basic(t) => r == Some(t),
                Response::Full(t) => r == Some(t),
                _ => r is None,
            },
    {
        match self {
            Response::Basic(task) | Response::Full(task) => Some(task),
            _ => None,
        }
    }
}

} // verus!
