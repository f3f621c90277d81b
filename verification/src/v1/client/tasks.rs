//! Task-related entities used within a client.

use vstd::prelude::*;
use vstd::view::View as _;

verus! {

/// An argument that affects which fields are returned on certain
/// task-related endpoints.
#[derive(Clone, Debug, Eq, PartialEq, Structural)]
pub enum View {
    /// Only includes the `id` and `state` fields in the returned task.
    Minimal,

    /// Includes all available fields except the logs for stdout and
    /// stderr, the content of inputs, and the system logs.
    Basic,

    /// Includes all fields.
    Full,
}

impl Default for View {
    /// The default view is `MINIMAL`.
    fn default() -> (r: Self)
        ensures
            r == View::Minimal,
    {
        View::Minimal
    }
}

impl View {
    /// The value sent to the server for this view, in upper case.
    pub open spec fn spec_query_value(&self) -> Seq<char> {
        match *self {
            View::Minimal => "MINIMAL"@,
            View::Basic => "BASIC"@,
            View::Full => "FULL"@,
        }
    }

    /// The value sent to the server for this view, in upper case.
    pub fn query_value(&self) -> (r: String)
        ensures
            r@ == self.spec_query_value(),
    {
        match *self {
            View::Minimal => String::from_str("MINIMAL"),
            View::Basic => String::from_str("BASIC"),
            View::Full => String::from_str("FULL"),
        }
    }
}

} // verus!
