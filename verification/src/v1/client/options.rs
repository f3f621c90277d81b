//! Options for a [`Client`](super::Client).

use vstd::prelude::*;

verus! {

/// The number of retries to the server by default.
pub const DEFAULT_RETRIES: u32 = 3;

/// Options used within a [`Client`](super::Client).
#[derive(Clone, Debug)]
pub struct Options {
    /// Headers to include in each request, as name/value pairs.
    pub headers: Vec<(String, String)>,

    /// The number of retries per request.
    pub retries: u32,
}

impl Default for Options {
    /// No headers, and three retries.
    fn default() -> (r: Self)
        ensures
            r.headers@.len() == 0,
            r.retries == DEFAULT_RETRIES,
    {
        Options { headers: Vec::new(), retries: DEFAULT_RETRIES }
    }
}

} // verus!
