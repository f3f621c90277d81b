//! Files declared within tasks.

use vstd::prelude::*;

verus! {

/// A type of file.
#[derive(Clone, Debug, Eq, PartialEq, Structural)]
pub enum Type {
    /// A file.
    File,

    /// A directory.
    Directory,
}

impl Default for Type {
    /// The default kind is a file.
    fn default() -> (r: Self)
        ensures
            r == Type::File,
    {
        Type::File
    }
}

} // verus!
