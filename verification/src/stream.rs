//! The two standard streams a request can be bound to.

use vstd::prelude::*;

verus! {

/// Identity of the standard stream that a write is bound to.
#[derive(Clone, Copy, Debug, PartialEq, Eq, Structural)]
pub enum Stream {
    /// Standard output.
    Stdout,
    /// Standard error.
    Stderr,
}

impl Stream {
    /// The stream that `self` is not.
    pub open spec fn opposite(self) -> Stream {
        match self {
            Stream::Stdout => Stream::Stderr,
            Stream::Stderr => Stream::Stdout,
        }
    }
}

} // verus!
