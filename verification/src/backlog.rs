//! The listen-queue depth handed to the operating system when the server's
//! socket starts listening. It is a passthrough configuration value: nothing
//! is validated beyond what the OS itself enforces.

use vstd::prelude::*;

verus! {

/// An OS listen-queue depth.
pub struct Backlog(pub i32);

impl Default for Backlog {
    /// The default depth leaves the choice to the operating system.
    fn default() -> (b: Self)
        ensures
            b.0 == 0,
    {
        Backlog(0)
    }
}

impl From<i32> for Backlog {
    fn from(depth: i32) -> (b: Self)
        ensures
            b.0 == depth,
    {
        Backlog(depth)
    }
}

impl vstd::std_specs::convert::FromSpecImpl<i32> for Backlog {
    open spec fn obeys_from_spec() -> bool {
        true
    }

    open spec fn from_spec(depth: i32) -> Backlog {
        Backlog(depth)
    }
}

impl From<Backlog> for i32 {
    fn from(backlog: Backlog) -> (depth: i32)
        ensures
            depth == backlog.0,
    {
        backlog.0
    }
}

impl vstd::std_specs::convert::FromSpecImpl<Backlog> for i32 {
    open spec fn obeys_from_spec() -> bool {
        true
    }

    open spec fn from_spec(backlog: Backlog) -> i32 {
        backlog.0
    }
}

} // verus!
