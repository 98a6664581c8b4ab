use vstd::prelude::*;

verus! {

/// A point in time, as a workload handle reports it when its process exits:
/// seconds since the Unix epoch plus a sub-second nanosecond part.
#[derive(Clone, Copy, Debug, PartialEq, Eq, Structural)]
pub struct Timestamp {
    pub seconds: i64,
    pub nanos: u32,
}

} // verus!
