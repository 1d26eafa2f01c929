//! Timestamps carried by the remote records.
use vstd::prelude::*;

verus! {

/// An instant in UTC, as the server reports it: whole seconds since the Unix
/// epoch and the nanoseconds past that second. A leap second is written with
/// `nanos` of one second or more, so `nanos` stays below two seconds.
#[derive(Debug, Clone, Copy, PartialEq, Eq, Structural)]
pub struct Timestamp {
    pub secs: i64,
    pub nanos: u32,
}

impl Timestamp {
    pub open spec fn wf(self) -> bool {
        self.nanos < 2_000_000_000
    }

    /// The instant `secs` seconds and `nanos` nanoseconds after the epoch, or
    /// `None` when `nanos` is two seconds or more.
    pub fn new(secs: i64, nanos: u32) -> (r: Option<Self>)
        ensures
            r is Some <==> nanos < 2_000_000_000,
            r is Some ==> r->Some_0 == (Timestamp { secs, nanos }),
            r is Some ==> r->Some_0.wf(),
    {
        if nanos < 2_000_000_000 {
            Some(Timestamp { secs, nanos })
        } else {
            None
        }
    }
}

} // verus!
