use vstd::prelude::*;

verus! {

/// Milliseconds since the Unix epoch on this machine's clock.
#[verifier::external_body]
fn system_time_millis() -> u64 {
    match std::time::SystemTime::now().duration_since(std::time::UNIX_EPOCH) {
        Ok(d) => d.as_millis() as u64,
        Err(_) => 0,
    }
}

/// A wall-clock timestamp in milliseconds since the Unix epoch.
#[derive(Clone, Copy, Debug, PartialEq, Eq, Structural)]
pub struct Timestamp(pub u64);

impl Timestamp {
    /// The current time; nothing is promised of its value.
    pub fn now() -> (t: Timestamp) {
        Timestamp(system_time_millis())
    }

    /// A timestamp holding the given number of milliseconds.
    pub fn from_millis(millis: u64) -> (t: Timestamp)
        ensures
            t.0 == millis,
    {
        Timestamp(millis)
    }

    /// The number of milliseconds since the Unix epoch.
    pub fn as_u64(&self) -> (v: u64)
        ensures
            v == self.0,
    {
        self.0
    }
}

} // verus!
