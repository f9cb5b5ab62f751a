use vstd::prelude::*;

verus! {

/// A raw driver status code, surfaced to the caller unmodified.
///
/// Zero is the success code; every other value tags a failure whose meaning
/// is owned by the native driver.  This layer never interprets, retries or
/// translates a status.
#[derive(Clone, Copy, PartialEq, Eq, Structural, Debug)]
pub struct Status {
    pub code: i64,
}

impl Status {
    /// Whether this status is the success code.
    pub open spec fn spec_is_success(self) -> bool {
        self.code == 0
    }

    /// Whether this status is the success code.
    pub fn is_success(&self) -> (b: bool)
        ensures
            b == self.spec_is_success(),
    {
        self.code == 0
    }
}

/// Failure of a query that bridges a caller buffer to the driver.
#[derive(Clone, Copy, PartialEq, Eq, Structural, Debug)]
pub enum QueryError {
    /// The driver returned a non-success status code, carried verbatim.
    Driver(Status),
    /// The driver reported that it wrote a different number of elements than
    /// the buffer length it was handed.  This is a contract violation between
    /// this layer and the driver: once buffer sizes cannot be trusted, no
    /// later assumption about them is sound, so the condition is surfaced as
    /// its own terminal variant rather than folded into a status code.
    CountMismatch { requested: u32, written: u32 },
}

} // verus!
