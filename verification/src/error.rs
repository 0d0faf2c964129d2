use vstd::prelude::*;

verus! {

/// Failure classes of a flash operation.
#[derive(Clone, Copy, PartialEq, Eq, Debug, Structural)]
pub enum Error {
    /// The controller was still executing an earlier operation.
    Busy,
    /// The controller rejected the requested operation.
    Illegal,
    /// The error-correction logic detected a fault while reading.
    EccError,
    /// The page number is out of range.
    PageOutOfRange,
    /// The unlock key sequence did not take effect.
    Failure,
}

} // verus!
