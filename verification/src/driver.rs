//! What the graphics driver answers to the requests made of it.

use vstd::prelude::*;

verus! {

/// The driver's answer to a request that it either carries out or refuses.
#[derive(Clone, Copy, Debug, PartialEq, Eq, Structural)]
pub enum DriverOutcome {
    /// The driver carried the request out.
    Accepted,
    /// The driver refused the request.
    Rejected,
}

/// How a wait on a fence ended.
#[derive(Clone, Copy, Debug, PartialEq, Eq, Structural)]
pub enum WaitOutcome {
    /// The device finished the submission.
    Signaled,
    /// The wait came back before the device had finished.
    TimedOut,
    /// The device is gone.
    DeviceLost,
}

} // verus!
