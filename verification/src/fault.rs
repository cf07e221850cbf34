//! The faults a capture run can end in or report.

use vstd::prelude::*;

verus! {

/// What went wrong. Setup faults abort the run; a capture fault is final
/// only after its one retry; a conveyance fault follows from the policy the
/// conveyance was opened with; a clock fault leaves a frame without its
/// timestamp.
#[derive(Clone, Copy, Debug, PartialEq, Eq, Structural)]
pub enum Fault {
    /// The device could not be opened, or no device is held.
    DeviceUnavailable,
    /// The device settled on another encoding than the one asked for.
    FormatNegotiationMismatch,
    /// The driver could not reserve the buffer ring.
    AllocationFailed,
    /// An acquisition was asked for while the pipeline was not running.
    NotStarted,
    /// A frame was lost to corruption or disconnect, after its retry.
    CaptureError,
    /// The conveyance had no room and its policy is to fail.
    ConveyanceFull,
    /// The conveyance's receiving end is gone.
    ConveyanceClosed,
    /// The system clock reads a time before the epoch.
    TimeWentBackwards,
    /// The timestamp exceeds what a `u64` holds.
    TimestampOverflow,
}

} // verus!
