//! Capture-and-measure core for a video capture benchmark.
//!
//! The library holds the rules of a bounded-buffer capture run: the device
//! session's lifecycle, format negotiation, the capture loop with its
//! warm-up, retry and cancellation rules, the running throughput estimate,
//! the frame rate, and the hand-off of timestamped frame copies to a bounded
//! conveyance. Device I/O stays with the caller, which reports what the
//! device answered.

pub mod capture;
pub mod clock;
pub mod conveyance;
pub mod fault;
pub mod format;
pub mod fraction;
pub mod session;
pub mod throughput;
