//! Capture timestamps: seconds since the Unix epoch, from readings of the
//! monotonic and the system clock.

use vstd::prelude::*;
use std::time::Instant;
use std::time::SystemTime;
use std::time::UNIX_EPOCH;
use crate::fault::Fault;

verus! {

/// `std::time::Instant`, a reading of the monotonic clock. It is only
/// passed on to `Instant::elapsed`.
#[verifier::external_type_specification]
#[verifier::external_body]
pub struct ExInstant(std::time::Instant);

/// `std::time::SystemTime`, a reading of the system clock. It is only
/// passed on to `SystemTime::duration_since`.
#[verifier::external_type_specification]
#[verifier::external_body]
pub struct ExSystemTime(std::time::SystemTime);

/// A span of time as whole seconds and the nanoseconds beyond them.
#[derive(Clone, Copy, Debug, PartialEq, Eq, Structural)]
pub struct Span {
    pub secs: u64,
    pub nanos: u32,
}

/// `Instant::elapsed`: the time that has passed since the instant, whose
/// fractional part is less than a second.
#[verifier::external_body]
fn elapsed_since(instant: &Instant) -> (span: Span)
    ensures
        span.nanos < 1_000_000_000,
{
    let elapsed = instant.elapsed();
    Span { secs: elapsed.as_secs(), nanos: elapsed.subsec_nanos() }
}

/// `SystemTime::now`: a reading of the system clock.
#[verifier::external_body]
fn system_now() -> SystemTime {
    SystemTime::now()
}

/// `SystemTime::duration_since` the Unix epoch: the time from the epoch to
/// the reading, whose fractional part is less than a second, or `None` for
/// a reading that lies before the epoch.
#[verifier::external_body]
fn since_epoch(reading: &SystemTime) -> (span: Option<Span>)
    ensures
        span matches Some(s) ==> s.nanos < 1_000_000_000,
{
    match reading.duration_since(UNIX_EPOCH) {
        Ok(d) => Some(Span { secs: d.as_secs(), nanos: d.subsec_nanos() }),
        Err(_) => None,
    }
}

/// The whole seconds in the sum of two spans.
pub open spec fn whole_seconds(base: Span, extra: Span) -> nat {
    (base.secs + extra.secs + (base.nanos + extra.nanos) / 1_000_000_000) as nat
}

/// The timestamp that lies `elapsed` after the time `since_epoch`: the
/// whole seconds of their sum, or `None` where a `u64` cannot hold them.
pub fn timestamp_after(since_epoch: Span, elapsed: Span) -> (timestamp: Option<u64>)
    ensures
        timestamp is Some <==> whole_seconds(since_epoch, elapsed) <= u64::MAX,
        timestamp matches Some(t) ==> t == whole_seconds(since_epoch, elapsed),
{
    let carry: u64 = (since_epoch.nanos as u64 + elapsed.nanos as u64) / 1_000_000_000;
    match since_epoch.secs.checked_add(elapsed.secs) {
        Some(secs) => secs.checked_add(carry),
        None => None,
    }
}

/// The timestamp that two clock readings give. A system clock that read a
/// time before the epoch is the fault `TimeWentBackwards`; a sum whose whole
/// seconds exceed a `u64` is the fault `TimestampOverflow`; else it is the
/// timestamp that lies `elapsed` after the time the system clock read.
pub open spec fn stamped(since_epoch: Option<Span>, elapsed: Span) -> Result<u64, Fault> {
    match since_epoch {
        Some(base) => if whole_seconds(base, elapsed) <= u64::MAX {
            Ok(whole_seconds(base, elapsed) as u64)
        } else {
            Err(Fault::TimestampOverflow)
        },
        None => Err(Fault::TimeWentBackwards),
    }
}

/// Computes the timestamp from what the two clocks read: the system
/// clock's time since the epoch, if it read one, and the time that has
/// passed on the monotonic clock.
pub fn timestamp_of_readings(since_epoch: Option<Span>, elapsed: Span) -> (timestamp: Result<
    u64,
    Fault,
>)
    ensures
        timestamp == stamped(since_epoch, elapsed),
{
    match since_epoch {
        Some(base) => match timestamp_after(base, elapsed) {
            Some(seconds) => Ok(seconds),
            None => Err(Fault::TimestampOverflow),
        },
        None => Err(Fault::TimeWentBackwards),
    }
}

/// The timestamp of an instant, in seconds since the Unix epoch: the
/// system clock's time since the epoch plus the time that has passed since
/// the instant. It fails with `TimeWentBackwards` when the system clock
/// reads a time before the epoch, and with `TimestampOverflow` when the sum
/// exceeds what a `u64` holds.
///
/// Both clocks are read here. Whatever they read, the result is what
/// `stamped` gives for a reading of the system clock and a reading of the
/// time passed, each with less than a second beyond its whole seconds.
pub fn instant_to_timestamp(instant: Instant) -> (timestamp: Result<u64, Fault>)
    ensures
        exists|since: Option<Span>, elapsed: Span|
            elapsed.nanos < 1_000_000_000 && (since matches Some(base) ==> base.nanos
                < 1_000_000_000) && timestamp == #[trigger] stamped(since, elapsed),
{
    let elapsed = elapsed_since(&instant);
    let reading = system_now();
    timestamp_of_readings(since_epoch(&reading), elapsed)
}

} // verus!
