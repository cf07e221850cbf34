//! The capture loop: warm-up, a run of measured acquisition cycles, and the
//! rules for retry, cancellation and termination.
//!
//! The loop owns the device session for its duration and does no I/O. The
//! caller asks what is in order, performs the blocking acquisition, and
//! reports what it came back with and when.

use vstd::prelude::*;
use crate::fault::Fault;
use crate::fraction::Fraction;
use crate::fraction::Rate;
use crate::session::Session;
use crate::session::SessionPhase;
use crate::throughput::instantaneous_rate;
use crate::throughput::bytes_per_second;
use crate::throughput::ThroughputEstimate;

verus! {

/// The status flag a driver sets on a buffer whose data is corrupted.
pub const FLAG_ERROR: u32 = 0x0000_0040;

/// Nanoseconds in one second.
pub const NANOS_PER_SECOND: u64 = 1_000_000_000;

/// What the driver tells of a filled buffer.
#[derive(Clone, Copy, Debug, PartialEq, Eq, Structural)]
pub struct FrameMeta {
    /// The number of bytes the frame occupies.
    pub length: u64,
    /// The driver's running number of the frame.
    pub sequence: u32,
    /// The capture time the driver noted, seconds part.
    pub timestamp_secs: u64,
    /// The capture time the driver noted, microseconds part.
    pub timestamp_micros: u32,
    /// The status flags.
    pub flags: u32,
}

impl FrameMeta {
    /// The driver reports an error during the capture of this frame.
    pub open spec fn corrupt(&self) -> bool {
        self.flags & FLAG_ERROR != 0
    }

    /// Whether the driver reports an error during the capture of this frame.
    pub fn is_corrupt(&self) -> (corrupt: bool)
        ensures
            corrupt == self.corrupt(),
    {
        self.flags & FLAG_ERROR != 0
    }
}

/// What a blocking acquisition came back with.
#[derive(Clone, Copy, Debug, PartialEq, Eq, Structural)]
pub enum Acquisition {
    /// The driver handed over a filled buffer.
    Frame(FrameMeta),
    /// The driver reported a failure, such as a disconnected device.
    Failed,
}

impl Acquisition {
    /// The acquisition yields no usable frame: it failed, or its frame is
    /// corrupt.
    pub open spec fn lost(&self) -> bool {
        match *self {
            Acquisition::Frame(meta) => meta.corrupt(),
            Acquisition::Failed => true,
        }
    }
}

/// The frame rate of `count` frames whose first acquisition began at
/// `first_start` and whose last acquisition completed at `last_done`, both in
/// nanoseconds on one clock: the count over the span in seconds.
pub open spec fn frame_rate(count: int, first_start: int, last_done: int) -> Fraction {
    Fraction { num: count * 1_000_000_000, den: last_done - first_start }
}

/// Computes the frame rate, in frames per second. There is none over a span
/// that is empty or runs backwards.
pub fn frames_per_second(count: u64, first_start: u64, last_done: u64) -> (fps: Option<Rate>)
    ensures
        fps is Some <==> first_start < last_done,
        fps matches Some(rate) ==> rate@ == frame_rate(
            count as int,
            first_start as int,
            last_done as int,
        ),
{
    if first_start < last_done {
        assert(count * NANOS_PER_SECOND == count * 1_000_000_000 <= u128::MAX);
        Some(
            Rate {
                num: (count as u128) * (NANOS_PER_SECOND as u128),
                den: (last_done - first_start) as u128,
            },
        )
    } else {
        None
    }
}

/// Where a capture loop stands.
#[derive(Clone, Copy, Debug, PartialEq, Eq, Structural)]
pub enum LoopPhase {
    /// Nothing has been acquired yet.
    Idle,
    /// The pipeline is being primed: the next good frame is discarded.
    Warming,
    /// Cycles run: every good frame is counted and forwarded.
    Running,
    /// The loop acquires no more.
    Stopped,
}

/// What is in order between two cycles.
#[derive(Clone, Copy, Debug, PartialEq, Eq, Structural)]
pub enum Action {
    /// Acquire the next filled buffer and report it.
    Acquire,
    /// Acquire no more; the loop has stopped.
    Finish,
}

/// What became of a reported acquisition.
#[derive(Clone, Copy, Debug, PartialEq, Eq, Structural)]
pub enum Step {
    /// The frame primed the pipeline and is discarded.
    Discarded,
    /// The frame counts and is to be published: it is the cycle with this
    /// 0-based index, captured at this rate in bytes per second. A frame
    /// whose rate cannot be stated counts and is published all the same, and
    /// only the throughput estimate passes over it.
    Forward { index: u64, rate: Option<u64> },
    /// The acquisition was lost and may be tried once more.
    Retry,
}

/// The cycle limit of a loop that runs until it is cancelled: as many
/// cycles as the frame counter holds.
pub const UNBOUNDED: u64 = u64::MAX;

/// The rate of a frame of `length` bytes whose acquisition began at
/// `started` and completed at `completed`, in nanoseconds: its bytes over
/// the whole microseconds it took, in whole bytes per second. There is none
/// when the acquisition took less than a microsecond, when its readings run
/// backwards, or when the rate exceeds what a `u64` holds.
pub open spec fn measured(length: u64, started: u64, completed: u64) -> Option<u64> {
    let micros = (completed - started) / 1000;
    if micros > 0 && bytes_per_second(length as nat, micros as nat) <= u64::MAX {
        Some(bytes_per_second(length as nat, micros as nat) as u64)
    } else {
        None
    }
}

/// A capture loop with the device session it owns.
pub struct CaptureLoop {
    session: Session,
    phase: LoopPhase,
    limit: u64,
    retried: bool,
    stopping: bool,
    cycles: u64,
    estimate: ThroughputEstimate,
    first_start: u64,
    last_done: u64,
}

impl CaptureLoop {
    /// The device session the loop owns.
    pub closed spec fn session(&self) -> Session {
        self.session
    }

    /// The phase the loop is in.
    pub closed spec fn phase(&self) -> LoopPhase {
        self.phase
    }

    /// The number of cycles the loop runs at most.
    pub closed spec fn limit(&self) -> u64 {
        self.limit
    }

    /// The acquisition that is due has been lost once already.
    pub closed spec fn retried(&self) -> bool {
        self.retried
    }

    /// A stop has been requested.
    pub closed spec fn stopping(&self) -> bool {
        self.stopping
    }

    /// The number of cycles so far: the good frames after the warm-up,
    /// each of which was forwarded.
    pub closed spec fn cycles(&self) -> u64 {
        self.cycles
    }

    /// The throughput estimate over the cycles whose rate could be stated.
    pub closed spec fn estimate(&self) -> ThroughputEstimate {
        self.estimate
    }

    /// The rates taken into the estimate so far, oldest first.
    pub open spec fn rates(&self) -> Seq<u64> {
        self.estimate()@
    }

    /// When the acquisition of the first cycle began.
    pub closed spec fn first_start(&self) -> u64 {
        self.first_start
    }

    /// When the acquisition of the last cycle completed.
    pub closed spec fn last_done(&self) -> u64 {
        self.last_done
    }

    /// The loop acquires: it warms up or runs.
    pub open spec fn acquiring(&self) -> bool {
        self.phase() == LoopPhase::Warming || self.phase() == LoopPhase::Running
    }

    /// What holds of every loop: it acquires only from a started session;
    /// no cycle is counted before the warm-up is over; the cycles never
    /// exceed the limit, and a running loop has one more to go; the estimate
    /// holds at most one rate for each cycle; and only an acquiring loop can
    /// have a retry behind it.
    pub open spec fn wf(&self) -> bool {
        &&& self.session().wf()
        &&& self.estimate().wf()
        &&& self.acquiring() ==> self.session().started()
        &&& self.phase() == LoopPhase::Idle || self.phase() == LoopPhase::Warming
            ==> self.cycles() == 0
        &&& self.phase() == LoopPhase::Running ==> self.cycles() < self.limit()
        &&& self.cycles() <= self.limit()
        &&& self.rates().len() <= self.cycles()
        &&& self.retried() ==> self.acquiring()
    }

    /// A loop over the session, for `cycles` cycles after the warm-up or,
    /// with `None`, until it is cancelled. The loop takes the session over.
    pub fn new(session: Session, cycles: Option<u64>) -> (lp: CaptureLoop)
        requires
            session.wf(),
        ensures
            lp.wf(),
            lp.session() == session,
            lp.phase() == LoopPhase::Idle,
            lp.limit() == match cycles {
                Some(n) => n,
                None => UNBOUNDED,
            },
            !lp.retried(),
            !lp.stopping(),
            lp.cycles() == 0,
            lp.rates() == Seq::<u64>::empty(),
    {
        let limit = match cycles {
            Some(n) => n,
            None => UNBOUNDED,
        };
        CaptureLoop {
            session,
            phase: LoopPhase::Idle,
            limit,
            retried: false,
            stopping: false,
            cycles: 0,
            estimate: ThroughputEstimate::new(),
            first_start: 0,
            last_done: 0,
        }
    }

    /// The phase the loop is in.
    pub fn current_phase(&self) -> (phase: LoopPhase)
        ensures
            phase == self.phase(),
    {
        self.phase
    }

    /// The number of cycles so far.
    pub fn frames(&self) -> (n: u64)
        ensures
            n == self.cycles(),
    {
        self.cycles
    }

    /// The number of cycles whose rate the estimate holds.
    pub fn measured_frames(&self) -> (n: u64)
        requires
            self.wf(),
        ensures
            n as nat == self.rates().len(),
            n <= self.cycles(),
    {
        self.estimate.frames()
    }

    /// Requests a stop. The request is honoured between two cycles: an
    /// acquisition that is under way is still taken.
    pub fn request_stop(&mut self)
        ensures
            final(self).stopping(),
            final(self).session() == old(self).session(),
            final(self).phase() == old(self).phase(),
            final(self).limit() == old(self).limit(),
            final(self).retried() == old(self).retried(),
            final(self).cycles() == old(self).cycles(),
            final(self).estimate() == old(self).estimate(),
            final(self).first_start() == old(self).first_start(),
            final(self).last_done() == old(self).last_done(),
    {
        self.stopping = true;
    }

    /// Says what is in order between two cycles. A requested stop ends the
    /// loop here. An idle loop begins to warm up if its session has been
    /// started, and is refused with `NotStarted` if not. A stopped loop
    /// stays stopped.
    pub fn next_action(&mut self) -> (action: Result<Action, Fault>)
        requires
            old(self).wf(),
        ensures
            final(self).wf(),
            final(self).session() == old(self).session(),
            final(self).limit() == old(self).limit(),
            final(self).stopping() == old(self).stopping(),
            final(self).cycles() == old(self).cycles(),
            final(self).estimate() == old(self).estimate(),
            final(self).first_start() == old(self).first_start(),
            final(self).last_done() == old(self).last_done(),
            action is Err <==> old(self).phase() == LoopPhase::Idle && !old(self).stopping()
                && !old(self).session().started(),
            action matches Err(fault) ==> fault == Fault::NotStarted && *final(self) == *old(self),
            action matches Ok(Action::Finish) <==> old(self).phase() == LoopPhase::Stopped || old(
                self,
            ).stopping(),
            action matches Ok(Action::Finish) ==> final(self).phase() == LoopPhase::Stopped
                && !final(self).retried(),
            action matches Ok(Action::Acquire) ==> {
                &&& final(self).acquiring()
                &&& final(self).retried() == old(self).retried()
                &&& final(self).phase() == if old(self).phase() == LoopPhase::Idle {
                    LoopPhase::Warming
                } else {
                    old(self).phase()
                }
            },
    {
        if let LoopPhase::Stopped = self.phase {
            return Ok(Action::Finish);
        }
        if self.stopping {
            self.phase = LoopPhase::Stopped;
            self.retried = false;
            return Ok(Action::Finish);
        }
        if let LoopPhase::Idle = self.phase {
            self.session.acquire()?;
            self.phase = LoopPhase::Warming;
        }
        Ok(Action::Acquire)
    }

    /// Takes what an acquisition came back with, and the clock readings,
    /// in nanoseconds, of its begin and its completion.
    ///
    /// A loop that does not acquire refuses the report with `NotStarted`.
    /// A lost acquisition may be tried once more; when the retry is lost as
    /// well the loop stops with `CaptureError`. The first good frame ends the
    /// warm-up and is discarded. Every later good frame is a cycle: it is
    /// counted and forwarded, its rate is taken into the estimate where it
    /// can be stated, and the loop stops with the frame that reaches the
    /// limit.
    pub fn on_acquisition(&mut self, outcome: Acquisition, started: u64, completed: u64) -> (step:
        Result<Step, Fault>)
        requires
            old(self).wf(),
        ensures
            final(self).wf(),
            final(self).session() == old(self).session(),
            final(self).limit() == old(self).limit(),
            final(self).stopping() == old(self).stopping(),
            !old(self).acquiring() ==> step == Err::<Step, Fault>(Fault::NotStarted) && *final(self)
                == *old(self),
            old(self).acquiring() && outcome.lost() ==> {
                &&& final(self).cycles() == old(self).cycles()
                &&& final(self).estimate() == old(self).estimate()
                &&& final(self).first_start() == old(self).first_start()
                &&& final(self).last_done() == old(self).last_done()
                &&& if old(self).retried() {
                    &&& step == Err::<Step, Fault>(Fault::CaptureError)
                    &&& final(self).phase() == LoopPhase::Stopped
                    &&& !final(self).retried()
                } else {
                    &&& step == Ok::<Step, Fault>(Step::Retry)
                    &&& final(self).phase() == old(self).phase()
                    &&& final(self).retried()
                }
            },
            old(self).phase() == LoopPhase::Warming && !outcome.lost() ==> {
                &&& step == Ok::<Step, Fault>(Step::Discarded)
                &&& final(self).phase() == if old(self).limit() == 0 {
                    LoopPhase::Stopped
                } else {
                    LoopPhase::Running
                }
                &&& !final(self).retried()
                &&& final(self).cycles() == old(self).cycles()
                &&& final(self).estimate() == old(self).estimate()
                &&& final(self).first_start() == old(self).first_start()
                &&& final(self).last_done() == old(self).last_done()
            },
            old(self).phase() == LoopPhase::Running && !outcome.lost() ==> {
                let rate = measured((outcome->Frame_0).length, started, completed);
                &&& step == Ok::<Step, Fault>(Step::Forward { index: old(self).cycles(), rate })
                &&& final(self).cycles() == old(self).cycles() + 1
                &&& final(self).rates() == match rate {
                    Some(r) => old(self).rates().push(r),
                    None => old(self).rates(),
                }
                &&& final(self).phase() == if old(self).cycles() + 1 == old(self).limit() {
                    LoopPhase::Stopped
                } else {
                    LoopPhase::Running
                }
                &&& !final(self).retried()
                &&& final(self).last_done() == completed
                &&& final(self).first_start() == if old(self).cycles() == 0 {
                    started
                } else {
                    old(self).first_start()
                }
            },
    {
        match self.phase {
            LoopPhase::Idle | LoopPhase::Stopped => {
                return Err(Fault::NotStarted);
            },
            _ => {},
        }
        let meta = match outcome {
            Acquisition::Frame(meta) if !meta.is_corrupt() => meta,
            _ => {
                if self.retried {
                    self.retried = false;
                    self.phase = LoopPhase::Stopped;
                    return Err(Fault::CaptureError);
                }
                self.retried = true;
                return Ok(Step::Retry);
            },
        };
        if let LoopPhase::Warming = self.phase {
            self.retried = false;
            self.phase = if self.limit == 0 {
                LoopPhase::Stopped
            } else {
                LoopPhase::Running
            };
            return Ok(Step::Discarded);
        }
        let rate = if started < completed {
            instantaneous_rate(meta.length, (completed - started) / 1000)
        } else {
            None
        };
        if let Some(r) = rate {
            self.estimate.record(r);
        }
        let index = self.cycles;
        if index == 0 {
            self.first_start = started;
        }
        self.last_done = completed;
        self.retried = false;
        self.cycles = index + 1;
        if self.cycles == self.limit {
            self.phase = LoopPhase::Stopped;
        }
        Ok(Step::Forward { index, rate })
    }

    /// The frame rate over the cycles, in frames per second: their count
    /// over the span from the begin of the first cycle's acquisition to the
    /// completion of the last one's. There is none before the first cycle,
    /// nor over a span that the clock readings leave empty or running
    /// backwards.
    pub fn frames_per_second(&self) -> (fps: Option<Rate>)
        ensures
            fps is Some <==> self.cycles() > 0 && self.first_start() < self.last_done(),
            fps matches Some(rate) ==> rate@ == frame_rate(
                self.cycles() as int,
                self.first_start() as int,
                self.last_done() as int,
            ),
    {
        if self.cycles == 0 {
            None
        } else {
            frames_per_second(self.cycles, self.first_start, self.last_done)
        }
    }

    /// The throughput estimate over the cycles whose rate could be stated,
    /// in bytes per second. There is none before the first such cycle.
    pub fn throughput(&self) -> (r: Option<Rate>)
        requires
            self.wf(),
        ensures
            r is Some <==> self.rates().len() > 0,
            r matches Some(rate) ==> rate@ == self.estimate().model(),
    {
        self.estimate.rate()
    }

    /// The throughput estimate in megabytes per second.
    pub fn megabytes_per_second(&self) -> (r: Option<Rate>)
        requires
            self.wf(),
        ensures
            r is Some <==> self.rates().len() > 0,
            r matches Some(rate) ==> rate@ == self.estimate().model().scaled(1, 1_048_576),
    {
        self.estimate.megabytes_per_second()
    }

    /// Ends the loop and hands the session back with its pipeline stopped,
    /// so that no further acquisition is in order on it.
    pub fn finish(self) -> (session: Session)
        requires
            self.wf(),
        ensures
            session.wf(),
            !session.started(),
            session.phase() == if self.session().started() {
                SessionPhase::Open
            } else {
                self.session().phase()
            },
            session.format() == self.session().format(),
            session.depth() == self.session().depth(),
    {
        let mut session = self.session;
        session.stop();
        session
    }
}

} // verus!
