//! The device session: what may be asked of a capture device, and when.
//!
//! The session does no I/O. The caller talks to the device and reports each
//! answer; the session decides what the answer means and which operation is
//! in order next.

use vstd::prelude::*;
use crate::fault::Fault;
use crate::format::negotiate_format;
use crate::format::FormatDescriptor;
use crate::format::Negotiated;
use crate::format::OnMismatch;

verus! {

/// Where a session stands.
#[derive(Clone, Copy, Debug, PartialEq, Eq, Structural)]
pub enum SessionPhase {
    /// No device is held.
    Closed,
    /// The device is held; its format and buffers may be set up.
    Open,
    /// The capture pipeline runs.
    Streaming,
}

/// What the device boundary answered to a request for exclusive access.
#[derive(Clone, Copy, Debug, PartialEq, Eq, Structural)]
pub enum OpenOutcome {
    /// The caller now holds the device.
    Granted,
    /// No device exists under the identifier.
    Missing,
    /// Another holder has the device.
    Busy,
}

/// A device session.
pub struct Session {
    phase: SessionPhase,
    format: Option<FormatDescriptor>,
    depth: u32,
}

impl Session {
    /// The phase the session is in.
    pub closed spec fn phase(&self) -> SessionPhase {
        self.phase
    }

    /// The format in force, once one has been negotiated.
    pub closed spec fn format(&self) -> Option<FormatDescriptor> {
        self.format
    }

    /// The depth of the buffer ring; zero while none is allocated.
    pub closed spec fn depth(&self) -> u32 {
        self.depth
    }

    /// A pipeline runs only on a ring of at least one buffer, and a session
    /// without a device has neither format nor ring.
    pub open spec fn wf(&self) -> bool {
        &&& self.phase() == SessionPhase::Streaming ==> self.depth() >= 1
        &&& self.phase() == SessionPhase::Closed ==> self.depth() == 0 && self.format() is None
    }

    /// Whether acquisitions are in order.
    pub open spec fn started(&self) -> bool {
        self.phase() == SessionPhase::Streaming
    }

    /// A session that holds no device.
    pub fn new() -> (session: Session)
        ensures
            session.wf(),
            session.phase() == SessionPhase::Closed,
            session.format() is None,
            session.depth() == 0,
    {
        Session { phase: SessionPhase::Closed, format: None, depth: 0 }
    }

    /// The phase the session is in.
    pub fn current_phase(&self) -> (phase: SessionPhase)
        ensures
            phase == self.phase(),
    {
        self.phase
    }

    /// The format in force, once one has been negotiated.
    pub fn active_format(&self) -> (format: Option<FormatDescriptor>)
        ensures
            format == self.format(),
    {
        self.format
    }

    /// The depth of the buffer ring; zero while none is allocated.
    pub fn ring_depth(&self) -> (depth: u32)
        ensures
            depth == self.depth(),
    {
        self.depth
    }

    /// Takes the answer to a request for exclusive access. The session
    /// opens when access was granted to a session that held no device;
    /// otherwise the device is unavailable and the session stays as it was.
    pub fn open(&mut self, outcome: OpenOutcome) -> (opened: Result<(), Fault>)
        requires
            old(self).wf(),
        ensures
            final(self).wf(),
            opened is Ok <==> old(self).phase() == SessionPhase::Closed && outcome
                == OpenOutcome::Granted,
            opened matches Err(fault) ==> fault == Fault::DeviceUnavailable && *final(self) == *old(
                self,
            ),
            opened is Ok ==> {
                &&& final(self).phase() == SessionPhase::Open
                &&& final(self).format() is None
                &&& final(self).depth() == 0
            },
    {
        match (self.phase, outcome) {
            (SessionPhase::Closed, OpenOutcome::Granted) => {
                self.phase = SessionPhase::Open;
                Ok(())
            },
            _ => Err(Fault::DeviceUnavailable),
        }
    }

    /// Takes the format the device accepted for a preferred one. The device
    /// must be held, idle and without a buffer ring, else it is unavailable
    /// for negotiation. The answer is judged as `negotiate_format` says; a
    /// format that passes becomes the format in force.
    pub fn negotiate_format(
        &mut self,
        preferred: &FormatDescriptor,
        accepted: &FormatDescriptor,
        on_mismatch: OnMismatch,
    ) -> (outcome: Result<Negotiated, Fault>)
        requires
            old(self).wf(),
        ensures
            final(self).wf(),
            final(self).phase() == old(self).phase(),
            final(self).depth() == old(self).depth(),
            outcome is Ok <==> {
                &&& old(self).phase() == SessionPhase::Open
                &&& old(self).depth() == 0
                &&& (preferred.same_encoding(accepted) || on_mismatch == OnMismatch::Degrade)
            },
            outcome matches Err(fault) ==> {
                &&& *final(self) == *old(self)
                &&& fault == if old(self).phase() == SessionPhase::Open && old(self).depth() == 0 {
                    Fault::FormatNegotiationMismatch
                } else {
                    Fault::DeviceUnavailable
                }
            },
            outcome matches Ok(negotiated) ==> {
                &&& final(self).format() == Some(*accepted)
                &&& negotiated.format == *accepted
                &&& negotiated.degraded == !preferred.same_encoding(accepted)
                &&& negotiated.resized == !preferred.same_size(accepted)
            },
    {
        match self.phase {
            SessionPhase::Open => {},
            _ => {
                return Err(Fault::DeviceUnavailable);
            },
        }
        if self.depth != 0 {
            return Err(Fault::DeviceUnavailable);
        }
        let negotiated = negotiate_format(preferred, accepted, on_mismatch)?;
        self.format = Some(negotiated.format);
        Ok(negotiated)
    }

    /// Takes the number of buffers the driver reserved when `count` were
    /// asked for. The allocation fails when none was asked for or fewer
    /// were reserved; on a session that is not open and idle the device is
    /// unavailable. On success the ring has the depth the driver reserved.
    pub fn allocate_buffers(&mut self, count: u32, reserved: u32) -> (depth: Result<u32, Fault>)
        requires
            old(self).wf(),
        ensures
            final(self).wf(),
            final(self).phase() == old(self).phase(),
            final(self).format() == old(self).format(),
            depth is Ok <==> old(self).phase() == SessionPhase::Open && 1 <= count <= reserved,
            depth matches Err(fault) ==> {
                &&& *final(self) == *old(self)
                &&& fault == if old(self).phase() == SessionPhase::Open {
                    Fault::AllocationFailed
                } else {
                    Fault::DeviceUnavailable
                }
            },
            depth matches Ok(d) ==> d == reserved && final(self).depth() == reserved,
    {
        match self.phase {
            SessionPhase::Open => {},
            _ => {
                return Err(Fault::DeviceUnavailable);
            },
        }
        if count == 0 || reserved < count {
            return Err(Fault::AllocationFailed);
        }
        self.depth = reserved;
        Ok(reserved)
    }

    /// Begins the capture pipeline. A session without a device cannot
    /// start, nor one without a buffer ring; a session that streams already
    /// goes on streaming.
    pub fn start(&mut self) -> (started: Result<(), Fault>)
        requires
            old(self).wf(),
        ensures
            final(self).wf(),
            final(self).format() == old(self).format(),
            final(self).depth() == old(self).depth(),
            started is Ok <==> old(self).phase() != SessionPhase::Closed && old(self).depth() >= 1,
            started is Ok ==> final(self).started(),
            started matches Err(fault) ==> {
                &&& *final(self) == *old(self)
                &&& fault == if old(self).phase() == SessionPhase::Closed {
                    Fault::DeviceUnavailable
                } else {
                    Fault::AllocationFailed
                }
            },
    {
        if let SessionPhase::Closed = self.phase {
            return Err(Fault::DeviceUnavailable);
        }
        if self.depth == 0 {
            return Err(Fault::AllocationFailed);
        }
        self.phase = SessionPhase::Streaming;
        Ok(())
    }

    /// Ends the capture pipeline. The device stays held, with its format
    /// and ring; a session that does not stream stays as it was.
    pub fn stop(&mut self)
        requires
            old(self).wf(),
        ensures
            final(self).wf(),
            !final(self).started(),
            final(self).format() == old(self).format(),
            final(self).depth() == old(self).depth(),
            final(self).phase() == if old(self).started() {
                SessionPhase::Open
            } else {
                old(self).phase()
            },
    {
        if let SessionPhase::Streaming = self.phase {
            self.phase = SessionPhase::Open;
        }
    }

    /// Gives the device up, from any phase.
    pub fn release(&mut self)
        ensures
            final(self).wf(),
            final(self).phase() == SessionPhase::Closed,
            final(self).format() is None,
            final(self).depth() == 0,
    {
        self.phase = SessionPhase::Closed;
        self.format = None;
        self.depth = 0;
    }

    /// Whether an acquisition is in order: it is exactly while the pipeline
    /// runs, and asking for one at another time is the fault `NotStarted`.
    pub fn acquire(&self) -> (permit: Result<(), Fault>)
        ensures
            permit is Ok <==> self.started(),
            permit matches Err(fault) ==> fault == Fault::NotStarted,
    {
        match self.phase {
            SessionPhase::Streaming => Ok(()),
            _ => Err(Fault::NotStarted),
        }
    }
}

} // verus!
