//! The bounded conveyance that hands timestamped frame copies to a
//! consumer, and the policy that decides what a full conveyance means.
//!
//! The frames travel through a bounded `tokio` channel as pairs of a
//! timestamp and `bytes::Bytes`. What the channel answers to an offer depends
//! on its consumer, so the rules are stated for every answer it can give.

use vstd::prelude::*;
use vstd::slice::slice_to_vec;
use bytes::Bytes;
use tokio::sync::mpsc::Receiver;
use tokio::sync::mpsc::Sender;
use tokio::sync::mpsc::error::TrySendError;
use crate::fault::Fault;

verus! {

/// `bytes::Bytes`, an owned and immutable run of bytes. Its contents are
/// known only through `bytes_content`.
#[verifier::external_type_specification]
#[verifier::external_body]
pub struct ExBytes(bytes::Bytes);

/// `tokio::sync::mpsc::Sender`, the sending end of a bounded channel.
/// Nothing is known of the channel behind it.
#[verifier::external_type_specification]
#[verifier::external_body]
#[verifier::reject_recursive_types(T)]
pub struct ExSender<T>(tokio::sync::mpsc::Sender<T>);

/// `tokio::sync::mpsc::Receiver`, the receiving end of a bounded channel.
/// It is only passed on to the consumer.
#[verifier::external_type_specification]
#[verifier::external_body]
#[verifier::reject_recursive_types(T)]
pub struct ExReceiver<T>(tokio::sync::mpsc::Receiver<T>);

/// The bytes that a `Bytes` holds, in order.
pub uninterp spec fn bytes_content(data: Bytes) -> Seq<u8>;

/// `Bytes::from` for a `Vec<u8>`: the result holds the vector's bytes, in
/// the vector's order.
#[verifier::external_body]
fn owned_bytes(data: Vec<u8>) -> (owned: Bytes)
    ensures
        bytes_content(owned) == data@,
{
    Bytes::from(data)
}

/// `tokio::sync::mpsc::channel`: a bounded channel of the given capacity.
/// The call panics for a capacity of zero or above an eighth of `usize::MAX`,
/// so both are left out. Nothing is claimed of the two ends.
#[verifier::external_body]
fn open_lane(capacity: usize) -> (ends: (Sender<(u64, Bytes)>, Receiver<(u64, Bytes)>))
    requires
        0 < capacity <= usize::MAX / 8,
{
    tokio::sync::mpsc::channel(capacity)
}

/// An owned copy of one frame's bytes with its capture timestamp, in
/// seconds since the epoch.
#[derive(Debug, PartialEq, Eq)]
pub struct FrameRecord {
    pub timestamp: u64,
    pub data: Bytes,
}

impl FrameRecord {
    /// The frame's bytes.
    pub open spec fn content(&self) -> Seq<u8> {
        bytes_content(self.data)
    }

    /// Copies a frame out of the memory it was captured into and pairs the
    /// copy with its timestamp.
    pub fn copy_of(frame: &[u8], timestamp: u64) -> (record: FrameRecord)
        ensures
            record.timestamp == timestamp,
            record.content() == frame@,
    {
        let copy = slice_to_vec(frame);
        FrameRecord { timestamp, data: owned_bytes(copy) }
    }
}

/// What a conveyance does with a frame it has no room for.
#[derive(Clone, Copy, Debug, PartialEq, Eq, Structural)]
pub enum Policy {
    /// The frame is handed back; the producer waits for room and offers it
    /// again. Where there is no room to wait for, the offer fails.
    Block,
    /// The frame is discarded and counted.
    Drop,
    /// The offer fails, and the loop with it.
    Fail,
}

/// What the channel answered to an offer.
#[derive(Debug, PartialEq, Eq)]
pub enum Offered {
    /// The record is in the channel.
    Accepted,
    /// The channel holds as many records as it can; the record comes back.
    Full(FrameRecord),
    /// The receiving end is gone; the record comes back.
    Closed(FrameRecord),
}

/// What became of a frame that was offered.
#[derive(Debug, PartialEq, Eq)]
pub enum Delivery {
    /// The conveyance holds the frame.
    Delivered,
    /// The conveyance was full and the frame was discarded and counted.
    Dropped,
    /// The conveyance was full; the frame is handed back to be offered
    /// again once there is room.
    Deferred(FrameRecord),
}

/// `Sender::try_send`: offers the record as a pair of its timestamp and
/// bytes, without waiting. When the channel is full or closed the answer
/// carries the very record that was offered.
#[verifier::external_body]
fn try_offer(lane: &Sender<(u64, Bytes)>, record: FrameRecord) -> (answer: Offered)
    ensures
        answer matches Offered::Full(back) ==> back == record,
        answer matches Offered::Closed(back) ==> back == record,
{
    match lane.try_send((record.timestamp, record.data)) {
        Ok(()) => Offered::Accepted,
        Err(TrySendError::Full((timestamp, data))) => Offered::Full(FrameRecord { timestamp, data }),
        Err(TrySendError::Closed((timestamp, data))) => Offered::Closed(
            FrameRecord { timestamp, data },
        ),
    }
}

/// The rule of the conveyance: an accepted frame is delivered; a frame that
/// found the conveyance full is handed back, dropped or failed as the policy
/// says; a frame that found it closed is a fault under every policy.
pub open spec fn settled(policy: Policy, answer: Offered) -> Result<Delivery, Fault> {
    match answer {
        Offered::Accepted => Ok(Delivery::Delivered),
        Offered::Full(record) => match policy {
            Policy::Block => Ok(Delivery::Deferred(record)),
            Policy::Drop => Ok(Delivery::Dropped),
            Policy::Fail => Err(Fault::ConveyanceFull),
        },
        Offered::Closed(_) => Err(Fault::ConveyanceClosed),
    }
}

/// Decides what an offer came to, from the policy and the channel's answer.
pub fn settle(policy: Policy, answer: Offered) -> (outcome: Result<Delivery, Fault>)
    ensures
        outcome == settled(policy, answer),
{
    match answer {
        Offered::Accepted => Ok(Delivery::Delivered),
        Offered::Full(record) => match policy {
            Policy::Block => Ok(Delivery::Deferred(record)),
            Policy::Drop => Ok(Delivery::Dropped),
            Policy::Fail => Err(Fault::ConveyanceFull),
        },
        Offered::Closed(_) => Err(Fault::ConveyanceClosed),
    }
}

/// The rule of a conveyance without room: there is no room to wait for, so
/// a frame is dropped under the drop policy and the offer fails under the
/// two others. No frame is ever handed back to wait.
pub open spec fn refused(policy: Policy) -> Result<Delivery, Fault> {
    match policy {
        Policy::Drop => Ok(Delivery::Dropped),
        Policy::Block => Err(Fault::ConveyanceFull),
        Policy::Fail => Err(Fault::ConveyanceFull),
    }
}

/// Decides what an offer to a conveyance without room comes to.
pub fn refuse(policy: Policy) -> (outcome: Result<Delivery, Fault>)
    ensures
        outcome == refused(policy),
{
    match policy {
        Policy::Drop => Ok(Delivery::Dropped),
        Policy::Block => Err(Fault::ConveyanceFull),
        Policy::Fail => Err(Fault::ConveyanceFull),
    }
}

/// The count of dropped frames after one more drop. It stops at the
/// largest count a `u64` holds.
pub open spec fn one_more(dropped: u64) -> u64 {
    if dropped < u64::MAX {
        (dropped + 1) as u64
    } else {
        dropped
    }
}

/// The producer's end of a bounded conveyance, with the policy it was
/// opened with and the count of frames it dropped.
///
/// A conveyance of capacity zero has no room for any frame, and none to
/// wait for: an offer to it is dropped under the drop policy and fails
/// under the two others.
pub struct Conveyance {
    lane: Option<Sender<(u64, Bytes)>>,
    capacity: u16,
    policy: Policy,
    dropped: u64,
}

impl Conveyance {
    /// A conveyance has a channel exactly when it has room for a frame.
    pub closed spec fn wf(&self) -> bool {
        self.lane is Some <==> self.capacity > 0
    }

    /// The number of frames the conveyance can hold.
    pub closed spec fn capacity(&self) -> u16 {
        self.capacity
    }

    /// The policy for a full conveyance.
    pub closed spec fn policy(&self) -> Policy {
        self.policy
    }

    /// The number of frames dropped so far.
    pub closed spec fn dropped(&self) -> u64 {
        self.dropped
    }

    /// What an offer of a frame with this timestamp and these bytes may come
    /// to on this conveyance: with room, what the policy settles for an
    /// accepted, a full or a closed channel; without room, what the policy
    /// refuses with.
    pub open spec fn may_come_to(
        &self,
        timestamp: u64,
        content: Seq<u8>,
        outcome: Result<Delivery, Fault>,
    ) -> bool {
        match outcome {
            Ok(Delivery::Delivered) => self.capacity() > 0,
            Ok(Delivery::Dropped) => self.policy() == Policy::Drop,
            Ok(Delivery::Deferred(back)) => {
                &&& self.capacity() > 0
                &&& self.policy() == Policy::Block
                &&& back.timestamp == timestamp
                &&& back.content() == content
            },
            Err(Fault::ConveyanceFull) => self.policy() == Policy::Fail || (self.capacity() == 0
                && self.policy() == Policy::Block),
            Err(Fault::ConveyanceClosed) => self.capacity() > 0,
            Err(_) => false,
        }
    }

    /// Opens a conveyance for `capacity` frames. The receiving end is for
    /// the consumer; there is none for a conveyance of capacity zero.
    pub fn bounded(capacity: u16, policy: Policy) -> (ends: (
        Conveyance,
        Option<Receiver<(u64, Bytes)>>,
    ))
        ensures
            ends.0.wf(),
            ends.0.capacity() == capacity,
            ends.0.policy() == policy,
            ends.0.dropped() == 0,
            ends.1 is Some <==> capacity > 0,
    {
        if capacity == 0 {
            (Conveyance { lane: None, capacity, policy, dropped: 0 }, None)
        } else {
            let (lane, consumer) = open_lane(capacity as usize);
            (Conveyance { lane: Some(lane), capacity, policy, dropped: 0 }, Some(consumer))
        }
    }

    /// The number of frames the conveyance can hold.
    pub fn max_frames(&self) -> (n: u16)
        ensures
            n == self.capacity(),
    {
        self.capacity
    }

    /// The policy the conveyance was opened with.
    pub fn full_policy(&self) -> (p: Policy)
        ensures
            p == self.policy(),
    {
        self.policy
    }

    /// The number of frames dropped so far.
    pub fn dropped_frames(&self) -> (n: u64)
        ensures
            n == self.dropped(),
    {
        self.dropped
    }

    /// The channel's sending end, on which a producer waits for room when
    /// a frame was handed back to it. Every conveyance that hands a frame
    /// back has one.
    pub fn lane(&self) -> (lane: Option<&Sender<(u64, Bytes)>>)
        requires
            self.wf(),
        ensures
            lane is Some <==> self.capacity() > 0,
    {
        self.lane.as_ref()
    }

    /// Offers a record. Whatever the channel answers, the outcome is what
    /// the policy settles for that answer, and a drop is counted. A
    /// conveyance without room asks no channel: the outcome is what the
    /// policy refuses with.
    pub fn offer(&mut self, record: FrameRecord) -> (outcome: Result<Delivery, Fault>)
        requires
            old(self).wf(),
        ensures
            final(self).wf(),
            final(self).capacity() == old(self).capacity(),
            final(self).policy() == old(self).policy(),
            old(self).may_come_to(record.timestamp, record.content(), outcome),
            outcome matches Ok(Delivery::Deferred(back)) ==> back == record,
            old(self).capacity() == 0 ==> outcome == refused(old(self).policy()),
            final(self).dropped() == if outcome matches Ok(Delivery::Dropped) {
                one_more(old(self).dropped())
            } else {
                old(self).dropped()
            },
    {
        let outcome = match &self.lane {
            Some(lane) => settle(self.policy, try_offer(lane, record)),
            None => refuse(self.policy),
        };
        if let Ok(Delivery::Dropped) = &outcome {
            if self.dropped < u64::MAX {
                self.dropped = self.dropped + 1;
            }
        }
        outcome
    }

    /// Copies the frame's bytes into a record of its own, pairs them with
    /// the timestamp, and offers the record.
    pub fn publish(&mut self, frame: &[u8], timestamp: u64) -> (outcome: Result<Delivery, Fault>)
        requires
            old(self).wf(),
        ensures
            final(self).wf(),
            final(self).capacity() == old(self).capacity(),
            final(self).policy() == old(self).policy(),
            old(self).may_come_to(timestamp, frame@, outcome),
            old(self).capacity() == 0 ==> outcome == refused(old(self).policy()),
            final(self).dropped() == if outcome matches Ok(Delivery::Dropped) {
                one_more(old(self).dropped())
            } else {
                old(self).dropped()
            },
    {
        self.offer(FrameRecord::copy_of(frame, timestamp))
    }
}

} // verus!
