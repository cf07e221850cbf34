use bytes::Bytes;
use tokio::sync::mpsc::error::TryRecvError;
use wamera_capture::conveyance::refuse;
use wamera_capture::conveyance::settle;
use wamera_capture::conveyance::Conveyance;
use wamera_capture::conveyance::Delivery;
use wamera_capture::conveyance::FrameRecord;
use wamera_capture::conveyance::Offered;
use wamera_capture::conveyance::Policy;
use wamera_capture::fault::Fault;

fn record(timestamp: u64, bytes: &[u8]) -> FrameRecord {
    FrameRecord { timestamp, data: Bytes::copy_from_slice(bytes) }
}

#[test]
fn record_is_an_owned_copy_of_the_frame() {
    let mut frame: Vec<u8> = vec![1, 2, 3, 250, 0, 7];
    let copy = FrameRecord::copy_of(&frame, 1_700_000_000);
    frame[0] = 99;
    frame.clear();
    assert_eq!(copy.timestamp, 1_700_000_000);
    assert_eq!(&copy.data[..], &[1u8, 2, 3, 250, 0, 7][..]);

    let empty = FrameRecord::copy_of(&[], 5);
    assert_eq!(empty.timestamp, 5);
    assert!(empty.data.is_empty());
}

#[test]
fn settle_follows_the_policy() {
    for policy in [Policy::Block, Policy::Drop, Policy::Fail] {
        assert_eq!(settle(policy, Offered::Accepted), Ok(Delivery::Delivered));
        assert_eq!(
            settle(policy, Offered::Closed(record(1, b"abc"))),
            Err(Fault::ConveyanceClosed)
        );
    }
    assert_eq!(
        settle(Policy::Block, Offered::Full(record(9, b"abc"))),
        Ok(Delivery::Deferred(record(9, b"abc")))
    );
    assert_eq!(settle(Policy::Drop, Offered::Full(record(9, b"abc"))), Ok(Delivery::Dropped));
    assert_eq!(
        settle(Policy::Fail, Offered::Full(record(9, b"abc"))),
        Err(Fault::ConveyanceFull)
    );
}

#[test]
fn bounded_conveyance_reports_how_it_was_opened() {
    let (conveyance, consumer) = Conveyance::bounded(32, Policy::Drop);
    assert_eq!(conveyance.max_frames(), 32);
    assert_eq!(conveyance.full_policy(), Policy::Drop);
    assert_eq!(conveyance.dropped_frames(), 0);
    assert!(conveyance.lane().is_some());
    assert_eq!(conveyance.lane().unwrap().max_capacity(), 32);
    assert!(consumer.is_some());

    let (none, consumer) = Conveyance::bounded(0, Policy::Fail);
    assert_eq!(none.max_frames(), 0);
    assert_eq!(none.full_policy(), Policy::Fail);
    assert!(none.lane().is_none());
    assert!(consumer.is_none());

    let (largest, _consumer) = Conveyance::bounded(u16::MAX, Policy::Block);
    assert_eq!(largest.lane().unwrap().max_capacity(), 65_535);
}

#[test]
fn published_frames_arrive_in_order_with_their_timestamps() {
    let (mut conveyance, consumer) = Conveyance::bounded(32, Policy::Fail);
    let mut consumer = consumer.unwrap();
    let frames: [&[u8]; 3] = [b"first frame", b"", b"third"];
    for (i, frame) in frames.iter().enumerate() {
        assert_eq!(conveyance.publish(frame, 100 + i as u64), Ok(Delivery::Delivered));
    }
    for (i, frame) in frames.iter().enumerate() {
        let (timestamp, data) = consumer.try_recv().unwrap();
        assert_eq!(timestamp, 100 + i as u64);
        assert_eq!(&data[..], *frame);
    }
    assert_eq!(consumer.try_recv(), Err(TryRecvError::Empty));
    assert_eq!(conveyance.dropped_frames(), 0);
}

#[test]
fn conveyance_holds_as_many_frames_as_its_capacity() {
    let (mut conveyance, consumer) = Conveyance::bounded(3, Policy::Fail);
    let _consumer = consumer.unwrap();
    assert_eq!(conveyance.publish(b"a", 1), Ok(Delivery::Delivered));
    assert_eq!(conveyance.publish(b"b", 2), Ok(Delivery::Delivered));
    assert_eq!(conveyance.publish(b"c", 3), Ok(Delivery::Delivered));
    assert_eq!(conveyance.publish(b"d", 4), Err(Fault::ConveyanceFull));
}

#[test]
fn full_conveyance_of_no_capacity_fails_explicitly() {
    let (mut conveyance, _consumer) = Conveyance::bounded(0, Policy::Fail);
    assert_eq!(conveyance.publish(b"frame", 1), Err(Fault::ConveyanceFull));
    assert_eq!(conveyance.publish(b"frame", 2), Err(Fault::ConveyanceFull));
    assert_eq!(conveyance.offer(record(3, b"frame")), Err(Fault::ConveyanceFull));
    assert_eq!(conveyance.dropped_frames(), 0);
}

#[test]
fn full_conveyance_fails_under_the_fail_policy() {
    let (mut conveyance, consumer) = Conveyance::bounded(1, Policy::Fail);
    let mut consumer = consumer.unwrap();
    assert_eq!(conveyance.publish(b"one", 1), Ok(Delivery::Delivered));
    assert_eq!(conveyance.publish(b"two", 2), Err(Fault::ConveyanceFull));
    assert_eq!(conveyance.dropped_frames(), 0);
    // The frame that was accepted is untouched, and room returns with its
    // receipt.
    let (timestamp, data) = consumer.try_recv().unwrap();
    assert_eq!(timestamp, 1);
    assert_eq!(&data[..], b"one");
    assert_eq!(conveyance.publish(b"three", 3), Ok(Delivery::Delivered));
}

#[test]
fn two_rapid_sends_under_the_block_policy_lose_nothing() {
    let (mut conveyance, consumer) = Conveyance::bounded(1, Policy::Block);
    let mut consumer = consumer.unwrap();
    assert_eq!(conveyance.publish(b"one", 1), Ok(Delivery::Delivered));
    // The second send returns at once and hands the frame back.
    let deferred = match conveyance.publish(b"two", 2) {
        Ok(Delivery::Deferred(back)) => back,
        other => panic!("the second frame was not handed back: {:?}", other),
    };
    assert_eq!(deferred.timestamp, 2);
    assert_eq!(&deferred.data[..], b"two");
    assert_eq!(conveyance.dropped_frames(), 0);

    // Still no room: the frame comes back again.
    let deferred = match conveyance.offer(deferred) {
        Ok(Delivery::Deferred(back)) => back,
        other => panic!("the second frame was not handed back: {:?}", other),
    };

    // The consumer makes room; the frame goes in on the next offer.
    let (timestamp, data) = consumer.try_recv().unwrap();
    assert_eq!(timestamp, 1);
    assert_eq!(&data[..], b"one");
    assert_eq!(conveyance.offer(deferred), Ok(Delivery::Delivered));
    let (timestamp, data) = consumer.try_recv().unwrap();
    assert_eq!(timestamp, 2);
    assert_eq!(&data[..], b"two");
    assert_eq!(consumer.try_recv(), Err(TryRecvError::Empty));
}

#[test]
fn block_policy_without_room_to_wait_for_fails() {
    let (mut conveyance, _consumer) = Conveyance::bounded(0, Policy::Block);
    assert_eq!(conveyance.publish(b"frame", 11), Err(Fault::ConveyanceFull));
    assert_eq!(conveyance.offer(record(12, b"frame")), Err(Fault::ConveyanceFull));
    assert_eq!(conveyance.dropped_frames(), 0);
}

#[test]
fn refusal_follows_the_policy() {
    assert_eq!(refuse(Policy::Block), Err(Fault::ConveyanceFull));
    assert_eq!(refuse(Policy::Drop), Ok(Delivery::Dropped));
    assert_eq!(refuse(Policy::Fail), Err(Fault::ConveyanceFull));
}

#[test]
fn drop_policy_counts_what_it_discards() {
    let (mut conveyance, consumer) = Conveyance::bounded(2, Policy::Drop);
    let mut consumer = consumer.unwrap();
    assert_eq!(conveyance.publish(b"a", 1), Ok(Delivery::Delivered));
    assert_eq!(conveyance.publish(b"b", 2), Ok(Delivery::Delivered));
    assert_eq!(conveyance.publish(b"c", 3), Ok(Delivery::Dropped));
    assert_eq!(conveyance.publish(b"d", 4), Ok(Delivery::Dropped));
    assert_eq!(conveyance.dropped_frames(), 2);
    assert_eq!(consumer.try_recv().unwrap().0, 1);
    assert_eq!(conveyance.publish(b"e", 5), Ok(Delivery::Delivered));
    assert_eq!(conveyance.dropped_frames(), 2);
    assert_eq!(consumer.try_recv().unwrap().0, 2);
    assert_eq!(consumer.try_recv().unwrap().0, 5);
    assert_eq!(consumer.try_recv(), Err(TryRecvError::Empty));

    let (mut none, _consumer) = Conveyance::bounded(0, Policy::Drop);
    assert_eq!(none.publish(b"a", 1), Ok(Delivery::Dropped));
    assert_eq!(none.dropped_frames(), 1);
}

#[test]
fn closed_conveyance_is_a_fault_under_every_policy() {
    for policy in [Policy::Block, Policy::Drop, Policy::Fail] {
        let (mut conveyance, consumer) = Conveyance::bounded(4, policy);
        assert_eq!(conveyance.publish(b"a", 1), Ok(Delivery::Delivered));
        drop(consumer);
        assert_eq!(conveyance.publish(b"b", 2), Err(Fault::ConveyanceClosed));
        assert_eq!(conveyance.offer(record(3, b"c")), Err(Fault::ConveyanceClosed));
        assert_eq!(conveyance.dropped_frames(), 0);
    }
}

#[test]
fn consumer_that_closes_keeps_what_was_sent() {
    let (mut conveyance, consumer) = Conveyance::bounded(4, Policy::Fail);
    let mut consumer = consumer.unwrap();
    assert_eq!(conveyance.publish(b"kept", 8), Ok(Delivery::Delivered));
    consumer.close();
    assert_eq!(conveyance.publish(b"late", 9), Err(Fault::ConveyanceClosed));
    let (timestamp, data) = consumer.try_recv().unwrap();
    assert_eq!(timestamp, 8);
    assert_eq!(&data[..], b"kept");
}
