use bytes::Bytes;
use pipe2moq::bridge::relay;
use pipe2moq::channel::{FrameChannel, RecvOutcome, SendOutcome, FRAME_CHANNEL_CAPACITY};
use pipe2moq::frame::Frame;
use pipe2moq::run::{open_frame_channel, Pipe2Moq};
use pipe2moq::config::{MoqConfig, PipelineConfig};
use tokio::sync::mpsc::error::{TryRecvError, TrySendError};

fn frame(tag: u8, timestamp_us: u64) -> Frame {
    Frame::new(Bytes::from(vec![tag, tag, tag]), timestamp_us)
}

#[test]
fn capacity_two_scenario() {
    let mut channel = FrameChannel::new(2).unwrap();
    assert_eq!(channel.try_send(frame(b'A', 1)), SendOutcome::Sent);
    assert_eq!(channel.try_send(frame(b'B', 2)), SendOutcome::Sent);
    let held = match channel.try_send(frame(b'C', 3)) {
        SendOutcome::Full(frame) => frame,
        other => panic!("the third send must wait, got {:?}", other),
    };
    assert_eq!(held, frame(b'C', 3));
    assert_eq!(channel.try_recv(), RecvOutcome::Frame(frame(b'A', 1)));
    assert_eq!(channel.try_send(held), SendOutcome::Sent);
    assert_eq!(channel.try_recv(), RecvOutcome::Frame(frame(b'B', 2)));
    assert_eq!(channel.try_recv(), RecvOutcome::Frame(frame(b'C', 3)));
    channel.close_producer();
    assert_eq!(channel.try_recv(), RecvOutcome::Closed);
}

#[test]
fn capacity_two_scenario_on_tokio_channel() {
    let (tx, mut rx) = open_frame_channel(2).unwrap();
    assert!(tx.try_send(frame(b'A', 1)).is_ok());
    assert!(tx.try_send(frame(b'B', 2)).is_ok());
    let held = match tx.try_send(frame(b'C', 3)) {
        Err(TrySendError::Full(frame)) => frame,
        other => panic!("the third send must wait, got {:?}", other),
    };
    assert_eq!(rx.try_recv(), Ok(frame(b'A', 1)));
    assert!(tx.try_send(held).is_ok());
    assert_eq!(rx.try_recv(), Ok(frame(b'B', 2)));
    assert_eq!(rx.try_recv(), Ok(frame(b'C', 3)));
    assert_eq!(rx.try_recv(), Err(TryRecvError::Empty));
    drop(tx);
    assert_eq!(rx.try_recv(), Err(TryRecvError::Disconnected));
}

#[test]
fn model_and_tokio_channel_agree_on_a_mixed_run() {
    let mut model = FrameChannel::new(3).unwrap();
    let (tx, mut rx) = open_frame_channel(3).unwrap();
    let script: [u8; 12] = [1, 1, 0, 1, 1, 1, 1, 0, 0, 0, 0, 1];
    let mut next: u8 = 0;
    for step in script {
        if step == 1 {
            next += 1;
            let modelled = model.try_send(frame(next, next as u64));
            let real = tx.try_send(frame(next, next as u64));
            match (modelled, real) {
                (SendOutcome::Sent, Ok(())) => {}
                (SendOutcome::Full(a), Err(TrySendError::Full(b))) => assert_eq!(a, b),
                (a, b) => panic!("send differs: {:?} against {:?}", a, b),
            }
        } else {
            match (model.try_recv(), rx.try_recv()) {
                (RecvOutcome::Frame(a), Ok(b)) => assert_eq!(a, b),
                (RecvOutcome::Empty, Err(TryRecvError::Empty)) => {}
                (a, b) => panic!("receive differs: {:?} against {:?}", a, b),
            }
        }
    }
    model.close_producer();
    drop(tx);
    loop {
        match (model.try_recv(), rx.try_recv()) {
            (RecvOutcome::Frame(a), Ok(b)) => assert_eq!(a, b),
            (RecvOutcome::Closed, Err(TryRecvError::Disconnected)) => break,
            (a, b) => panic!("drain differs: {:?} against {:?}", a, b),
        }
    }
}

#[test]
fn closed_consumer_is_told_to_the_sender_on_both_channels() {
    let mut model = FrameChannel::new(2).unwrap();
    assert_eq!(model.try_send(frame(1, 1)), SendOutcome::Sent);
    model.close_consumer();
    assert_eq!(model.len(), 0);
    assert_eq!(model.try_send(frame(2, 2)), SendOutcome::Closed(frame(2, 2)));
    assert_eq!(model.try_recv(), RecvOutcome::Closed);

    let (tx, rx) = open_frame_channel(2).unwrap();
    assert!(tx.try_send(frame(1, 1)).is_ok());
    drop(rx);
    match tx.try_send(frame(2, 2)) {
        Err(TrySendError::Closed(back)) => assert_eq!(back, frame(2, 2)),
        other => panic!("expected a closed channel, got {:?}", other),
    }
}

#[test]
fn closed_is_told_before_full() {
    let mut model = FrameChannel::new(1).unwrap();
    assert_eq!(model.try_send(frame(1, 1)), SendOutcome::Sent);
    model.close_producer();
    assert_eq!(model.try_send(frame(2, 2)), SendOutcome::Closed(frame(2, 2)));
    assert_eq!(model.try_recv(), RecvOutcome::Frame(frame(1, 1)));
    assert_eq!(model.try_recv(), RecvOutcome::Closed);
    assert_eq!(model.try_recv(), RecvOutcome::Closed);
}

#[test]
fn terminal_marker_only_after_the_queue_is_drained() {
    let mut channel = FrameChannel::new(4).unwrap();
    assert_eq!(channel.try_recv(), RecvOutcome::Empty);
    assert_eq!(channel.try_send(frame(7, 70)), SendOutcome::Sent);
    assert_eq!(channel.try_send(frame(8, 80)), SendOutcome::Sent);
    channel.close_producer();
    assert!(!channel.producer_open());
    assert!(channel.consumer_open());
    assert_eq!(channel.try_recv(), RecvOutcome::Frame(frame(7, 70)));
    assert_eq!(channel.try_recv(), RecvOutcome::Frame(frame(8, 80)));
    assert_eq!(channel.try_recv(), RecvOutcome::Closed);
    assert_eq!(channel.try_recv(), RecvOutcome::Closed);
}

#[test]
fn burst_is_held_back_at_exactly_capacity() {
    let capacity: usize = 5;
    let mut channel = FrameChannel::new(capacity).unwrap();
    for i in 0..capacity {
        assert!(!channel.is_full());
        assert_eq!(channel.try_send(frame(i as u8, i as u64)), SendOutcome::Sent);
        assert_eq!(channel.len(), i + 1);
    }
    assert!(channel.is_full());
    for _ in 0..3 {
        assert_eq!(
            channel.try_send(frame(99, 99)),
            SendOutcome::Full(frame(99, 99))
        );
        assert_eq!(channel.len(), capacity);
    }
    assert_eq!(channel.try_recv(), RecvOutcome::Frame(frame(0, 0)));
    assert_eq!(channel.try_send(frame(99, 99)), SendOutcome::Sent);
    assert!(channel.is_full());
}

#[test]
fn zero_capacity_makes_no_channel() {
    assert!(FrameChannel::new(0).is_none());
    assert!(open_frame_channel(0).is_none());
    assert!(open_frame_channel(usize::MAX).is_none());
    assert!(open_frame_channel(usize::MAX / 8 + 1).is_none());
    assert!(relay(vec![frame(1, 1)], 0).is_none());
}

#[test]
fn channel_capacity_is_as_asked() {
    assert_eq!(FRAME_CHANNEL_CAPACITY, 100);
    assert_eq!(FrameChannel::new(7).unwrap().capacity(), 7);
    let model = FrameChannel::with_default_capacity();
    assert_eq!(model.capacity(), 100);
    assert!(model.is_empty());
    let (tx, rx) = open_frame_channel(7).unwrap();
    assert_eq!(tx.max_capacity(), 7);
    assert_eq!(rx.max_capacity(), 7);
    let app = Pipe2Moq::new(PipelineConfig::default(), MoqConfig::default());
    let (tx, _rx) = app.open_channel();
    assert_eq!(tx.max_capacity(), 100);
    assert_eq!(tx.capacity(), 100);
}

fn check_relay(count: usize, capacity: usize) {
    let frames: Vec<Frame> = (0..count)
        .map(|i| Frame::new(Bytes::from(vec![i as u8, (i >> 8) as u8]), i as u64))
        .collect();
    let log = relay(frames, capacity).unwrap();
    assert_eq!(log.group_count(), count);
    for i in 0..count {
        assert_eq!(log.group_len(i), Some(1));
        assert_eq!(log.group_closed(i), Some(true));
        assert_eq!(
            log.payload(i, 0),
            Some(&Bytes::from(vec![i as u8, (i >> 8) as u8]))
        );
        assert_eq!(log.payload(i, 1), None);
    }
    assert_eq!(log.group_len(count), None);
}

#[test]
fn relay_keeps_order_for_none_some_capacity_and_more() {
    check_relay(0, 100);
    check_relay(1, 100);
    check_relay(100, 100);
    check_relay(101, 100);
    check_relay(350, 100);
    check_relay(10, 1);
    check_relay(5, 2);
}
