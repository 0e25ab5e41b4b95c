use bytes::Bytes;
use pipe2moq::capture::{flow_after_send, frame_of_sample, FlowError, Sample};
use pipe2moq::frame::{nanos_to_micros, Frame, NANOS_PER_MICRO};

#[test]
fn frame_keeps_payload_and_scales_the_stamp() {
    let frame = Frame::from_encoded(vec![1, 2, 3, 250], Some(1_234_567));
    assert_eq!(frame.payload(), &Bytes::from(vec![1u8, 2, 3, 250]));
    assert_eq!(frame.timestamp_us(), 1_234);
    assert_eq!(frame.into_payload(), Bytes::from(vec![1u8, 2, 3, 250]));
}

#[test]
fn frame_without_stamp_is_at_zero() {
    let frame = Frame::from_encoded(vec![9], None);
    assert_eq!(frame.timestamp_us(), 0);
    assert_eq!(frame.payload().as_ref(), &[9u8]);
}

#[test]
fn stamp_rounds_down_and_covers_the_range() {
    assert_eq!(NANOS_PER_MICRO, 1000);
    assert_eq!(nanos_to_micros(0), 0);
    assert_eq!(nanos_to_micros(999), 0);
    assert_eq!(nanos_to_micros(1000), 1);
    assert_eq!(nanos_to_micros(20_000_999), 20_000);
    assert_eq!(nanos_to_micros(u64::MAX), 18_446_744_073_709_551);
    assert_eq!(
        Frame::from_encoded(Vec::new(), Some(u64::MAX)).timestamp_us(),
        18_446_744_073_709_551
    );
}

#[test]
fn empty_payload_is_a_frame_too() {
    let frame = Frame::from_encoded(Vec::new(), Some(5_000));
    assert_eq!(frame, Frame::new(Bytes::new(), 5));
}

#[test]
fn samples_become_frames_or_end_the_flow() {
    assert_eq!(frame_of_sample(Sample::PullFailed), Err(FlowError::Eos));
    assert_eq!(frame_of_sample(Sample::NoBuffer), Err(FlowError::Error));
    assert_eq!(frame_of_sample(Sample::Unreadable), Err(FlowError::Error));
    assert_eq!(
        frame_of_sample(Sample::Unit { data: vec![4, 5], pts_ns: Some(40_000_000) }),
        Ok(Frame::new(Bytes::from(vec![4u8, 5]), 40_000))
    );
    assert_eq!(
        frame_of_sample(Sample::Unit { data: vec![4, 5], pts_ns: None }),
        Ok(Frame::new(Bytes::from(vec![4u8, 5]), 0))
    );
}

#[test]
fn failed_send_ends_the_flow_with_an_error() {
    assert_eq!(flow_after_send(true), Ok(()));
    assert_eq!(flow_after_send(false), Err(FlowError::Error));
}
