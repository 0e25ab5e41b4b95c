//! One encoded audio unit: its payload and its presentation time.

use bytes::Bytes;
use vstd::prelude::*;

verus! {

/// `bytes::Bytes`, an immutable byte buffer. Verus sees nothing inside it.
#[verifier::external_type_specification]
#[verifier::external_body]
pub struct ExBytes(Bytes);

/// The bytes that a `Bytes` buffer holds, first to last.
pub uninterp spec fn bytes_view(buffer: Bytes) -> Seq<u8>;

/// Nanoseconds in one microsecond.
pub const NANOS_PER_MICRO: u64 = 1000;

/// What a frame is, as plain values.
pub struct FrameView {
    pub payload: Seq<u8>,
    pub timestamp_us: u64,
}

/// An encoded unit on its way from capture to the relay. It is built once
/// and never changed.
#[derive(Debug, PartialEq, Eq)]
pub struct Frame {
    payload: Bytes,
    timestamp_us: u64,
}

impl View for Frame {
    type V = FrameView;

    open spec fn view(&self) -> FrameView {
        FrameView { payload: bytes_view(self.buffer()), timestamp_us: self.stamp() }
    }
}

/// The presentation time in microseconds of a unit stamped `pts_ns`
/// nanoseconds; zero for a unit without a stamp.
pub open spec fn timestamp_of(pts_ns: Option<u64>) -> u64 {
    match pts_ns {
        Some(ns) => ns / NANOS_PER_MICRO,
        None => 0,
    }
}

/// Microseconds in `nanos` nanoseconds, rounded down.
pub fn nanos_to_micros(nanos: u64) -> (micros: u64)
    ensures
        micros == timestamp_of(Some(nanos)),
{
    nanos / NANOS_PER_MICRO
}

/// The views of a run of frames, in order.
pub open spec fn frame_views(frames: Seq<Frame>) -> Seq<FrameView> {
    frames.map_values(|f: Frame| f@)
}

/// `Bytes::from(Vec<u8>)`: the buffer takes over the vector's bytes, none
/// added, dropped or moved.
#[verifier::external_body]
fn bytes_from_vec(data: Vec<u8>) -> (buffer: Bytes)
    ensures
        bytes_view(buffer) == data@,
{
    Bytes::from(data)
}

impl Frame {
    /// The buffer that holds the frame's payload.
    pub closed spec fn buffer(self) -> Bytes {
        self.payload
    }

    /// The frame's presentation time in microseconds.
    pub closed spec fn stamp(self) -> u64 {
        self.timestamp_us
    }

    /// A frame of the given payload and time.
    pub fn new(payload: Bytes, timestamp_us: u64) -> (frame: Frame)
        ensures
            frame.buffer() == payload,
            frame.stamp() == timestamp_us,
    {
        Frame { payload, timestamp_us }
    }

    /// The frame's payload.
    pub fn payload(&self) -> (payload: &Bytes)
        ensures
            *payload == self.buffer(),
    {
        &self.payload
    }

    /// The frame's presentation time in microseconds.
    pub fn timestamp_us(&self) -> (timestamp_us: u64)
        ensures
            timestamp_us == self.stamp(),
    {
        self.timestamp_us
    }

    /// The frame's payload, when the frame itself is no longer needed.
    pub fn into_payload(self) -> (payload: Bytes)
        ensures
            payload == self.buffer(),
    {
        self.payload
    }

    /// The frame for one encoded unit: its bytes as they are, and its
    /// presentation stamp brought from nanoseconds to microseconds.
    pub fn from_encoded(data: Vec<u8>, pts_ns: Option<u64>) -> (frame: Frame)
        ensures
            frame@.payload == data@,
            frame@.timestamp_us == timestamp_of(pts_ns),
    {
        let timestamp_us: u64 = match pts_ns {
            Some(ns) => nanos_to_micros(ns),
            None => 0,
        };
        Frame { payload: bytes_from_vec(data), timestamp_us }
    }
}

} // verus!
