//! The frame channel: a bounded first-in-first-out queue between one
//! producer and one consumer, as a sequential state machine. A send that
//! would have to wait answers `Full`, a receive that would have to wait
//! answers `Empty`; whoever runs the two sides does the waiting.

use crate::frame::{frame_views, Frame, FrameView};
use std::collections::VecDeque;
use vstd::prelude::*;

verus! {

/// The capacity that the channel of a run is made with.
pub const FRAME_CHANNEL_CAPACITY: usize = 100;

/// The state of a channel: the frames sent and not yet received, oldest
/// first, the bound on their number, and which halves are still held.
pub struct ChannelView {
    pub queue: Seq<FrameView>,
    pub capacity: nat,
    pub producer_open: bool,
    pub consumer_open: bool,
}

/// What a send came to, with the frame handed back where it was not taken.
pub enum SendOutcomeView {
    Sent,
    Full(FrameView),
    Closed(FrameView),
}

/// What a receive came to.
pub enum RecvOutcomeView {
    Frame(FrameView),
    Empty,
    Closed,
}

impl ChannelView {
    /// A new channel of the given capacity: empty, both halves held.
    pub open spec fn fresh(capacity: nat) -> ChannelView {
        ChannelView {
            queue: Seq::empty(),
            capacity,
            producer_open: true,
            consumer_open: true,
        }
    }

    /// The capacity is at least one, no more frames are queued than it
    /// allows, and none at all once the consumer is gone.
    pub open spec fn wf(self) -> bool {
        &&& 1 <= self.capacity
        &&& self.queue.len() <= self.capacity
        &&& !self.consumer_open ==> self.queue.len() == 0
    }

    /// Both halves are held and there is room for a frame.
    pub open spec fn accepts(self) -> bool {
        self.producer_open && self.consumer_open && self.queue.len() < self.capacity
    }

    /// A half is gone: no send can ever succeed again.
    pub open spec fn refuses(self) -> bool {
        !self.producer_open || !self.consumer_open
    }

    /// Nothing is queued and nothing can be any more: the consumer has
    /// seen the end.
    pub open spec fn finished(self) -> bool {
        !self.consumer_open || (self.queue.len() == 0 && !self.producer_open)
    }

    /// The channel after a send of `frame`.
    pub open spec fn after_send(self, frame: FrameView) -> ChannelView {
        if self.accepts() {
            ChannelView { queue: self.queue.push(frame), ..self }
        } else {
            self
        }
    }

    /// What a send of `frame` answers. A missing half is told before a
    /// full queue.
    pub open spec fn send_outcome(self, frame: FrameView) -> SendOutcomeView {
        if self.refuses() {
            SendOutcomeView::Closed(frame)
        } else if self.queue.len() < self.capacity {
            SendOutcomeView::Sent
        } else {
            SendOutcomeView::Full(frame)
        }
    }

    /// A receive would hand out a frame.
    pub open spec fn delivers(self) -> bool {
        self.consumer_open && self.queue.len() > 0
    }

    /// The channel after a receive.
    pub open spec fn after_recv(self) -> ChannelView {
        if self.delivers() {
            ChannelView { queue: self.queue.skip(1), ..self }
        } else {
            self
        }
    }

    /// What a receive answers: the oldest frame; `Empty` while the
    /// producer may still send; `Closed`, the terminal marker, otherwise.
    pub open spec fn recv_outcome(self) -> RecvOutcomeView {
        if self.delivers() {
            RecvOutcomeView::Frame(self.queue[0])
        } else if self.finished() {
            RecvOutcomeView::Closed
        } else {
            RecvOutcomeView::Empty
        }
    }

    /// The channel after the producer let go of its half. What is queued
    /// stays for the consumer.
    pub open spec fn after_close_producer(self) -> ChannelView {
        ChannelView { producer_open: false, ..self }
    }

    /// The channel after the consumer let go of its half. What was queued
    /// is dropped with it.
    pub open spec fn after_close_consumer(self) -> ChannelView {
        ChannelView { consumer_open: false, queue: Seq::empty(), ..self }
    }
}

/// What a send came to.
#[derive(Debug, PartialEq, Eq)]
pub enum SendOutcome {
    /// The frame is queued.
    Sent,
    /// The channel is at capacity: the sender has to wait for the consumer.
    Full(Frame),
    /// A half is gone: the frame can never be delivered.
    Closed(Frame),
}

impl View for SendOutcome {
    type V = SendOutcomeView;

    open spec fn view(&self) -> SendOutcomeView {
        match *self {
            SendOutcome::Sent => SendOutcomeView::Sent,
            SendOutcome::Full(frame) => SendOutcomeView::Full(frame@),
            SendOutcome::Closed(frame) => SendOutcomeView::Closed(frame@),
        }
    }
}

/// What a receive came to.
#[derive(Debug, PartialEq, Eq)]
pub enum RecvOutcome {
    /// The oldest queued frame.
    Frame(Frame),
    /// Nothing is queued yet: the receiver has to wait for the producer.
    Empty,
    /// The terminal marker: nothing is queued and nothing will be.
    Closed,
}

impl View for RecvOutcome {
    type V = RecvOutcomeView;

    open spec fn view(&self) -> RecvOutcomeView {
        match *self {
            RecvOutcome::Frame(frame) => RecvOutcomeView::Frame(frame@),
            RecvOutcome::Empty => RecvOutcomeView::Empty,
            RecvOutcome::Closed => RecvOutcomeView::Closed,
        }
    }
}

/// A bounded queue of frames with a producer half and a consumer half.
pub struct FrameChannel {
    queue: VecDeque<Frame>,
    capacity: usize,
    producer_open: bool,
    consumer_open: bool,
}

impl View for FrameChannel {
    type V = ChannelView;

    closed spec fn view(&self) -> ChannelView {
        ChannelView {
            queue: frame_views(self.queue@),
            capacity: self.capacity as nat,
            producer_open: self.producer_open,
            consumer_open: self.consumer_open,
        }
    }
}

impl FrameChannel {
    /// A channel that holds up to `capacity` frames; none for a capacity
    /// of zero, which could never pass a frame on.
    pub fn new(capacity: usize) -> (channel: Option<FrameChannel>)
        ensures
            capacity == 0 <==> channel is None,
            channel matches Some(c) ==> c@ == ChannelView::fresh(capacity as nat),
    {
        if capacity == 0 {
            None
        } else {
            let c = FrameChannel {
                queue: VecDeque::new(),
                capacity,
                producer_open: true,
                consumer_open: true,
            };
            assert(c@.queue =~= Seq::empty());
            Some(c)
        }
    }

    /// A channel of the capacity that a run uses.
    pub fn with_default_capacity() -> (channel: FrameChannel)
        ensures
            channel@ == ChannelView::fresh(FRAME_CHANNEL_CAPACITY as nat),
    {
        let c = FrameChannel {
            queue: VecDeque::new(),
            capacity: FRAME_CHANNEL_CAPACITY,
            producer_open: true,
            consumer_open: true,
        };
        assert(c@.queue =~= Seq::empty());
        c
    }

    /// Queues `frame` behind all that was sent before, if both halves are
    /// held and there is room; else hands it back and changes nothing.
    pub fn try_send(&mut self, frame: Frame) -> (outcome: SendOutcome)
        ensures
            final(self)@ == old(self)@.after_send(frame@),
            outcome@ == old(self)@.send_outcome(frame@),
    {
        if !self.producer_open || !self.consumer_open {
            SendOutcome::Closed(frame)
        } else if self.queue.len() < self.capacity {
            let ghost before = self.queue@;
            self.queue.push_back(frame);
            assert(frame_views(self.queue@) =~= frame_views(before).push(frame@));
            SendOutcome::Sent
        } else {
            SendOutcome::Full(frame)
        }
    }

    /// Takes the oldest queued frame out, if there is one; else says
    /// whether more may come.
    pub fn try_recv(&mut self) -> (outcome: RecvOutcome)
        ensures
            final(self)@ == old(self)@.after_recv(),
            outcome@ == old(self)@.recv_outcome(),
    {
        if !self.consumer_open {
            return RecvOutcome::Closed;
        }
        let ghost before = self.queue@;
        match self.queue.pop_front() {
            Some(frame) => {
                assert(frame_views(self.queue@) =~= frame_views(before).skip(1));
                RecvOutcome::Frame(frame)
            },
            None => {
                if self.producer_open {
                    RecvOutcome::Empty
                } else {
                    RecvOutcome::Closed
                }
            },
        }
    }

    /// The producer lets go of its half. Frames already queued stay.
    pub fn close_producer(&mut self)
        ensures
            final(self)@ == old(self)@.after_close_producer(),
    {
        self.producer_open = false;
    }

    /// The consumer lets go of its half. Frames still queued are dropped.
    pub fn close_consumer(&mut self)
        ensures
            final(self)@ == old(self)@.after_close_consumer(),
    {
        self.queue.clear();
        self.consumer_open = false;
        assert(frame_views(self.queue@) =~= Seq::empty());
    }

    /// The number of frames queued.
    pub fn len(&self) -> (n: usize)
        ensures
            n == self@.queue.len(),
    {
        self.queue.len()
    }

    /// The most frames that can be queued at once.
    pub fn capacity(&self) -> (n: usize)
        ensures
            n == self@.capacity,
    {
        self.capacity
    }

    /// No frame is queued.
    pub fn is_empty(&self) -> (b: bool)
        ensures
            b == (self@.queue.len() == 0),
    {
        self.queue.len() == 0
    }

    /// As many frames are queued as the capacity allows.
    pub fn is_full(&self) -> (b: bool)
        ensures
            b == (self@.queue.len() >= self@.capacity),
    {
        self.queue.len() >= self.capacity
    }

    /// The producer still holds its half.
    pub fn producer_open(&self) -> (b: bool)
        ensures
            b == self@.producer_open,
    {
        self.producer_open
    }

    /// The consumer still holds its half.
    pub fn consumer_open(&self) -> (b: bool)
        ensures
            b == self@.consumer_open,
    {
        self.consumer_open
    }
}

} // verus!
