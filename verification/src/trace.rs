//! Runs of operations on a frame channel, and what holds of every run:
//! frames come out in the order they went in, the terminal marker comes
//! only at the true end, and a full channel holds the producer back.

use crate::channel::{ChannelView, RecvOutcomeView, SendOutcomeView};
use crate::frame::FrameView;
use vstd::prelude::*;

verus! {

/// One thing done to a channel whose consumer stays.
pub enum ChannelOp {
    /// The producer offers a frame.
    Send(FrameView),
    /// The consumer asks for a frame.
    Receive,
    /// The producer lets go of its half.
    CloseProducer,
}

/// The channel after one operation.
pub open spec fn step(c: ChannelView, op: ChannelOp) -> ChannelView {
    match op {
        ChannelOp::Send(frame) => c.after_send(frame),
        ChannelOp::Receive => c.after_recv(),
        ChannelOp::CloseProducer => c.after_close_producer(),
    }
}

/// The channel after a run of operations, first to last.
pub open spec fn run(c: ChannelView, ops: Seq<ChannelOp>) -> ChannelView
    decreases ops.len(),
{
    if ops.len() == 0 {
        c
    } else {
        step(run(c, ops.drop_last()), ops.last())
    }
}

/// The frames that the sends of a run got into the channel, in the order
/// of the sends.
pub open spec fn accepted(c: ChannelView, ops: Seq<ChannelOp>) -> Seq<FrameView>
    decreases ops.len(),
{
    if ops.len() == 0 {
        Seq::empty()
    } else {
        let before = run(c, ops.drop_last());
        let earlier = accepted(c, ops.drop_last());
        match ops.last() {
            ChannelOp::Send(frame) => if before.accepts() {
                earlier.push(frame)
            } else {
                earlier
            },
            _ => earlier,
        }
    }
}

/// The frames that the receives of a run handed to the consumer, in the
/// order of the receives.
pub open spec fn delivered(c: ChannelView, ops: Seq<ChannelOp>) -> Seq<FrameView>
    decreases ops.len(),
{
    if ops.len() == 0 {
        Seq::empty()
    } else {
        let before = run(c, ops.drop_last());
        let earlier = delivered(c, ops.drop_last());
        match ops.last() {
            ChannelOp::Receive => if before.delivers() {
                earlier.push(before.queue[0])
            } else {
                earlier
            },
            _ => earlier,
        }
    }
}

/// A burst: one send for each of `frames`, with no receive in between.
pub open spec fn burst(frames: Seq<FrameView>) -> Seq<ChannelOp> {
    Seq::new(frames.len(), |i: int| ChannelOp::Send(frames[i]))
}

/// `n` receives in a row.
pub open spec fn receives(n: nat) -> Seq<ChannelOp> {
    Seq::new(n, |i: int| ChannelOp::Receive)
}

/// The smaller of two numbers.
pub open spec fn least(a: nat, b: nat) -> nat {
    if a <= b {
        a
    } else {
        b
    }
}

/// A new channel of capacity one or more is well formed, and every
/// operation keeps a channel so.
pub proof fn lemma_wf_kept(c: ChannelView, frame: FrameView)
    ensures
        forall|capacity: nat| 1 <= capacity ==> (#[trigger] ChannelView::fresh(capacity)).wf(),
        c.wf() ==> c.after_send(frame).wf(),
        c.wf() ==> c.after_recv().wf(),
        c.wf() ==> c.after_close_producer().wf(),
        c.wf() ==> c.after_close_consumer().wf(),
{
}

/// Ordering. Whatever is sent, received and closed, in whatever turn: the
/// frames that were queued at the start followed by those that the sends
/// got in are the frames handed to the consumer followed by those still
/// queued. So the consumer sees the frames in the order of their sends,
/// none twice, none left out before a later one, none made up.
pub proof fn lemma_order_kept(c: ChannelView, ops: Seq<ChannelOp>)
    requires
        c.wf(),
        c.consumer_open,
    ensures
        run(c, ops).wf(),
        run(c, ops).consumer_open,
        run(c, ops).capacity == c.capacity,
        c.queue + accepted(c, ops) == delivered(c, ops) + run(c, ops).queue,
    decreases ops.len(),
{
    if ops.len() == 0 {
        assert(c.queue + accepted(c, ops) =~= delivered(c, ops) + run(c, ops).queue);
    } else {
        let head = ops.drop_last();
        lemma_order_kept(c, head);
        let before = run(c, head);
        assert(c.queue + accepted(c, head) == delivered(c, head) + before.queue);
        match ops.last() {
            ChannelOp::Send(frame) => {
                if before.accepts() {
                    assert(c.queue + accepted(c, head).push(frame) =~= (c.queue + accepted(
                        c,
                        head,
                    )).push(frame));
                    assert(delivered(c, head) + before.queue.push(frame) =~= (delivered(c, head)
                        + before.queue).push(frame));
                }
            },
            ChannelOp::Receive => {
                if before.delivers() {
                    assert(delivered(c, head).push(before.queue[0]) + before.queue.skip(1)
                        =~= delivered(c, head) + before.queue);
                }
            },
            ChannelOp::CloseProducer => {},
        }
    }
}

/// Ordering, from a new channel: what the consumer has seen is the start
/// of what the sends got in, and the rest is queued.
pub proof fn lemma_delivered_is_prefix(capacity: nat, ops: Seq<ChannelOp>)
    requires
        1 <= capacity,
    ensures
        accepted(ChannelView::fresh(capacity), ops) == delivered(
            ChannelView::fresh(capacity),
            ops,
        ) + run(ChannelView::fresh(capacity), ops).queue,
        delivered(ChannelView::fresh(capacity), ops).is_prefix_of(
            accepted(ChannelView::fresh(capacity), ops),
        ),
{
    let c = ChannelView::fresh(capacity);
    lemma_order_kept(c, ops);
    assert(c.queue + accepted(c, ops) =~= accepted(c, ops));
}

/// Closed-channel signal. A receive answers with the terminal marker if
/// and only if the producer is gone and nothing is queued; it then
/// changes nothing, so every later receive answers the same. A frame
/// that a receive hands out is the oldest one queued, never another.
pub proof fn lemma_terminal_marker(c: ChannelView)
    requires
        c.wf(),
        c.consumer_open,
    ensures
        c.recv_outcome() is Closed <==> !c.producer_open && c.queue.len() == 0,
        c.recv_outcome() is Closed ==> c.after_recv() == c,
        c.recv_outcome() is Closed ==> forall|ops: Seq<ChannelOp>|
            #![trigger run(c, ops)]
            run(c, ops) == c && delivered(c, ops).len() == 0,
        c.recv_outcome() matches RecvOutcomeView::Frame(frame) ==> c.queue.len() > 0 && frame
            == c.queue[0],
        c.recv_outcome() is Empty <==> c.producer_open && c.queue.len() == 0,
{
    if c.recv_outcome() is Closed {
        assert forall|ops: Seq<ChannelOp>| #![trigger run(c, ops)] run(c, ops) == c && delivered(
            c,
            ops,
        ).len() == 0 by {
            lemma_ended_stays(c, ops);
        }
    }
}

/// Once the producer is gone and the queue is empty, no run of operations
/// changes the channel or hands the consumer a frame.
pub proof fn lemma_ended_stays(c: ChannelView, ops: Seq<ChannelOp>)
    requires
        !c.producer_open,
        c.queue.len() == 0,
    ensures
        run(c, ops) == c,
        delivered(c, ops).len() == 0,
        accepted(c, ops).len() == 0,
    decreases ops.len(),
{
    if ops.len() > 0 {
        lemma_ended_stays(c, ops.drop_last());
    }
}

/// What was queued when the producer let go is still delivered, whole and
/// in order, by as many receives; only then comes the terminal marker.
pub proof fn lemma_drain(c: ChannelView)
    requires
        c.wf(),
        c.consumer_open,
        !c.producer_open,
    ensures
        delivered(c, receives(c.queue.len())) == c.queue,
        run(c, receives(c.queue.len())).queue.len() == 0,
        run(c, receives(c.queue.len())).recv_outcome() is Closed,
        forall|k: nat|
            k < c.queue.len() ==> (#[trigger] run(c, receives(k))).recv_outcome()
                == RecvOutcomeView::Frame(c.queue[k as int]),
{
    lemma_drain_steps(c, c.queue.len());
    assert(c.queue.take(c.queue.len() as int) =~= c.queue);
    assert forall|k: nat| k < c.queue.len() implies (#[trigger] run(
        c,
        receives(k),
    )).recv_outcome() == RecvOutcomeView::Frame(c.queue[k as int]) by {
        lemma_drain_steps(c, k);
    }
}

/// After `n` receives on a channel whose producer is gone, the first `n`
/// queued frames are delivered and the others are still queued.
pub proof fn lemma_drain_steps(c: ChannelView, n: nat)
    requires
        c.wf(),
        c.consumer_open,
        !c.producer_open,
        n <= c.queue.len(),
    ensures
        delivered(c, receives(n)) == c.queue.take(n as int),
        run(c, receives(n)) == (ChannelView { queue: c.queue.skip(n as int), ..c }),
    decreases n,
{
    if n == 0 {
        assert(c.queue.take(0) =~= Seq::<FrameView>::empty());
        assert(c.queue.skip(0) =~= c.queue);
    } else {
        let m = (n - 1) as nat;
        lemma_drain_steps(c, m);
        assert(receives(n).drop_last() =~= receives(m));
        assert(receives(n).last() == ChannelOp::Receive);
        let before = run(c, receives(m));
        assert(before.queue[0] == c.queue[m as int]);
        assert(c.queue.take(m as int).push(c.queue[m as int]) =~= c.queue.take(n as int));
        assert(c.queue.skip(m as int).skip(1) =~= c.queue.skip(n as int));
    }
}

/// Backpressure. A send into a full channel is not taken and changes
/// nothing, however often it is tried; after one receive the same send is
/// taken. A send into a channel that is not full is never held back.
pub proof fn lemma_backpressure(c: ChannelView, frame: FrameView)
    requires
        c.wf(),
        c.producer_open,
        c.consumer_open,
    ensures
        c.queue.len() == c.capacity ==> c.send_outcome(frame) == SendOutcomeView::Full(frame)
            && c.after_send(frame) == c,
        c.queue.len() == c.capacity ==> c.after_recv().send_outcome(frame)
            == SendOutcomeView::Sent,
        c.queue.len() < c.capacity <==> c.send_outcome(frame) == SendOutcomeView::Sent,
        c.send_outcome(frame) == SendOutcomeView::Sent ==> c.after_send(frame).queue
            == c.queue.push(frame),
{
}

/// Backpressure, on a burst. Of a burst of sends into a new channel, with
/// the consumer paused, exactly the first `capacity` are taken: no send is
/// held back before the channel is full, and none is taken after.
pub proof fn lemma_burst_stops_at_capacity(capacity: nat, frames: Seq<FrameView>)
    requires
        1 <= capacity,
    ensures
        accepted(ChannelView::fresh(capacity), burst(frames)) == frames.take(
            least(frames.len(), capacity) as int,
        ),
        run(ChannelView::fresh(capacity), burst(frames)) == (ChannelView {
            queue: frames.take(least(frames.len(), capacity) as int),
            ..ChannelView::fresh(capacity)
        }),
        delivered(ChannelView::fresh(capacity), burst(frames)).len() == 0,
    decreases frames.len(),
{
    let c = ChannelView::fresh(capacity);
    if frames.len() == 0 {
        assert(frames.take(0) =~= Seq::<FrameView>::empty());
    } else {
        let head = frames.drop_last();
        lemma_burst_stops_at_capacity(capacity, head);
        assert(burst(frames).drop_last() =~= burst(head));
        assert(burst(frames).last() == ChannelOp::Send(frames.last()));
        let k = least(head.len(), capacity);
        let before = run(c, burst(head));
        assert(before.queue == head.take(k as int));
        if head.len() < capacity {
            assert(head.take(k as int) =~= head);
            assert(head.push(frames.last()) =~= frames);
            assert(frames.take(frames.len() as int) =~= frames);
        } else {
            assert(head.take(k as int) =~= frames.take(capacity as int));
        }
    }
}

} // verus!
