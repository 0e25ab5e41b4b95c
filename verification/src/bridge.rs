//! The two sides of the bridge run in one place: a producer that sends
//! frames into the channel and is held back when it is full, and the
//! publish driver that drains it and writes each frame to the track.

use crate::channel::{ChannelView, FrameChannel, RecvOutcome, SendOutcome};
use crate::frame::{frame_views, Frame, FrameView};
use crate::publish::{publish_step, PublishAction, PublishEvent, PublishState};
use crate::trace::{accepted, delivered, lemma_order_kept, run, ChannelOp};
use crate::track::{
    forward_ops, has_open_group, lemma_group_ops_add_one_group, lemma_one_group_per_frame,
    one_group_each, ops_for, track_apply_all, GroupView, TrackLog,
};
use vstd::prelude::*;

verus! {

/// The payloads of a run of frame views, in order.
pub open spec fn payloads(frames: Seq<FrameView>) -> Seq<Seq<u8>> {
    frames.map_values(|frame: FrameView| frame.payload)
}

/// The group that a frame becomes on the track.
pub open spec fn group_of(frame: FrameView) -> GroupView {
    GroupView { frames: seq![frame.payload], closed: true }
}

/// Hands one frame to a draining publish driver and writes to the track
/// what the driver orders. The track gains one closed group that holds
/// the frame's payload, and the driver goes on draining.
fn forward_frame(state: PublishState, log: &mut TrackLog, frame: Frame) -> (next:
    PublishState)
    requires
        state is Draining,
        !has_open_group(old(log)@),
    ensures
        next == publish_step(state, PublishEvent::Frame(frame)).0,
        next is Draining,
        final(log)@ == old(log)@.push(group_of(frame@)),
        !has_open_group(final(log)@),
{
    let (next, action) = state.advance(PublishEvent::Frame(frame));
    match action {
        PublishAction::Forward { payload, progress } => {
            proof {
                lemma_group_ops_add_one_group(log@, frame@.payload);
            }
            let taken = log.apply_all(ops_for(payload));
            assert(taken);
        },
        _ => {
            assert(false);
        },
    }
    next
}

/// Sends each of `frames` through a new channel of `capacity` to a
/// publish driver that writes to a new track. The consumer is paused
/// until the channel is full; from then on each frame that the producer
/// is held back with waits for one receive. When all are sent the
/// producer lets go and the consumer drains the channel to its terminal
/// marker. The track then holds one closed group per frame, each with
/// that frame's payload alone, in the order of the frames, whatever the
/// capacity. No channel, and so no track, is made for a capacity of zero.
pub fn relay(frames: Vec<Frame>, capacity: usize) -> (log: Option<TrackLog>)
    ensures
        capacity == 0 <==> log is None,
        log matches Some(track) ==> track@ == one_group_each(payloads(frame_views(frames@))),
{
    let mut channel = match FrameChannel::new(capacity) {
        Some(channel) => channel,
        None => {
            return None;
        },
    };
    let mut log = TrackLog::new();
    let mut state = PublishState::Draining { forwarded: 0 };
    let mut pending = frames;
    let ghost all = frame_views(frames@);
    let ghost mut sent: int = 0;
    let ghost mut received: int = 0;
    proof {
        assert(frame_views(pending@) =~= all.skip(0));
        assert(channel@.queue =~= all.subrange(0, 0));
        assert(log@ =~= one_group_each(payloads(all.take(0))));
    }
    while pending.len() > 0
        invariant
            all == frame_views(frames@),
            0 <= received <= sent <= all.len(),
            pending@.len() == all.len() - sent,
            frame_views(pending@) == all.skip(sent),
            channel@ == (ChannelView {
                queue: all.subrange(received, sent),
                ..ChannelView::fresh(capacity as nat)
            }),
            channel@.wf(),
            state is Draining,
            log@ == one_group_each(payloads(all.take(received))),
        decreases pending.len(),
    {
        let ghost before = pending@;
        let frame = pending.remove(0);
        proof {
            assert(frame_views(before)[0] == all.skip(sent)[0]);
            assert(frame@ == all[sent]);
            assert(pending@ =~= before.skip(1));
            assert(frame_views(before.skip(1)) =~= frame_views(before).skip(1));
            assert(all.skip(sent).skip(1) =~= all.skip(sent + 1));
        }
        match channel.try_send(frame) {
            SendOutcome::Sent => {
                proof {
                    assert(all.subrange(received, sent).push(all[sent]) =~= all.subrange(
                        received,
                        sent + 1,
                    ));
                }
            },
            SendOutcome::Full(frame) => {
                match channel.try_recv() {
                    RecvOutcome::Frame(oldest) => {
                        proof {
                            assert(oldest@ == all[received]);
                            lemma_one_more_group(all, received);
                        }
                        state = forward_frame(state, &mut log, oldest);
                        proof {
                            assert(all.subrange(received, sent).skip(1) =~= all.subrange(
                                received + 1,
                                sent,
                            ));
                            received = received + 1;
                        }
                    },
                    _ => {
                        assert(false);
                    },
                }
                match channel.try_send(frame) {
                    SendOutcome::Sent => {
                        proof {
                            assert(all.subrange(received, sent).push(all[sent]) =~= all.subrange(
                                received,
                                sent + 1,
                            ));
                        }
                    },
                    _ => {
                        assert(false);
                    },
                }
            },
            SendOutcome::Closed(frame) => {
                assert(false);
            },
        }
        proof {
            sent = sent + 1;
        }
    }
    channel.close_producer();
    loop
        invariant_except_break
            0 <= received <= all.len(),
            channel@ == (ChannelView {
                queue: all.subrange(received, all.len() as int),
                producer_open: false,
                ..ChannelView::fresh(capacity as nat)
            }),
            state is Draining,
            log@ == one_group_each(payloads(all.take(received))),
        ensures
            log@ == one_group_each(payloads(all)),
        decreases all.len() - received,
    {
        match channel.try_recv() {
            RecvOutcome::Frame(oldest) => {
                proof {
                    assert(oldest@ == all[received]);
                    lemma_one_more_group(all, received);
                }
                state = forward_frame(state, &mut log, oldest);
                proof {
                    assert(all.subrange(received, all.len() as int).skip(1) =~= all.subrange(
                        received + 1,
                        all.len() as int,
                    ));
                    received = received + 1;
                }
            },
            RecvOutcome::Empty => {
                assert(false);
            },
            RecvOutcome::Closed => {
                assert(all.take(received) =~= all);
                break ;
            },
        }
    }
    Some(log)
}

/// From capture to the relay, nothing is lost and nothing changes place.
/// However the sends, the receives and the producer's letting go follow
/// each other on a new channel, forwarding what the consumer was handed,
/// frame by frame, is never refused by the track and leaves one closed
/// group per delivered frame, in the order in which the producer's sends
/// were taken; and when the consumer is told the end, every frame that a
/// send got in has its group.
pub proof fn lemma_bridge_keeps_order(capacity: nat, ops: Seq<ChannelOp>)
    requires
        1 <= capacity,
    ensures
        track_apply_all(
            Seq::empty(),
            forward_ops(payloads(delivered(ChannelView::fresh(capacity), ops))),
        ) == Some(one_group_each(payloads(delivered(ChannelView::fresh(capacity), ops)))),
        delivered(ChannelView::fresh(capacity), ops).is_prefix_of(
            accepted(ChannelView::fresh(capacity), ops),
        ),
        run(ChannelView::fresh(capacity), ops).recv_outcome() is Closed ==> delivered(
            ChannelView::fresh(capacity),
            ops,
        ) == accepted(ChannelView::fresh(capacity), ops),
{
    let c = ChannelView::fresh(capacity);
    lemma_order_kept(c, ops);
    lemma_one_group_per_frame(payloads(delivered(c, ops)));
    assert(c.queue + accepted(c, ops) =~= accepted(c, ops));
    if run(c, ops).recv_outcome() is Closed {
        assert(delivered(c, ops) + run(c, ops).queue =~= delivered(c, ops));
    }
}

/// The groups of the first `n` frames, and one more for the next frame,
/// are the groups of the first `n + 1` frames; and none of them is open.
pub proof fn lemma_one_more_group(frames: Seq<FrameView>, n: int)
    requires
        0 <= n < frames.len(),
    ensures
        one_group_each(payloads(frames.take(n))).push(group_of(frames[n])) == one_group_each(
            payloads(frames.take(n + 1)),
        ),
        !has_open_group(one_group_each(payloads(frames.take(n)))),
        !has_open_group(one_group_each(payloads(frames.take(n + 1)))),
{
    assert(one_group_each(payloads(frames.take(n))).push(group_of(frames[n]))
        =~= one_group_each(payloads(frames.take(n + 1))));
}

} // verus!
