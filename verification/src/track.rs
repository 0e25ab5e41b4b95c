//! A track as the relay sees it: groups in order, each a run of frame
//! payloads, written by opening a group, writing into it and closing it.
//! A closed group takes no more writes, and at most one group is open.

use crate::frame::{bytes_view, Frame};
use crate::config::MoqConfig;
use crate::publish::{
    count_after, publish_start, publish_step, PublishAction, PublishEvent, PublishState,
};
use bytes::Bytes;
use vstd::prelude::*;

verus! {

/// One call on the track.
#[derive(Debug, PartialEq, Eq)]
pub enum TrackOp {
    /// Open the next group.
    OpenGroup,
    /// Write a payload into the open group.
    WriteFrame(Bytes),
    /// Close the open group.
    CloseGroup,
}

/// One call on the track, as plain values.
pub enum TrackOpView {
    OpenGroup,
    WriteFrame(Seq<u8>),
    CloseGroup,
}

impl View for TrackOp {
    type V = TrackOpView;

    open spec fn view(&self) -> TrackOpView {
        match *self {
            TrackOp::OpenGroup => TrackOpView::OpenGroup,
            TrackOp::WriteFrame(payload) => TrackOpView::WriteFrame(bytes_view(payload)),
            TrackOp::CloseGroup => TrackOpView::CloseGroup,
        }
    }
}

/// The views of a run of calls, in order.
pub open spec fn op_views(ops: Seq<TrackOp>) -> Seq<TrackOpView> {
    ops.map_values(|op: TrackOp| op@)
}

/// A group: the payloads written into it, in order, and whether it is
/// closed.
pub struct GroupView {
    pub frames: Seq<Seq<u8>>,
    pub closed: bool,
}

/// A group is open to be written into and closed.
pub open spec fn has_open_group(track: Seq<GroupView>) -> bool {
    track.len() > 0 && !track.last().closed
}

/// The track after one call; `None` for a call that the track refuses.
pub open spec fn track_apply(track: Seq<GroupView>, op: TrackOpView) -> Option<Seq<GroupView>> {
    match op {
        TrackOpView::OpenGroup => if has_open_group(track) {
            None
        } else {
            Some(track.push(GroupView { frames: Seq::empty(), closed: false }))
        },
        TrackOpView::WriteFrame(payload) => if has_open_group(track) {
            Some(
                track.drop_last().push(
                    GroupView { frames: track.last().frames.push(payload), closed: false },
                ),
            )
        } else {
            None
        },
        TrackOpView::CloseGroup => if has_open_group(track) {
            Some(track.drop_last().push(GroupView { frames: track.last().frames, closed: true }))
        } else {
            None
        },
    }
}

/// The track after a run of calls, first to last; `None` if the track
/// refuses one of them.
pub open spec fn track_apply_all(track: Seq<GroupView>, ops: Seq<TrackOpView>) -> Option<
    Seq<GroupView>,
>
    decreases ops.len(),
{
    if ops.len() == 0 {
        Some(track)
    } else {
        match track_apply_all(track, ops.drop_last()) {
            Some(earlier) => track_apply(earlier, ops.last()),
            None => None,
        }
    }
}

/// The calls that publish one payload as a group of its own.
pub open spec fn group_ops(payload: Seq<u8>) -> Seq<TrackOpView> {
    seq![TrackOpView::OpenGroup, TrackOpView::WriteFrame(payload), TrackOpView::CloseGroup]
}

/// The calls that publish each of `payloads` as a group of its own.
pub open spec fn forward_ops(payloads: Seq<Seq<u8>>) -> Seq<TrackOpView>
    decreases payloads.len(),
{
    if payloads.len() == 0 {
        Seq::empty()
    } else {
        forward_ops(payloads.drop_last()) + group_ops(payloads.last())
    }
}

/// One closed group for each of `payloads`, holding that payload alone.
pub open spec fn one_group_each(payloads: Seq<Seq<u8>>) -> Seq<GroupView> {
    Seq::new(payloads.len(), |i: int| GroupView { frames: seq![payloads[i]], closed: true })
}

/// The calls that publish `payload` as the sole content of a new group.
pub fn ops_for(payload: Bytes) -> (ops: Vec<TrackOp>)
    ensures
        op_views(ops@) == group_ops(bytes_view(payload)),
{
    let mut ops: Vec<TrackOp> = Vec::new();
    ops.push(TrackOp::OpenGroup);
    ops.push(TrackOp::WriteFrame(payload));
    ops.push(TrackOp::CloseGroup);
    assert(op_views(ops@) =~= group_ops(bytes_view(payload)));
    ops
}

/// A run of calls followed by another leaves the track that the second
/// run makes of what the first one left.
pub proof fn lemma_apply_all_concat(
    track: Seq<GroupView>,
    first: Seq<TrackOpView>,
    second: Seq<TrackOpView>,
)
    ensures
        track_apply_all(track, first + second) == match track_apply_all(track, first) {
            Some(middle) => track_apply_all(middle, second),
            None => None,
        },
    decreases second.len(),
{
    if second.len() == 0 {
        assert(first + second =~= first);
    } else {
        lemma_apply_all_concat(track, first, second.drop_last());
        assert((first + second).drop_last() =~= first + second.drop_last());
        assert((first + second).last() == second.last());
    }
}

/// A run of calls whose start the track refuses is refused as a whole.
pub proof fn lemma_refused_stays_refused(track: Seq<GroupView>, ops: Seq<TrackOpView>, n: int)
    requires
        0 <= n <= ops.len(),
        track_apply_all(track, ops.take(n)) is None,
    ensures
        track_apply_all(track, ops) is None,
    decreases ops.len() - n,
{
    if n < ops.len() {
        assert(ops.take(n + 1).drop_last() =~= ops.take(n));
        lemma_refused_stays_refused(track, ops, n + 1);
    } else {
        assert(ops.take(n) =~= ops);
    }
}

/// One call on a track with no group open, for each of the three calls
/// of a group: the track gains one closed group that holds the payload.
pub proof fn lemma_group_ops_add_one_group(track: Seq<GroupView>, payload: Seq<u8>)
    requires
        !has_open_group(track),
    ensures
        track_apply_all(track, group_ops(payload)) == Some(
            track.push(GroupView { frames: seq![payload], closed: true }),
        ),
{
    let ops = group_ops(payload);
    let opened = track.push(GroupView { frames: Seq::empty(), closed: false });
    let written = track.push(GroupView { frames: seq![payload], closed: false });
    let closed = track.push(GroupView { frames: seq![payload], closed: true });
    assert(ops.drop_last().drop_last().drop_last() =~= Seq::<TrackOpView>::empty());
    assert(ops.drop_last().drop_last() =~= seq![TrackOpView::OpenGroup]);
    assert(ops.drop_last() =~= seq![TrackOpView::OpenGroup, TrackOpView::WriteFrame(payload)]);
    assert(track_apply_all(track, ops.drop_last().drop_last().drop_last()) == Some(track));
    assert(track_apply_all(track, ops.drop_last().drop_last()) == Some(opened));
    assert(opened.drop_last() =~= track);
    assert(Seq::<Seq<u8>>::empty().push(payload) =~= seq![payload]);
    assert(track_apply(opened, TrackOpView::WriteFrame(payload)) == Some(written));
    assert(track_apply_all(track, ops.drop_last()) == Some(written));
    assert(written.drop_last() =~= track);
    assert(track_apply(written, TrackOpView::CloseGroup) == Some(closed));
}

/// One group per frame. Publishing a run of payloads, each by the three
/// calls of a group, is never refused and leaves a track of exactly as
/// many groups as payloads, all closed, each holding exactly the one
/// payload that it was opened for, in the order of the payloads.
pub proof fn lemma_one_group_per_frame(payloads: Seq<Seq<u8>>)
    ensures
        track_apply_all(Seq::empty(), forward_ops(payloads)) == Some(one_group_each(payloads)),
        one_group_each(payloads).len() == payloads.len(),
        forward_ops(payloads).len() == 3 * payloads.len(),
    decreases payloads.len(),
{
    if payloads.len() == 0 {
        assert(one_group_each(payloads) =~= Seq::<GroupView>::empty());
    } else {
        let head = payloads.drop_last();
        lemma_one_group_per_frame(head);
        lemma_apply_all_concat(Seq::empty(), forward_ops(head), group_ops(payloads.last()));
        lemma_group_ops_add_one_group(one_group_each(head), payloads.last());
        assert(one_group_each(head).push(
            GroupView { frames: seq![payloads.last()], closed: true },
        ) =~= one_group_each(payloads));
    }
}

/// The payloads of a run of frames, in order.
pub open spec fn payloads_of(frames: Seq<Frame>) -> Seq<Seq<u8>> {
    frames.map_values(|f: Frame| f@.payload)
}

/// The events of a channel that delivers `frames`, one after the other.
pub open spec fn frame_events(frames: Seq<Frame>) -> Seq<PublishEvent> {
    frames.map_values(|f: Frame| PublishEvent::Frame(f))
}

/// The driver's state after a run of events, first to last.
pub open spec fn publish_state_after(state: PublishState, events: Seq<PublishEvent>) -> PublishState
    decreases events.len(),
{
    if events.len() == 0 {
        state
    } else {
        publish_step(publish_state_after(state, events.drop_last()), events.last()).0
    }
}

/// The payloads that the driver orders to be forwarded over a run of
/// events, in the order of the events.
pub open spec fn forwarded_over(state: PublishState, events: Seq<PublishEvent>) -> Seq<Seq<u8>>
    decreases events.len(),
{
    if events.len() == 0 {
        Seq::empty()
    } else {
        let earlier = forwarded_over(state, events.drop_last());
        match publish_step(publish_state_after(state, events.drop_last()), events.last()).1 {
            PublishAction::Forward { payload, progress } => earlier.push(bytes_view(payload)),
            _ => earlier,
        }
    }
}

/// The number of frames forwarded after `more` more. It stops at the
/// largest number there is.
pub open spec fn count_after_many(forwarded: u64, more: nat) -> u64
    decreases more,
{
    if more == 0 {
        forwarded
    } else {
        count_after(count_after_many(forwarded, (more - 1) as nat))
    }
}

/// A draining driver that is handed a run of frames orders each of them
/// forwarded, in their order, with its payload as it came, and none
/// besides; it counts them and goes on draining.
pub proof fn lemma_drain_forwards_each_frame(forwarded: u64, frames: Seq<Frame>)
    ensures
        forwarded_over(PublishState::Draining { forwarded }, frame_events(frames)) == payloads_of(
            frames,
        ),
        publish_state_after(PublishState::Draining { forwarded }, frame_events(frames)) == (
        PublishState::Draining { forwarded: count_after_many(forwarded, frames.len()) }),
        forwarded + frames.len() <= u64::MAX ==> count_after_many(forwarded, frames.len())
            == forwarded + frames.len(),
    decreases frames.len(),
{
    let state = PublishState::Draining { forwarded };
    if frames.len() == 0 {
        assert(payloads_of(frames) =~= Seq::<Seq<u8>>::empty());
    } else {
        let head = frames.drop_last();
        lemma_drain_forwards_each_frame(forwarded, head);
        assert(frame_events(frames).drop_last() =~= frame_events(head));
        assert(frame_events(frames).last() == PublishEvent::Frame(frames.last()));
        assert(payloads_of(head).push(frames.last()@.payload) =~= payloads_of(frames));
    }
}

/// A driver that has given up stays so and orders nothing forwarded,
/// whatever it is told.
pub proof fn lemma_failed_never_forwards(events: Seq<PublishEvent>)
    ensures
        publish_state_after(PublishState::Failed, events) is Failed,
        forwarded_over(PublishState::Failed, events).len() == 0,
    decreases events.len(),
{
    if events.len() > 0 {
        lemma_failed_never_forwards(events.drop_last());
    }
}

/// What a driver does over one event and then a run of others is what
/// the driver that the first event leaves does over the others, after
/// what the first event ordered.
pub proof fn lemma_forwarded_after_first(
    state: PublishState,
    first: PublishEvent,
    later: Seq<PublishEvent>,
)
    ensures
        publish_state_after(state, seq![first] + later) == publish_state_after(
            publish_step(state, first).0,
            later,
        ),
        forwarded_over(state, seq![first] + later) == forwarded_over(state, seq![first])
            + forwarded_over(publish_step(state, first).0, later),
    decreases later.len(),
{
    let all = seq![first] + later;
    assert(seq![first].drop_last() =~= Seq::<PublishEvent>::empty());
    assert(seq![first].last() == first);
    assert(publish_state_after(state, Seq::<PublishEvent>::empty()) == state);
    assert(publish_state_after(state, seq![first]) == publish_step(state, first).0);
    if later.len() == 0 {
        assert(all =~= seq![first]);
        assert(forwarded_over(state, seq![first]) + Seq::<Seq<u8>>::empty() =~= forwarded_over(
            state,
            seq![first],
        ));
    } else {
        lemma_forwarded_after_first(state, first, later.drop_last());
        assert(all.drop_last() =~= seq![first] + later.drop_last());
        assert(all.last() == later.last());
        let head = forwarded_over(state, seq![first]);
        let tail = forwarded_over(publish_step(state, first).0, later.drop_last());
        match publish_step(publish_state_after(state, all.drop_last()), all.last()).1 {
            PublishAction::Forward { payload, progress } => {
                assert((head + tail).push(bytes_view(payload)) =~= head + tail.push(
                    bytes_view(payload),
                ));
            },
            _ => {},
        }
    }
}

/// A relay that is not reached gets no group. If the address is no URL,
/// or the attempt to connect fails, nothing is ever ordered forwarded, in
/// that step or in any later one, and the driver ends given up.
pub proof fn lemma_unreachable_relay_gets_no_group(
    config: MoqConfig,
    reason: String,
    later: Seq<PublishEvent>,
)
    ensures
        forwarded_over(
            publish_start(config).0,
            seq![PublishEvent::ConnectFailed(reason)] + later,
        ).len() == 0,
        publish_state_after(
            publish_start(config).0,
            seq![PublishEvent::ConnectFailed(reason)] + later,
        ) is Failed,
        publish_start(config).0 is Failed ==> forwarded_over(publish_start(config).0, later).len()
            == 0,
{
    let start = publish_start(config).0;
    let first = PublishEvent::ConnectFailed(reason);
    lemma_forwarded_after_first(start, first, later);
    lemma_failed_never_forwards(later);
    assert(seq![first].drop_last() =~= Seq::<PublishEvent>::empty());
    assert(seq![first].last() == first);
    assert(publish_state_after(start, Seq::<PublishEvent>::empty()) == start);
    assert(forwarded_over(start, Seq::<PublishEvent>::empty()).len() == 0);
    assert(publish_step(start, first).0 is Failed);
    assert(!(publish_step(start, first).1 is Forward));
    assert(forwarded_over(start, seq![first]).len() == 0);
}

/// A group under construction or closed.
pub struct Group {
    frames: Vec<Bytes>,
    closed: bool,
}

impl View for Group {
    type V = GroupView;

    closed spec fn view(&self) -> GroupView {
        GroupView {
            frames: self.frames@.map_values(|payload: Bytes| bytes_view(payload)),
            closed: self.closed,
        }
    }
}

/// A record of what was written to a track.
pub struct TrackLog {
    groups: Vec<Group>,
}

impl View for TrackLog {
    type V = Seq<GroupView>;

    closed spec fn view(&self) -> Seq<GroupView> {
        self.groups@.map_values(|group: Group| group@)
    }
}

impl TrackLog {
    /// The record of a track to which nothing was written.
    pub fn new() -> (log: TrackLog)
        ensures
            log@ == Seq::<GroupView>::empty(),
    {
        let log = TrackLog { groups: Vec::new() };
        assert(log@ =~= Seq::<GroupView>::empty());
        log
    }

    /// Makes the call on the record, if the track takes it; else changes
    /// nothing. Says whether the track took it.
    pub fn apply(&mut self, op: TrackOp) -> (taken: bool)
        ensures
            taken <==> track_apply(old(self)@, op@) is Some,
            taken ==> Some(final(self)@) == track_apply(old(self)@, op@),
            !taken ==> final(self)@ == old(self)@,
    {
        let n = self.groups.len();
        let open = n > 0 && !self.groups[n - 1].closed;
        let ghost before = self@;
        assert(open == has_open_group(before));
        match op {
            TrackOp::OpenGroup => {
                if open {
                    false
                } else {
                    let group = Group { frames: Vec::new(), closed: false };
                    assert(group@.frames =~= Seq::<Seq<u8>>::empty());
                    self.groups.push(group);
                    assert(self@ =~= before.push(group@));
                    true
                }
            },
            TrackOp::WriteFrame(payload) => {
                if open {
                    let ghost rest = self.groups@.drop_last();
                    let mut group = self.groups.pop().unwrap();
                    let ghost last = group@;
                    assert(self.groups@ =~= rest);
                    group.frames.push(payload);
                    assert(group@.frames =~= last.frames.push(bytes_view(payload)));
                    self.groups.push(group);
                    assert(self@ =~= before.drop_last().push(group@));
                    true
                } else {
                    false
                }
            },
            TrackOp::CloseGroup => {
                if open {
                    let ghost rest = self.groups@.drop_last();
                    let mut group = self.groups.pop().unwrap();
                    assert(self.groups@ =~= rest);
                    group.closed = true;
                    self.groups.push(group);
                    assert(self@ =~= before.drop_last().push(group@));
                    true
                } else {
                    false
                }
            },
        }
    }

    /// Makes a run of calls on the record, first to last, as long as the
    /// track takes them. Says whether it took them all; the record holds
    /// what the calls before the first refused one left.
    pub fn apply_all(&mut self, ops: Vec<TrackOp>) -> (taken: bool)
        ensures
            taken <==> track_apply_all(old(self)@, op_views(ops@)) is Some,
            taken ==> Some(final(self)@) == track_apply_all(old(self)@, op_views(ops@)),
            !taken ==> exists|n: int|
                0 <= n < ops@.len() && #[trigger] track_apply_all(
                    old(self)@,
                    op_views(ops@).take(n),
                ) == Some(final(self)@) && track_apply_all(
                    old(self)@,
                    op_views(ops@).take(n + 1),
                ) is None,
    {
        let mut rest = ops;
        let ghost all = op_views(ops@);
        let ghost start = self@;
        let ghost mut done: int = 0;
        assert(all.take(0) =~= Seq::<TrackOpView>::empty());
        assert(op_views(rest@) =~= all.skip(0));
        while rest.len() > 0
            invariant
                start == old(self)@,
                all == op_views(ops@),
                0 <= done <= all.len(),
                rest@.len() == all.len() - done,
                op_views(rest@) == all.skip(done),
                track_apply_all(start, all.take(done)) == Some(self@),
            decreases rest.len(),
        {
            let ghost before = rest@;
            let op = rest.remove(0);
            proof {
                assert(op_views(before)[0] == all.skip(done)[0]);
                assert(op@ == all[done]);
                assert(all.take(done + 1).drop_last() =~= all.take(done));
                assert(all.take(done + 1).last() == all[done]);
                assert(rest@ =~= before.skip(1));
                assert(op_views(before.skip(1)) =~= op_views(before).skip(1));
                assert(all.skip(done).skip(1) =~= all.skip(done + 1));
            }
            let ghost earlier = self@;
            let taken = self.apply(op);
            if !taken {
                proof {
                    assert(track_apply_all(start, all.take(done + 1)) == track_apply(
                        earlier,
                        all[done],
                    ));
                    lemma_refused_stays_refused(start, all, done + 1);
                }
                return false;
            }
            proof {
                done = done + 1;
            }
        }
        assert(all.take(done) =~= all);
        true
    }

    /// The number of groups opened up to now.
    pub fn group_count(&self) -> (n: usize)
        ensures
            n == self@.len(),
    {
        self.groups.len()
    }

    /// The number of payloads written into group `index`; none for an
    /// index that names no group.
    pub fn group_len(&self, index: usize) -> (n: Option<usize>)
        ensures
            index < self@.len() <==> n is Some,
            n matches Some(len) ==> len == self@[index as int].frames.len(),
    {
        if index < self.groups.len() {
            Some(self.groups[index].frames.len())
        } else {
            None
        }
    }

    /// Whether group `index` is closed; none for an index that names no
    /// group.
    pub fn group_closed(&self, index: usize) -> (closed: Option<bool>)
        ensures
            index < self@.len() <==> closed is Some,
            closed matches Some(c) ==> c == self@[index as int].closed,
    {
        if index < self.groups.len() {
            Some(self.groups[index].closed)
        } else {
            None
        }
    }

    /// Payload `frame` of group `index`; none where there is no such
    /// group or no such payload in it.
    pub fn payload(&self, index: usize, frame: usize) -> (payload: Option<&Bytes>)
        ensures
            (index < self@.len() && frame < self@[index as int].frames.len()) <==> payload
                is Some,
            payload matches Some(bytes) ==> bytes_view(*bytes)
                == self@[index as int].frames[frame as int],
    {
        if index < self.groups.len() {
            let group = &self.groups[index];
            if frame < group.frames.len() {
                Some(&group.frames[frame])
            } else {
                None
            }
        } else {
            None
        }
    }
}

} // verus!
