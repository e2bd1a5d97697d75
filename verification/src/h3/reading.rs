//! What holds of all reads of a body.

use vstd::prelude::*;

use super::body::{BodyView, Read, ReadActionView, ReadEventView, ReadNext, ReadStage};

verus! {

/// How far the reads of a body have come.
pub struct ReadRun {
    pub body: BodyView,
    /// The call that is under way, or the last one.
    pub call: Read,
    /// What the call did last.
    pub next: Option<ReadNext>,
    /// The data of all frames that came in.
    pub received: Seq<u8>,
    /// All data that was delivered.
    pub delivered: Seq<u8>,
    /// The data that the call has delivered.
    pub by_call: Seq<u8>,
    /// How often the call has delivered data, be it none.
    pub deliveries: nat,
    /// Whether a frame came in that is the last.
    pub ended: bool,
}

impl ReadRun {
    /// Whether `event` can happen: a call begins where none is under way.
    pub open spec fn can_meet(self, event: ReadEventView) -> bool {
        event is Begin <==> self.call.stage != ReadStage::Receiving
    }

    /// The reads after one more event, with this much room in the caller's
    /// buffer.
    pub open spec fn step(self, room: nat, event: ReadEventView) -> ReadRun {
        let begins = event is Begin;
        let call = if begins {
            Read { did_read: false, stage: ReadStage::New }
        } else {
            self.call
        };
        let (body, call, action) = self.body.read(call, room, event);
        let data = match action.deliver {
            Some(data) => data,
            None => Seq::empty(),
        };
        ReadRun {
            body,
            call,
            next: Some(action.next),
            received: match event {
                ReadEventView::Received(data, _) => self.received + data,
                _ => self.received,
            },
            delivered: self.delivered + data,
            by_call: if begins {
                data
            } else {
                self.by_call + data
            },
            deliveries: (if begins {
                0nat
            } else {
                self.deliveries
            }) + (if action.deliver is Some {
                1nat
            } else {
                0nat
            }),
            ended: self.ended || (event matches ReadEventView::Received(_, fin) && fin),
        }
    }
}

/// All reads of a new body; `None` where an event cannot happen.
pub open spec fn read_run(
    stream_id: u64,
    has_recv: bool,
    read_fin: bool,
    events: Seq<(nat, ReadEventView)>,
) -> Option<ReadRun>
    decreases events.len(),
{
    if events.len() == 0 {
        Some(
            ReadRun {
                body: BodyView { stream_id, wrote_fin: false, read_fin, has_recv, pending: None },
                call: Read { did_read: false, stage: ReadStage::New },
                next: None,
                received: Seq::empty(),
                delivered: Seq::empty(),
                by_call: Seq::empty(),
                deliveries: 0,
                ended: false,
            },
        )
    } else {
        match read_run(stream_id, has_recv, read_fin, events.drop_last()) {
            Some(run) if run.can_meet(events.last().1) => Some(
                run.step(events.last().0, events.last().1),
            ),
            _ => None,
        }
    }
}

/// The data that was received and not delivered yet.
pub open spec fn pending_data(body: BodyView) -> Seq<u8> {
    match body.pending {
        Some((data, _)) => data,
        None => Seq::empty(),
    }
}

spec fn read_shape(run: ReadRun) -> bool {
    &&& run.body.allows(run.call)
    &&& run.delivered + pending_data(run.body) == run.received
    &&& run.body.read_fin ==> run.body.pending is None
    &&& !run.call.did_read && run.call.stage == ReadStage::Receiving ==> run.by_call.len() == 0
    &&& run.next == Some(ReadNext::Pending) ==> run.by_call.len() == 0
    &&& run.call.stage == ReadStage::Receiving <==> run.next == Some(ReadNext::Receive)
    &&& run.call.stage == ReadStage::Receiving ==> (run.call.did_read <==> run.deliveries > 0)
    &&& run.body.pending matches Some((data, fin)) ==> data.len() > 0 && run.body.has_recv
        && fin == run.ended
    &&& run.ended ==> run.body.read_fin || run.body.pending is Some
}

/// What holds of the reads of a body that was made with `has_recv` and
/// `read_fin`.
spec fn read_origin(run: ReadRun, has_recv: bool, read_fin: bool) -> bool {
    &&& run.body.has_recv == has_recv
    &&& run.body.read_fin ==> read_fin || run.ended
    &&& read_fin ==> run.body.read_fin
    &&& run.body.read_fin && run.next is Some ==> run.next == Some(
        if has_recv {
            ReadNext::CloseAndReady
        } else {
            ReadNext::Ready
        },
    )
}

proof fn read_step_keeps_shape(run: ReadRun, room: nat, event: ReadEventView)
    requires
        read_shape(run),
        run.can_meet(event),
    ensures
        read_shape(run.step(room, event)),
        forall|has_recv: bool, read_fin: bool|
            read_origin(run, has_recv, read_fin) ==> #[trigger] read_origin(
                run.step(room, event),
                has_recv,
                read_fin,
            ),
{
    let next = run.step(room, event);
    match event {
        ReadEventView::Begin => {
            if let Some((data, _)) = run.body.pending {
                if data.len() > room {
                    assert(data.take(room as int) + data.skip(room as int) =~= data);
                }
                assert(next.delivered + pending_data(next.body) =~= run.delivered + data);
            } else {
                assert(next.delivered + pending_data(next.body) =~= run.delivered + pending_data(
                    run.body,
                ));
            }
        },
        ReadEventView::Received(data, _) => {
            assert(run.delivered + pending_data(run.body) =~= run.delivered);
            if data.len() > room {
                assert(data.take(room as int) + data.skip(room as int) =~= data);
            }
            assert(next.delivered + pending_data(next.body) =~= run.received + data);
        },
        _ => {
            assert(next.delivered =~= run.delivered);
            assert(next.by_call =~= run.by_call);
        },
    }
}

proof fn read_run_has_shape(
    stream_id: u64,
    has_recv: bool,
    read_fin: bool,
    events: Seq<(nat, ReadEventView)>,
)
    requires
        read_run(stream_id, has_recv, read_fin, events) is Some,
    ensures
        read_shape(read_run(stream_id, has_recv, read_fin, events)->0),
        read_origin(read_run(stream_id, has_recv, read_fin, events)->0, has_recv, read_fin),
        events.len() > 0 ==> read_run(stream_id, has_recv, read_fin, events)->0.next is Some,
    decreases events.len(),
{
    if events.len() == 0 {
        let run = read_run(stream_id, has_recv, read_fin, events)->0;
        assert(run.delivered + pending_data(run.body) =~= run.received);
    } else {
        read_run_has_shape(stream_id, has_recv, read_fin, events.drop_last());
        let before = read_run(stream_id, has_recv, read_fin, events.drop_last())->0;
        read_step_keeps_shape(before, events.last().0, events.last().1);
    }
}

/// Reads give back what came in: the delivered data and what is pending are the
/// data of the received frames, in order, with nothing lost and nothing twice.
pub proof fn reads_deliver_what_came_in(
    stream_id: u64,
    has_recv: bool,
    read_fin: bool,
    events: Seq<(nat, ReadEventView)>,
)
    requires
        read_run(stream_id, has_recv, read_fin, events) is Some,
    ensures
        read_run(stream_id, has_recv, read_fin, events) matches Some(run) && run.delivered
            + pending_data(run.body) == run.received,
{
    read_run_has_shape(stream_id, has_recv, read_fin, events);
}

/// A body has read its end only once all of its data is delivered and none is
/// pending.
pub proof fn the_end_comes_last(
    stream_id: u64,
    has_recv: bool,
    read_fin: bool,
    events: Seq<(nat, ReadEventView)>,
)
    requires
        read_run(stream_id, has_recv, read_fin, events) matches Some(run) && run.body.read_fin,
    ensures
        read_run(stream_id, has_recv, read_fin, events) matches Some(run) && run.delivered
            == run.received && run.body.pending is None,
{
    read_run_has_shape(stream_id, has_recv, read_fin, events);
    let run = read_run(stream_id, has_recv, read_fin, events)->0;
    assert(run.delivered + pending_data(run.body) =~= run.delivered);
}

/// A call asks to be called again only where it has delivered nothing.
pub proof fn pending_reads_delivered_nothing(
    stream_id: u64,
    has_recv: bool,
    read_fin: bool,
    events: Seq<(nat, ReadEventView)>,
)
    requires
        read_run(stream_id, has_recv, read_fin, events) matches Some(run) && run.next == Some(
            ReadNext::Pending,
        ),
    ensures
        read_run(stream_id, has_recv, read_fin, events) matches Some(run) && run.by_call.len() == 0,
{
    read_run_has_shape(stream_id, has_recv, read_fin, events);
}

/// A datagram is none of the stream's data: it delivers nothing, leaves the body
/// and the call as they are, and the next frame is asked for.
pub proof fn datagrams_are_passed_over(body: BodyView, call: Read, room: nat)
    requires
        body.allows(call),
        call.can_meet(ReadEventView::Datagram),
    ensures
        body.read(call, room, ReadEventView::Datagram) == (
            body,
            call,
            ReadActionView { deliver: None, next: ReadNext::Receive },
        ),
        call.stage == ReadStage::Receiving,
{
}

/// A read never delivers more than there is room for.
pub proof fn reads_fit_the_room(body: BodyView, call: Read, room: nat, event: ReadEventView)
    requires
        body.allows(call),
        call.can_meet(event),
    ensures
        body.read(call, room, event).2.deliver matches Some(data) ==> data.len() <= room,
{
}

/// Behind its end a body has nothing to read: a call is ready at once, without
/// data and without asking for a frame.
pub proof fn nothing_is_read_behind_the_end(body: BodyView, room: nat)
    requires
        body.read_fin,
        body.pending is None,
    ensures
        ({
            let call = Read { did_read: false, stage: ReadStage::New };
            let (after, _, action) = body.read(call, room, ReadEventView::Begin);
            &&& after == body
            &&& action.deliver is None
            &&& action.next == ReadNext::Ready || action.next == ReadNext::CloseAndReady
        }),
{
}

/// The end of a body is noticed: once the last frame came in and all data is
/// delivered, be it that the frame carries none, the body has read its end, and
/// the call is ready, refuses further frames and asks for none.
pub proof fn the_end_is_noticed(
    stream_id: u64,
    has_recv: bool,
    read_fin: bool,
    events: Seq<(nat, ReadEventView)>,
)
    requires
        read_run(stream_id, has_recv, read_fin, events) matches Some(run) && run.ended
            && run.delivered == run.received,
    ensures
        read_run(stream_id, has_recv, read_fin, events) matches Some(run) && run.body.read_fin
            && run.next == Some(ReadNext::CloseAndReady),
{
    read_run_has_shape(stream_id, has_recv, read_fin, events);
    let run = read_run(stream_id, has_recv, read_fin, events)->0;
    assert(run.delivered.len() + pending_data(run.body).len() == run.received.len());
    ends_need_a_receiver(stream_id, has_recv, read_fin, events);
}

/// Frames come in only where there is a receiver.
proof fn ends_need_a_receiver(
    stream_id: u64,
    has_recv: bool,
    read_fin: bool,
    events: Seq<(nat, ReadEventView)>,
)
    requires
        read_run(stream_id, has_recv, read_fin, events) matches Some(run) && run.ended,
    ensures
        has_recv,
        events.len() > 0,
    decreases events.len(),
{
    read_run_has_shape(stream_id, has_recv, read_fin, events);
    if events.len() > 0 {
        read_run_has_shape(stream_id, has_recv, read_fin, events.drop_last());
        if read_run(stream_id, has_recv, read_fin, events.drop_last())->0.ended {
            ends_need_a_receiver(stream_id, has_recv, read_fin, events.drop_last());
        }
    }
}

/// The end of a body is not made up: it is read only where the stream had ended
/// before or a last frame came in, and never while data of it is left.
pub proof fn the_end_is_not_made_up(
    stream_id: u64,
    has_recv: bool,
    read_fin: bool,
    events: Seq<(nat, ReadEventView)>,
)
    requires
        read_run(stream_id, has_recv, read_fin, events) is Some,
    ensures
        read_run(stream_id, has_recv, read_fin, events) matches Some(run) && (run.body.read_fin
            <==> read_fin || (run.ended && run.delivered == run.received)),
{
    read_run_has_shape(stream_id, has_recv, read_fin, events);
    let run = read_run(stream_id, has_recv, read_fin, events)->0;
    assert(run.delivered.len() + pending_data(run.body).len() == run.received.len());
    if run.body.read_fin {
        assert(run.delivered + pending_data(run.body) =~= run.delivered);
    }
}

/// A read that asked for a frame takes whatever becomes of that, and a read that
/// is over takes nothing but a new beginning.
pub proof fn reads_await_their_outcome(
    stream_id: u64,
    has_recv: bool,
    read_fin: bool,
    events: Seq<(nat, ReadEventView)>,
    event: ReadEventView,
)
    requires
        read_run(stream_id, has_recv, read_fin, events) is Some,
        events.len() > 0,
    ensures
        ({
            let run = read_run(stream_id, has_recv, read_fin, events)->0;
            &&& run.body.allows(run.call)
            &&& run.call.can_meet(event) <==> run.next == Some(ReadNext::Receive) && !(event
                is Begin)
            &&& run.body.allows(Read { did_read: false, stage: ReadStage::New })
            &&& (Read { did_read: false, stage: ReadStage::New }).can_meet(event) <==> event
                is Begin
        }),
{
    read_run_has_shape(stream_id, has_recv, read_fin, events);
}

/// What a read does next is settled by what happened. The data at hand, what is
/// pending or has just come in, is delivered as far as there is room for it. Where
/// that is all of it and not the last, the next frame is asked for; where it is
/// not all, the read is ready. A read that finds no frame is ready where it has
/// delivered one, and is else to be called again.
pub proof fn frames_are_passed_on(
    stream_id: u64,
    has_recv: bool,
    read_fin: bool,
    events: Seq<(nat, ReadEventView)>,
    room: nat,
    event: ReadEventView,
)
    requires
        read_run(stream_id, has_recv, read_fin, events.push((room, event))) is Some,
    ensures
        ({
            let before = read_run(stream_id, has_recv, read_fin, events)->0;
            let after = read_run(stream_id, has_recv, read_fin, events.push((room, event)))->0;
            let data = match event {
                ReadEventView::Received(data, _) => data,
                ReadEventView::Begin => pending_data(before.body),
                _ => Seq::empty(),
            };
            &&& after.delivered == before.delivered + (if data.len() <= room {
                data
            } else {
                data.take(room as int)
            })
            &&& data.len() > room ==> after.next == Some(ReadNext::Ready)
            &&& data.len() <= room && (event is Begin || event is Received) ==> (after.next == Some(
                ReadNext::Receive,
            ) <==> has_recv && !after.body.read_fin) && (after.next == Some(ReadNext::Receive)
                || after.next == Some(
                if has_recv {
                    ReadNext::CloseAndReady
                } else {
                    ReadNext::Ready
                },
            ))
            &&& event is Datagram ==> after.next == Some(ReadNext::Receive) && after.body
                == before.body
            &&& event is Closed ==> after.next == Some(ReadNext::Ready) && after.body == before.body
            &&& event is NoFrame ==> after.next == Some(
                if before.deliveries > 0 {
                    ReadNext::Ready
                } else {
                    ReadNext::Pending
                },
            ) && after.body == before.body
            &&& event is Received ==> after.deliveries == before.deliveries + 1
            &&& after.body.stream_id == stream_id
            &&& after.body.wrote_fin == before.body.wrote_fin
        }),
{
    let longer = events.push((room, event));
    assert(longer.drop_last() =~= events);
    read_run_has_shape(stream_id, has_recv, read_fin, events);
    read_run_has_shape(stream_id, has_recv, read_fin, longer);
    reads_stay_on_their_stream(stream_id, has_recv, read_fin, longer);
    let before = read_run(stream_id, has_recv, read_fin, events)->0;
    let after = read_run(stream_id, has_recv, read_fin, longer)->0;
    if !(event is Begin) && !(event is Received) {
        assert(after.delivered =~= before.delivered);
    } else if before.body.pending is None && event is Begin {
        assert(after.delivered =~= before.delivered);
    }
}

proof fn reads_stay_on_their_stream(
    stream_id: u64,
    has_recv: bool,
    read_fin: bool,
    events: Seq<(nat, ReadEventView)>,
)
    requires
        read_run(stream_id, has_recv, read_fin, events) is Some,
    ensures
        read_run(stream_id, has_recv, read_fin, events)->0.body.stream_id == stream_id,
    decreases events.len(),
{
    if events.len() > 0 {
        reads_stay_on_their_stream(stream_id, has_recv, read_fin, events.drop_last());
    }
}

} // verus!
